//! The Merkle root of an ordered sequence of hashes.
//!
//! Hashes are paired left to right, level by level. A level of odd length pairs
//! its last hash with itself. A parent is the digest of its two children's
//! 32-byte big-endian forms, joined. The root of no hashes is the zero hash.
use vstd::prelude::*;
use crate::sha256::digest_value;
use crate::uint256::be_fixed;

verus! {

/// The parent of two hash values.
pub open spec fn merkle_parent(left: nat, right: nat) -> nat {
    digest_value(be_fixed(left, 32) + be_fixed(right, 32))
}

/// The level above: each pair joined, the last hash of an odd level paired with itself.
pub open spec fn merkle_level(hs: Seq<nat>) -> Seq<nat> {
    Seq::new(
        ((hs.len() + 1) / 2) as nat,
        |i: int|
            merkle_parent(hs[2 * i], if 2 * i + 1 < hs.len() { hs[2 * i + 1] } else { hs[2 * i] }),
    )
}

/// The root over a sequence of hash values.
pub open spec fn merkle_root_of(hs: Seq<nat>) -> nat
    decreases hs.len(),
{
    if hs.len() == 0 {
        0
    } else if hs.len() == 1 {
        hs[0]
    } else {
        merkle_root_of(merkle_level(hs))
    }
}

/// The values of a sequence of hashes.
pub open spec fn hash_values(hs: Seq<crate::sha256::Hash>) -> Seq<nat> {
    hs.map_values(|h: crate::sha256::Hash| h.value())
}

/// The parent of two hashes.
fn parent(left: &crate::sha256::Hash, right: &crate::sha256::Hash) -> (r: crate::sha256::Hash)
    ensures
        r.value() == merkle_parent(left.value(), right.value()),
{
    let mut bytes: Vec<u8> = Vec::new();
    let l = left.to_bytes();
    let r = right.to_bytes();
    let mut i: usize = 0;
    while i < 32
        invariant
            i <= 32,
            bytes@ == l@.subrange(0, i as int),
        decreases 32 - i,
    {
        bytes.push(l[i]);
        i = i + 1;
        assert(bytes@ =~= l@.subrange(0, i as int));
    }
    let mut j: usize = 0;
    while j < 32
        invariant
            j <= 32,
            bytes@ == l@ + r@.subrange(0, j as int),
        decreases 32 - j,
    {
        bytes.push(r[j]);
        j = j + 1;
        assert(bytes@ =~= l@ + r@.subrange(0, j as int));
    }
    assert(l@.subrange(0, 32) =~= l@);
    assert(r@.subrange(0, 32) =~= r@);
    crate::sha256::Hash::of_bytes(bytes.as_slice())
}

/// The next level up of a non-empty level.
fn next_level(layer: &Vec<crate::sha256::Hash>) -> (r: Vec<crate::sha256::Hash>)
    requires
        layer@.len() > 0,
    ensures
        r@.len() == (layer@.len() + 1) / 2,
        hash_values(r@) == merkle_level(hash_values(layer@)),
{
    let n = layer.len();
    let half = n / 2 + n % 2;
    let mut out: Vec<crate::sha256::Hash> = Vec::new();
    let mut i: usize = 0;
    while i < half
        invariant
            n == layer@.len(),
            half == (n + 1) / 2,
            i <= half,
            out@.len() == i,
            hash_values(out@) == merkle_level(hash_values(layer@)).subrange(0, i as int),
        decreases half - i,
    {
        let left = &layer[2 * i];
        let right = if 2 * i + 1 < n {
            &layer[2 * i + 1]
        } else {
            &layer[2 * i]
        };
        let p = parent(left, right);
        let ghost before = out@;
        out.push(p);
        proof {
            let vs = hash_values(layer@);
            assert(vs[2 * i] == layer@[2 * i].value());
            if 2 * i + 1 < n {
                assert(vs[2 * i + 1] == layer@[2 * i + 1].value());
            }
            assert(merkle_level(vs)[i as int] == p.value());
            assert(hash_values(out@)[i as int] == p.value());
            assert(hash_values(before) == hash_values(out@).subrange(0, i as int));
        }
        i = i + 1;
        assert(hash_values(out@) =~= merkle_level(hash_values(layer@)).subrange(0, i as int));
    }
    assert(hash_values(out@) =~= merkle_level(hash_values(layer@)));
    out
}

/// Merkle roots of transaction hashes.
pub struct MerkleRoot;

impl MerkleRoot {
    /// The root over `transaction_hashes`, in their order; the zero hash when there are none.
    pub fn compute(transaction_hashes: &Vec<crate::sha256::Hash>) -> (r: crate::sha256::Hash)
        ensures
            r.value() == merkle_root_of(hash_values(transaction_hashes@)),
            transaction_hashes@.len() == 0 ==> r.value() == 0,
            transaction_hashes@.len() == 1 ==> r == transaction_hashes@[0],
    {
        if transaction_hashes.len() == 0 {
            return crate::sha256::Hash::zero();
        }
        if transaction_hashes.len() == 1 {
            return transaction_hashes[0];
        }
        let mut layer = next_level(transaction_hashes);
        while layer.len() > 1
            invariant
                layer@.len() >= 1,
                merkle_root_of(hash_values(layer@)) == merkle_root_of(
                    hash_values(transaction_hashes@),
                ),
            decreases layer@.len(),
        {
            layer = next_level(&layer);
        }
        layer[0]
    }
}

} // verus!
