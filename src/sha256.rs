//! The hash of a value: the SHA-256 digest of its canonical encoding, read as a
//! big-endian 256-bit integer.
use vstd::prelude::*;
use crate::canonical::Canonical;
use crate::hex_text::{decode_hex, encode_hex, hex_decode, hex_encode, lemma_hex_round_trip};
use crate::uint256::{array32, be_fixed, be_value, lemma_value_below_max, pow256, U256};

verus! {

/// The SHA-256 digest of a byte sequence.
pub uninterp spec fn sha256_of(data: Seq<u8>) -> Seq<u8>;

/// The SHA-256 digest of `data` as lowercase hexadecimal text.
///
/// Relies on `sha256::digest`, which is `hex::encode` of the 32-byte SHA-256
/// digest of its input.
#[verifier::external_body]
fn sha256_hex(data: &[u8]) -> (r: String)
    ensures
        r@ == hex_encode(sha256_of(data@)),
        r@.len() == 64,
{
    ::sha256::digest(data)
}

/// The 32 bytes of the SHA-256 digest of `data`.
pub fn digest(data: &[u8]) -> (r: [u8; 32])
    ensures
        r@ == sha256_of(data@),
{
    let text = sha256_hex(data);
    proof {
        lemma_hex_round_trip(sha256_of(data@));
    }
    match decode_hex(text.as_str()) {
        Ok(bytes) => array32(&bytes),
        Err(_) => {
            proof {
                assert(false);
            }
            [0u8; 32]
        },
    }
}

/// The number that the digest of a byte sequence stands for.
pub open spec fn digest_value(data: Seq<u8>) -> nat {
    be_value(sha256_of(data))
}

/// A 256-bit hash value.
#[derive(Clone, Copy, Debug, PartialEq, Eq)]
pub struct Hash(U256);

impl Hash {
    /// The integer that the hash stands for.
    pub closed spec fn value(&self) -> nat {
        self.0.value()
    }

    /// The hash of a value: the digest of its canonical encoding.
    pub fn hash<T: Canonical>(data: &T) -> (r: Hash)
        ensures
            r.value() == digest_value(data.canonical()),
    {
        let mut serialized: Vec<u8> = Vec::new();
        data.encode(&mut serialized);
        assert(serialized@ =~= data.canonical());
        Hash::of_bytes(serialized.as_slice())
    }

    /// The hash of raw bytes: their digest, with no encoding.
    pub fn of_bytes(data: &[u8]) -> (r: Hash)
        ensures
            r.value() == digest_value(data@),
    {
        let d = digest(data);
        Hash(U256::from_big_endian(&d))
    }

    /// Whether the hash is at most `target`: smaller means more work.
    pub fn matches_target(&self, target: U256) -> (r: bool)
        ensures
            r == (self.value() <= target.value()),
    {
        self.0.le(&target)
    }

    /// The hash whose integer is zero.
    pub fn zero() -> (r: Hash)
        ensures
            r.value() == 0,
    {
        Hash(U256::zero())
    }

    /// The hash read from 32 big-endian bytes.
    pub fn from_bytes(b: [u8; 32]) -> (r: Hash)
        ensures
            r.value() == be_value(b@),
    {
        Hash(U256::from_big_endian(&b))
    }

    /// The 32 big-endian bytes of the hash.
    pub fn to_bytes(&self) -> (r: [u8; 32])
        ensures
            r@ == be_fixed(self.value(), 32),
            be_value(r@) == self.value(),
    {
        self.0.to_big_endian()
    }

    /// The integer of the hash.
    pub fn as_u256(&self) -> (r: U256)
        ensures
            r.value() == self.value(),
    {
        self.0
    }

    /// The textual form: 64 lowercase hexadecimal digits, no prefix.
    pub fn to_string(&self) -> (r: String)
        ensures
            r@ == hex_encode(be_fixed(self.value(), 32)),
    {
        let b = self.to_bytes();
        encode_hex(b.as_slice())
    }
}

/// Two values with the same canonical encoding have the same hash.
pub proof fn lemma_hash_deterministic<T: Canonical>(a: &T, b: &T)
    requires
        a.canonical() == b.canonical(),
    ensures
        digest_value(a.canonical()) == digest_value(b.canonical()),
{
}

/// A hash that meets a target meets every target at least as large.
pub proof fn lemma_target_monotone(h: Hash, t1: U256, t2: U256)
    requires
        h.value() <= t1.value(),
        t1.value() <= t2.value(),
    ensures
        h.value() <= t2.value(),
{
}

/// The zero hash meets every target, and meets the zero target only by equality.
pub proof fn lemma_zero_meets_every_target(h: Hash, t: U256)
    requires
        h.value() == 0,
    ensures
        h.value() <= t.value(),
        t.value() == 0 ==> h.value() == t.value(),
        t.value() > 0 ==> h.value() < t.value(),
{
}

/// Every hash meets the largest target, `2^256 - 1`.
pub proof fn lemma_max_target_met(h: Hash, t: U256)
    requires
        t.value() == pow256(32) - 1,
    ensures
        h.value() <= t.value(),
{
    lemma_value_below_max(h.0);
}

} // verus!
