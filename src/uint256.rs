//! A fixed-width 256-bit unsigned integer, held as four 64-bit words.
use vstd::prelude::*;

verus! {

/// The number of values one 64-bit word can hold.
pub open spec fn word_base() -> nat {
    0x1_0000_0000_0000_0000
}

/// `256` raised to the power `n`.
pub open spec fn pow256(n: nat) -> nat
    decreases n,
{
    if n == 0 {
        1
    } else {
        256 * pow256((n - 1) as nat)
    }
}

/// The number that a byte sequence spells out, most significant byte first.
pub open spec fn be_value(s: Seq<u8>) -> nat
    decreases s.len(),
{
    if s.len() == 0 {
        0
    } else {
        be_value(s.drop_last()) * 256 + s.last() as nat
    }
}

/// The low `k` bytes of `n`, most significant first.
pub open spec fn be_fixed(n: nat, k: nat) -> Seq<u8>
    decreases k,
{
    if k == 0 {
        Seq::empty()
    } else {
        be_fixed(n / 256, (k - 1) as nat).push((n % 256) as u8)
    }
}

/// A 256-bit unsigned integer. Word 0 is the least significant.
#[derive(Clone, Copy, Debug, PartialEq, Eq)]
pub struct U256(pub [u64; 4]);

impl U256 {
    /// The integer that the four words stand for.
    pub open spec fn value(&self) -> nat {
        ((self.0[3] as nat * word_base() + self.0[2] as nat) * word_base() + self.0[1] as nat)
            * word_base() + self.0[0] as nat
    }

    /// The zero value.
    pub fn zero() -> (r: U256)
        ensures
            r.value() == 0,
    {
        U256([0u64, 0u64, 0u64, 0u64])
    }

    /// The largest value, `2^256 - 1`.
    pub fn max_value() -> (r: U256)
        ensures
            r.value() == pow256(32) - 1,
    {
        let r = U256([u64::MAX, u64::MAX, u64::MAX, u64::MAX]);
        proof {
            lemma_pow256_words();
        }
        r
    }

    /// The integer that 32 bytes spell out, most significant byte first.
    pub fn from_big_endian(b: &[u8; 32]) -> (r: U256)
        ensures
            r.value() == be_value(b@),
    {
        let w3 = word_from_be(b, 0);
        let w2 = word_from_be(b, 8);
        let w1 = word_from_be(b, 16);
        let w0 = word_from_be(b, 24);
        proof {
            let s = b@;
            lemma_be_concat(s.subrange(0, 8), s.subrange(8, 16));
            assert(s.subrange(0, 8) + s.subrange(8, 16) =~= s.subrange(0, 16));
            lemma_be_concat(s.subrange(0, 16), s.subrange(16, 24));
            assert(s.subrange(0, 16) + s.subrange(16, 24) =~= s.subrange(0, 24));
            lemma_be_concat(s.subrange(0, 24), s.subrange(24, 32));
            assert(s.subrange(0, 24) + s.subrange(24, 32) =~= s);
            lemma_pow256_words();
        }
        U256([w0, w1, w2, w3])
    }

    /// The 32 bytes of the value, most significant first.
    pub fn to_big_endian(&self) -> (r: [u8; 32])
        ensures
            r@ == be_fixed(self.value(), 32),
            be_value(r@) == self.value(),
    {
        let mut v: Vec<u8> = Vec::new();
        push_be(self.0[3], 8, &mut v);
        push_be(self.0[2], 8, &mut v);
        push_be(self.0[1], 8, &mut v);
        push_be(self.0[0], 8, &mut v);
        proof {
            let b3 = be_fixed(self.0[3] as nat, 8);
            let b2 = be_fixed(self.0[2] as nat, 8);
            let b1 = be_fixed(self.0[1] as nat, 8);
            let b0 = be_fixed(self.0[0] as nat, 8);
            assert(v@ =~= b3 + b2 + b1 + b0);
            lemma_pow256_words();
            lemma_be_value_fixed(self.0[3] as nat, 8);
            lemma_be_value_fixed(self.0[2] as nat, 8);
            lemma_be_value_fixed(self.0[1] as nat, 8);
            lemma_be_value_fixed(self.0[0] as nat, 8);
            lemma_be_concat(b3, b2);
            lemma_be_concat(b3 + b2, b1);
            lemma_be_concat(b3 + b2 + b1, b0);
            lemma_be_fixed_unique(v@);
        }
        array32(&v)
    }

    /// Whether `self <= other` as integers.
    pub fn le(&self, other: &U256) -> (r: bool)
        ensures
            r == (self.value() <= other.value()),
    {
        proof {
            lemma_value_cmp(*self, *other);
        }
        if self.0[3] != other.0[3] {
            self.0[3] < other.0[3]
        } else if self.0[2] != other.0[2] {
            self.0[2] < other.0[2]
        } else if self.0[1] != other.0[1] {
            self.0[1] < other.0[1]
        } else {
            self.0[0] <= other.0[0]
        }
    }

    /// Whether `self < other` as integers.
    pub fn lt(&self, other: &U256) -> (r: bool)
        ensures
            r == (self.value() < other.value()),
    {
        !other.le(self)
    }
}

/// Two values are equal exactly when their integers are.
pub proof fn lemma_eq_iff_value(a: U256, b: U256)
    ensures
        (a == b) <==> (a.value() == b.value()),
{
    lemma_value_cmp(a, b);
    if a.value() == b.value() {
        assert(a.0@ =~= b.0@);
        assert(a.0 == b.0);
    }
}

/// The 32 bytes of a vector as an array.
pub fn array32(v: &Vec<u8>) -> (r: [u8; 32])
    requires
        v@.len() == 32,
    ensures
        r@ == v@,
{
    let r = [
        v[0], v[1], v[2], v[3], v[4], v[5], v[6], v[7],
        v[8], v[9], v[10], v[11], v[12], v[13], v[14], v[15],
        v[16], v[17], v[18], v[19], v[20], v[21], v[22], v[23],
        v[24], v[25], v[26], v[27], v[28], v[29], v[30], v[31],
    ];
    assert(r@ =~= v@);
    r
}

/// Appends the low `k` bytes of `n`, most significant first.
pub(crate) fn push_be(n: u64, k: usize, out: &mut Vec<u8>)
    ensures
        final(out)@ == old(out)@ + be_fixed(n as nat, k as nat),
    decreases k,
{
    if k == 0 {
        assert(old(out)@ + be_fixed(n as nat, 0) =~= old(out)@);
    } else {
        push_be(n / 256, k - 1, out);
        out.push((n % 256) as u8);
        assert(final(out)@ =~= old(out)@ + be_fixed(n as nat, k as nat));
    }
}

/// The fixed-width form of `n` spells `n` modulo `256^k`.
pub proof fn lemma_be_value_fixed(n: nat, k: nat)
    ensures
        be_fixed(n, k).len() == k,
        be_value(be_fixed(n, k)) == n % pow256(k),
    decreases k,
{
    if k == 0 {
        assert(n % 1 == 0);
    } else {
        lemma_be_value_fixed(n / 256, (k - 1) as nat);
        lemma_pow256_pos((k - 1) as nat);
        vstd::arithmetic::div_mod::lemma_mod_breakdown(n as int, 256, pow256((k - 1) as nat) as int);
        let f = be_fixed(n, k);
        assert(f.drop_last() =~= be_fixed(n / 256, (k - 1) as nat));
    }
}

/// The eight bytes of `b` from `start` on, read as one word.
fn word_from_be(b: &[u8; 32], start: usize) -> (w: u64)
    requires
        start + 8 <= 32,
    ensures
        w as nat == be_value(b@.subrange(start as int, start + 8)),
{
    let mut w: u64 = 0;
    let mut i: usize = 0;
    proof {
        assert(b@.subrange(start as int, start as int) =~= Seq::<u8>::empty());
    }
    while i < 8
        invariant
            i <= 8,
            start + 8 <= 32,
            w as nat == be_value(b@.subrange(start as int, start + i)),
            (w as nat) < pow256(i as nat),
        decreases 8 - i,
    {
        proof {
            assert(b@.subrange(start as int, start + i + 1).drop_last() =~= b@.subrange(
                start as int,
                start + i,
            ));
            assert(pow256(i as nat) <= pow256(7)) by {
                lemma_pow256_mono(i as nat, 7);
            }
            reveal_with_fuel(pow256, 8);
            assert(w * 256 + 255 < 0x1_0000_0000_0000_0000) by (nonlinear_arith)
                requires
                    w < 0x100_0000_0000_0000,
            ;
        }
        w = w * 256 + b[start + i] as u64;
        i = i + 1;
    }
    w
}

/// `256^n` grows with `n`.
proof fn lemma_pow256_mono(a: nat, b: nat)
    requires
        a <= b,
    ensures
        pow256(a) <= pow256(b),
    decreases b,
{
    if a < b {
        lemma_pow256_mono(a, (b - 1) as nat);
    }
}

/// The number spelled by a concatenation.
pub proof fn lemma_be_concat(a: Seq<u8>, c: Seq<u8>)
    ensures
        be_value(a + c) == be_value(a) * pow256(c.len()) + be_value(c),
    decreases c.len(),
{
    if c.len() == 0 {
        assert(a + c =~= a);
        assert(be_value(a) * 1 == be_value(a));
    } else {
        let c1 = c.drop_last();
        assert((a + c).drop_last() =~= a + c1);
        lemma_be_concat(a, c1);
        assert((a + c).last() == c.last());
        assert(pow256(c.len()) == 256 * pow256(c1.len()));
        let x = be_value(a);
        let p = pow256(c1.len());
        let y = be_value(c1);
        assert((x * p + y) * 256 == x * (256 * p) + y * 256) by (nonlinear_arith);
    }
}

/// A byte sequence is the fixed-width big-endian form of the number it spells.
pub proof fn lemma_be_fixed_unique(s: Seq<u8>)
    ensures
        s == be_fixed(be_value(s), s.len()),
    decreases s.len(),
{
    if s.len() > 0 {
        let t = s.drop_last();
        lemma_be_fixed_unique(t);
        let n = be_value(s);
        assert(n / 256 == be_value(t) && n % 256 == s.last() as nat) by {
            vstd::arithmetic::div_mod::lemma_fundamental_div_mod_converse(
                n as int,
                256,
                be_value(t) as int,
                s.last() as int,
            );
        }
        assert(s =~= t.push(s.last()));
    } else {
        assert(s =~= Seq::<u8>::empty());
    }
}

/// No value exceeds `2^256 - 1`.
pub proof fn lemma_value_below_max(x: U256)
    ensures
        x.value() <= pow256(32) - 1,
{
    let m = U256([u64::MAX, u64::MAX, u64::MAX, u64::MAX]);
    lemma_value_cmp(x, m);
    lemma_pow256_words();
}

/// `256^n` is positive.
proof fn lemma_pow256_pos(n: nat)
    ensures
        pow256(n) > 0,
    decreases n,
{
    if n > 0 {
        lemma_pow256_pos((n - 1) as nat);
    }
}

/// Comparing `h * m + l` by its digits in base `m`.
proof fn lemma_digit_cmp(ha: nat, la: nat, hb: nat, lb: nat, m: nat)
    requires
        la < m,
        lb < m,
    ensures
        (ha * m + la <= hb * m + lb) <==> (ha < hb || (ha == hb && la <= lb)),
        (ha * m + la == hb * m + lb) <==> (ha == hb && la == lb),
{
    if ha < hb {
        assert(ha * m + la < hb * m + lb) by (nonlinear_arith)
            requires
                ha < hb,
                la < m,
        ;
    } else if ha > hb {
        assert(ha * m + la > hb * m + lb) by (nonlinear_arith)
            requires
                ha > hb,
                lb < m,
        ;
    }
}

/// Integer order of two values is the order of their words, most significant first.
proof fn lemma_value_cmp(a: U256, b: U256)
    ensures
        (a.value() <= b.value()) <==> (a.0[3] < b.0[3] || (a.0[3] == b.0[3] && (a.0[2] < b.0[2]
            || (a.0[2] == b.0[2] && (a.0[1] < b.0[1] || (a.0[1] == b.0[1] && a.0[0]
            <= b.0[0])))))),
        (a.value() == b.value()) <==> (a.0[3] == b.0[3] && a.0[2] == b.0[2] && a.0[1] == b.0[1]
            && a.0[0] == b.0[0]),
{
    let m = word_base();
    lemma_digit_cmp(a.0[3] as nat, a.0[2] as nat, b.0[3] as nat, b.0[2] as nat, m);
    let ha = a.0[3] as nat * m + a.0[2] as nat;
    let hb = b.0[3] as nat * m + b.0[2] as nat;
    lemma_digit_cmp(ha, a.0[1] as nat, hb, b.0[1] as nat, m);
    lemma_digit_cmp(ha * m + a.0[1] as nat, a.0[0] as nat, hb * m + b.0[1] as nat, b.0[0] as nat, m);
}

/// Four words span `256^32` values.
proof fn lemma_pow256_words()
    ensures
        pow256(8) == word_base(),
        pow256(32) == word_base() * word_base() * word_base() * word_base(),
        ((((word_base() - 1) * word_base() + (word_base() - 1)) * word_base() + (word_base() - 1))
            * word_base() + (word_base() - 1)) == pow256(32) - 1,
{
    reveal_with_fuel(pow256, 33);
}

} // verus!
