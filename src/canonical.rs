//! The canonical encoding: a deterministic, self-describing binary form (a subset
//! of CBOR) in which every hashed value is written.
//!
//! Each item starts with a head: the major type in the top three bits and the
//! length or number in the low five bits, followed by 1, 2, 4 or 8 big-endian bytes
//! when it does not fit there. Numbers are written in the shortest such form.
//! Structures are maps whose keys are the field names, in declaration order;
//! fixed byte arrays are arrays of numbers; sequences are arrays. Every value of
//! the data model has an encoding, so encoding never fails.
use vstd::prelude::*;
use vstd::utf8::encode_utf8;
use crate::uint256::{be_fixed, push_be, U256};

verus! {

/// Major type of an unsigned number.
pub const MAJOR_UINT: u8 = 0;

/// Major type of a byte string.
pub const MAJOR_BYTES: u8 = 2;

/// Major type of a UTF-8 text string.
pub const MAJOR_TEXT: u8 = 3;

/// Major type of an array.
pub const MAJOR_ARRAY: u8 = 4;

/// Major type of a map.
pub const MAJOR_MAP: u8 = 5;

/// The head of an item of the given major type with the given length or number.
pub open spec fn cbor_head(major: u8, n: u64) -> Seq<u8> {
    let m = major as int * 32;
    if n < 24 {
        seq![(m + n) as u8]
    } else if n < 0x100 {
        seq![(m + 24) as u8] + be_fixed(n as nat, 1)
    } else if n < 0x1_0000 {
        seq![(m + 25) as u8] + be_fixed(n as nat, 2)
    } else if n < 0x1_0000_0000 {
        seq![(m + 26) as u8] + be_fixed(n as nat, 4)
    } else {
        seq![(m + 27) as u8] + be_fixed(n as nat, 8)
    }
}

/// An unsigned number.
pub open spec fn cbor_uint(n: u64) -> Seq<u8> {
    cbor_head(MAJOR_UINT, n)
}

/// A byte string.
pub open spec fn cbor_bytes(b: Seq<u8>) -> Seq<u8> {
    cbor_head(MAJOR_BYTES, b.len() as u64) + b
}

/// A text string: its UTF-8 bytes.
pub open spec fn cbor_text(s: Seq<char>) -> Seq<u8> {
    cbor_head(MAJOR_TEXT, encode_utf8(s).len() as u64) + encode_utf8(s)
}

/// The numbers of a byte sequence, one item each, with no head.
pub open spec fn uint_items(b: Seq<u8>) -> Seq<u8>
    decreases b.len(),
{
    if b.len() == 0 {
        Seq::empty()
    } else {
        uint_items(b.drop_last()) + cbor_uint(b.last() as u64)
    }
}

/// A fixed byte array: an array of numbers.
pub open spec fn cbor_byte_array(b: Seq<u8>) -> Seq<u8> {
    cbor_head(MAJOR_ARRAY, b.len() as u64) + uint_items(b)
}

/// A value that has a canonical encoding.
pub trait Canonical {
    /// The canonical bytes of the value.
    spec fn canonical(&self) -> Seq<u8>;

    /// Appends the canonical bytes of the value.
    fn encode(&self, out: &mut Vec<u8>)
        ensures
            final(out)@ == old(out)@ + self.canonical(),
    ;
}

/// The encodings of a sequence of values, one after the other, with no head.
pub open spec fn items<T: Canonical>(s: Seq<T>) -> Seq<u8>
    decreases s.len(),
{
    if s.len() == 0 {
        Seq::empty()
    } else {
        items(s.drop_last()) + s.last().canonical()
    }
}

/// A sequence of values: an array.
pub open spec fn cbor_array<T: Canonical>(s: Seq<T>) -> Seq<u8> {
    cbor_head(MAJOR_ARRAY, s.len() as u64) + items(s)
}

/// Appends the head of an item.
pub fn push_head(major: u8, n: u64, out: &mut Vec<u8>)
    requires
        major < 8,
    ensures
        final(out)@ == old(out)@ + cbor_head(major, n),
{
    let m: u8 = major * 32;
    let ghost start = out@;
    if n < 24 {
        out.push(m + n as u8);
    } else if n < 0x100 {
        out.push(m + 24);
        push_be(n, 1, out);
    } else if n < 0x1_0000 {
        out.push(m + 25);
        push_be(n, 2, out);
    } else if n < 0x1_0000_0000 {
        out.push(m + 26);
        push_be(n, 4, out);
    } else {
        out.push(m + 27);
        push_be(n, 8, out);
    }
    assert(out@ =~= start + cbor_head(major, n));
}

/// Appends an unsigned number.
pub fn push_uint(n: u64, out: &mut Vec<u8>)
    ensures
        final(out)@ == old(out)@ + cbor_uint(n),
{
    push_head(MAJOR_UINT, n, out);
}

/// Appends raw bytes.
fn push_raw(b: &[u8], out: &mut Vec<u8>)
    ensures
        final(out)@ == old(out)@ + b@,
{
    let ghost start = out@;
    let mut i: usize = 0;
    while i < b.len()
        invariant
            i <= b@.len(),
            out@ == start + b@.subrange(0, i as int),
            start == old(out)@,
        decreases b@.len() - i,
    {
        out.push(b[i]);
        i = i + 1;
        assert(out@ =~= start + b@.subrange(0, i as int));
    }
    assert(b@.subrange(0, b@.len() as int) =~= b@);
}

/// Appends a byte string.
pub fn push_bytes(b: &[u8], out: &mut Vec<u8>)
    ensures
        final(out)@ == old(out)@ + cbor_bytes(b@),
{
    push_head(MAJOR_BYTES, b.len() as u64, out);
    push_raw(b, out);
    assert(final(out)@ =~= old(out)@ + cbor_bytes(b@));
}

/// Appends a text string.
pub fn push_text(s: &str, out: &mut Vec<u8>)
    ensures
        final(out)@ == old(out)@ + cbor_text(s@),
{
    let b = s.as_bytes();
    push_head(MAJOR_TEXT, b.len() as u64, out);
    push_raw(b, out);
    assert(final(out)@ =~= old(out)@ + cbor_text(s@));
}

/// Appends a fixed byte array.
pub fn push_byte_array(b: &[u8], out: &mut Vec<u8>)
    ensures
        final(out)@ == old(out)@ + cbor_byte_array(b@),
{
    push_head(MAJOR_ARRAY, b.len() as u64, out);
    let ghost start = out@;
    let mut i: usize = 0;
    while i < b.len()
        invariant
            i <= b@.len(),
            out@ == start + uint_items(b@.subrange(0, i as int)),
        decreases b@.len() - i,
    {
        push_uint(b[i] as u64, out);
        proof {
            assert(b@.subrange(0, i + 1).drop_last() =~= b@.subrange(0, i as int));
        }
        i = i + 1;
        assert(out@ =~= start + uint_items(b@.subrange(0, i as int)));
    }
    assert(b@.subrange(0, b@.len() as int) =~= b@);
    assert(final(out)@ =~= old(out)@ + cbor_byte_array(b@));
}

/// Appends a sequence of values as an array.
pub fn push_array<T: Canonical>(s: &Vec<T>, out: &mut Vec<u8>)
    ensures
        final(out)@ == old(out)@ + cbor_array(s@),
{
    push_head(MAJOR_ARRAY, s.len() as u64, out);
    let ghost start = out@;
    let mut i: usize = 0;
    while i < s.len()
        invariant
            i <= s@.len(),
            out@ == start + items(s@.subrange(0, i as int)),
        decreases s@.len() - i,
    {
        s[i].encode(out);
        proof {
            assert(s@.subrange(0, i + 1).drop_last() =~= s@.subrange(0, i as int));
        }
        i = i + 1;
        assert(out@ =~= start + items(s@.subrange(0, i as int)));
    }
    assert(s@.subrange(0, s@.len() as int) =~= s@);
    assert(final(out)@ =~= old(out)@ + cbor_array(s@));
}

impl Canonical for U256 {
    /// A 256-bit integer is written as the byte string of its 32 big-endian bytes.
    open spec fn canonical(&self) -> Seq<u8> {
        cbor_bytes(be_fixed(self.value(), 32))
    }

    fn encode(&self, out: &mut Vec<u8>) {
        let b = self.to_big_endian();
        push_bytes(b.as_slice(), out);
    }
}

} // verus!
