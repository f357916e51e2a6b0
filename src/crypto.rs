//! Opaque cryptographic values, held as their fixed-size bytes. Signing and
//! verifying are left to the caller.
use vstd::prelude::*;
use crate::canonical::{cbor_byte_array, push_byte_array, Canonical};

verus! {

/// A compressed public key.
#[derive(Clone, Copy, Debug, PartialEq, Eq)]
pub struct PublicKey(pub [u8; 33]);

/// A signature, as its two 32-byte scalars.
#[derive(Clone, Copy, Debug, PartialEq, Eq)]
pub struct Signature(pub [u8; 64]);

impl Canonical for PublicKey {
    open spec fn canonical(&self) -> Seq<u8> {
        cbor_byte_array(self.0@)
    }

    fn encode(&self, out: &mut Vec<u8>) {
        push_byte_array(self.0.as_slice(), out);
    }
}

impl Canonical for Signature {
    open spec fn canonical(&self) -> Seq<u8> {
        cbor_byte_array(self.0@)
    }

    fn encode(&self, out: &mut Vec<u8>) {
        push_byte_array(self.0.as_slice(), out);
    }
}

} // verus!
