//! Instants in UTC.
use vstd::prelude::*;
use crate::canonical::{cbor_text, push_text, Canonical};

verus! {

/// The RFC 3339 text of an instant given in seconds and nanoseconds since the Unix
/// epoch: whole seconds when the fraction is zero, else as many digits as needed
/// in groups of three, ending in `Z`.
pub uninterp spec fn rfc3339_of(secs: i64, nanos: u32) -> Seq<char>;

/// The RFC 3339 text of an instant, if chrono can represent it.
///
/// Relies on `chrono::DateTime::<Utc>::from_timestamp`, which is `None` only for an
/// instant out of its range, and on `DateTime::to_rfc3339_opts` with
/// `SecondsFormat::AutoSi` and `Z`, the form chrono also serialises a `DateTime` in.
#[verifier::external_body]
fn rfc3339_text(secs: i64, nanos: u32) -> (r: Option<String>)
    ensures
        r matches Some(t) ==> t@ == rfc3339_of(secs, nanos),
{
    match chrono::DateTime::<chrono::Utc>::from_timestamp(secs, nanos) {
        Some(d) => Some(d.to_rfc3339_opts(chrono::SecondsFormat::AutoSi, true)),
        None => None,
    }
}

/// An instant in UTC, with its RFC 3339 text.
#[derive(Debug)]
pub struct Timestamp {
    secs: i64,
    nanos: u32,
    text: String,
}

impl Timestamp {
    #[verifier::type_invariant]
    spec fn inv(&self) -> bool {
        self.text@ == rfc3339_of(self.secs, self.nanos)
    }

    /// Seconds since the Unix epoch.
    pub closed spec fn unix_secs(&self) -> i64 {
        self.secs
    }

    /// Nanoseconds past the second.
    pub closed spec fn subsec_nanos(&self) -> u32 {
        self.nanos
    }

    /// The instant `secs` seconds and `nanos` nanoseconds after the Unix epoch, or
    /// `None` where chrono cannot represent it.
    pub fn from_unix(secs: i64, nanos: u32) -> (r: Option<Timestamp>)
        ensures
            r matches Some(t) ==> t.unix_secs() == secs && t.subsec_nanos() == nanos,
    {
        match rfc3339_text(secs, nanos) {
            Some(text) => Some(Timestamp { secs, nanos, text }),
            None => None,
        }
    }

    /// Seconds since the Unix epoch.
    pub fn secs(&self) -> (r: i64)
        ensures
            r == self.unix_secs(),
    {
        self.secs
    }

    /// Nanoseconds past the second.
    pub fn nanos(&self) -> (r: u32)
        ensures
            r == self.subsec_nanos(),
    {
        self.nanos
    }

    /// The RFC 3339 text of the instant.
    pub fn to_rfc3339(&self) -> (r: String)
        ensures
            r@ == rfc3339_of(self.unix_secs(), self.subsec_nanos()),
    {
        proof {
            use_type_invariant(self);
        }
        self.text.clone()
    }
}

impl Clone for Timestamp {
    fn clone(&self) -> (r: Timestamp)
        ensures
            r.unix_secs() == self.unix_secs(),
            r.subsec_nanos() == self.subsec_nanos(),
    {
        proof {
            use_type_invariant(self);
        }
        Timestamp { secs: self.secs, nanos: self.nanos, text: self.text.clone() }
    }
}

impl Canonical for Timestamp {
    /// An instant is written as its RFC 3339 text.
    open spec fn canonical(&self) -> Seq<u8> {
        cbor_text(rfc3339_of(self.unix_secs(), self.subsec_nanos()))
    }

    fn encode(&self, out: &mut Vec<u8>) {
        proof {
            use_type_invariant(self);
        }
        push_text(self.text.as_str(), out);
    }
}

} // verus!
