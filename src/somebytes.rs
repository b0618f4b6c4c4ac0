//! Wrappers for byte sequences, and appending a slice to a buffer that may be full.
use vstd::prelude::*;

verus! {

/// Up to three bytes, held in a fixed-capacity buffer: a length field or a tag.
#[verifier::external_body]
#[derive(Debug, PartialEq, Eq)]
pub struct ShortBytes {
    bytes: heapless::Vec<u8, 3>,
}

/// The bytes a [`ShortBytes`] holds.
pub uninterp spec fn short_bytes(b: ShortBytes) -> Seq<u8>;

/// Relies on `heapless::Vec::from_slice`: a slice no longer than the capacity
/// is copied whole.
#[verifier::external_body]
fn short_bytes_from(s: &[u8]) -> (r: ShortBytes)
    requires
        s@.len() <= 3,
    ensures
        short_bytes(r) == s@,
{
    ShortBytes { bytes: heapless::Vec::from_slice(s).unwrap() }
}

/// Relies on `heapless::Vec::as_slice`: the bytes held, in order.
#[verifier::external_body]
fn short_bytes_slice(b: &ShortBytes) -> (r: &[u8])
    ensures
        r@ == short_bytes(*b),
{
    b.bytes.as_slice()
}

impl ShortBytes {
    /// Copies at most three bytes.
    pub fn from_slice(s: &[u8]) -> (r: Self)
        requires
            s@.len() <= 3,
        ensures
            short_bytes(r) == s@,
    {
        short_bytes_from(s)
    }

    pub fn as_slice(&self) -> (r: &[u8])
        ensures
            r@ == short_bytes(*self),
    {
        short_bytes_slice(self)
    }

    pub fn len(&self) -> (r: usize)
        ensures
            r == short_bytes(*self).len(),
    {
        short_bytes_slice(self).len()
    }
}

/// Appends a slice, or fails when there is no room.
pub trait TryExtendFromSlice<T> {
    type Error;

    fn extend_from_slice(&mut self, slice: &[T]) -> Result<(), Self::Error>;
}

/// A wrapper for a byte sequence.
#[derive(Clone)]
pub struct Bytes<T>(T);

impl<T> Bytes<T> {
    pub closed spec fn inner(&self) -> T {
        self.0
    }

    pub fn into_bytes(self) -> (r: T)
        ensures
            r == self.inner(),
    {
        self.0
    }
}

impl<T> From<T> for Bytes<T> {
    fn from(bytes: T) -> (r: Self)
        ensures
            r.inner() == bytes,
    {
        Self(bytes)
    }
}

impl<T> vstd::std_specs::convert::FromSpecImpl<T> for Bytes<T> {
    open spec fn obeys_from_spec() -> bool {
        false
    }

    closed spec fn from_spec(v: T) -> Bytes<T> {
        Bytes(v)
    }
}

} // verus!
