//! The value that a point read returns.

use vstd::prelude::*;
use vstd::utf8::*;
use crate::error::text_of;

verus! {

/// The bytes of a stored value, owned by the caller.
#[derive(Debug)]
pub struct DBVector {
    bytes: Vec<u8>,
}

impl View for DBVector {
    type V = Seq<u8>;

    closed spec fn view(&self) -> Seq<u8> {
        self.bytes@
    }
}

impl DBVector {
    /// Takes over the bytes that the engine returned for a key.
    pub fn from_c(val: Vec<u8>) -> (r: DBVector)
        ensures
            r@ == val@,
    {
        DBVector { bytes: val }
    }

    /// The value as a byte slice.
    pub fn as_bytes(&self) -> (r: &[u8])
        ensures
            r@ == self@,
    {
        self.bytes.as_slice()
    }

    /// The number of bytes in the value.
    pub fn len(&self) -> (r: usize)
        ensures
            r == self@.len(),
    {
        self.bytes.len()
    }

    /// The value as text, if its bytes are well-formed UTF-8.
    pub fn to_utf8(&self) -> (r: Option<&str>)
        ensures
            r.is_some() <==> valid_utf8(self@),
            r matches Some(s) ==> s@ == decode_utf8(self@),
    {
        text_of(self.bytes.as_slice())
    }
}

} // verus!
