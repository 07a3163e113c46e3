//! Values read from the engine.

use vstd::prelude::*;
use vstd::string::StringSliceAdditionalSpecFns;
use vstd::utf8::{decode_utf8, valid_utf8};

verus! {

/// `core::str::from_utf8`, with its error dropped: the bytes are accepted
/// exactly when they are well-formed UTF-8, and the string returned is made
/// of those same bytes.
#[verifier::external_body]
fn str_from_utf8(bytes: &[u8]) -> (r: Option<&str>)
    ensures
        r is Some <==> valid_utf8(bytes@),
        r is Some ==> r->Some_0.spec_bytes() == bytes@,
{
    core::str::from_utf8(bytes).ok()
}

/// The bytes stored under a key, as the engine returned them.
#[derive(Debug)]
pub struct DBVector {
    bytes: Vec<u8>,
}

impl View for DBVector {
    type V = Seq<u8>;

    closed spec fn view(&self) -> Seq<u8> {
        self.bytes@
    }
}

impl DBVector {
    /// Takes ownership of a value that the engine returned.
    pub fn from_vec(bytes: Vec<u8>) -> (v: DBVector)
        ensures
            v@ == bytes@,
    {
        DBVector { bytes }
    }

    /// The bytes of the value.
    pub fn as_slice(&self) -> (s: &[u8])
        ensures
            s@ == self@,
    {
        self.bytes.as_slice()
    }

    /// The bytes of the value, by value.
    pub fn into_vec(self) -> (bytes: Vec<u8>)
        ensures
            bytes@ == self@,
    {
        self.bytes
    }

    /// The number of bytes in the value.
    pub fn len(&self) -> (n: usize)
        ensures
            n == self@.len(),
    {
        self.bytes.len()
    }

    /// The value read as text: the string that its bytes encode when they
    /// are well-formed UTF-8, nothing otherwise.
    pub fn to_utf8(&self) -> (r: Option<&str>)
        ensures
            r is Some <==> valid_utf8(self@),
            r is Some ==> r->Some_0@ == decode_utf8(self@) && r->Some_0.spec_bytes() == self@,
    {
        let r = str_from_utf8(self.bytes.as_slice());
        proof {
            if r is Some {
                vstd::utf8::encode_utf8_decode_utf8(r->Some_0@);
            }
        }
        r
    }
}

} // verus!
