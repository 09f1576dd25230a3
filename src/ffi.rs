//! Values handed across the dynamic-library boundary.

use crate::codec::{decode_str, encode_str, parse_str, str_frame};
use vstd::prelude::*;

verus! {

/// A borrowed string handed to a dynamic-library script: the name of the
/// hook being called. It does not own its text.
#[derive(Debug)]
pub struct FFiStr {
    text: &'static str,
}

impl View for FFiStr {
    type V = Seq<char>;

    closed spec fn view(&self) -> Seq<char> {
        self.text@
    }
}

impl FFiStr {
    /// Borrows `string`, which outlives every use of the result.
    pub fn new(string: &'static str) -> (r: Self)
        ensures
            r@ == string@,
    {
        FFiStr { text: string }
    }

    /// The borrowed text.
    pub fn as_str(&self) -> (r: &'static str)
        ensures
            r@ == self@,
    {
        self.text
    }
}

/// Relies on `Vec::capacity`: std documents that a vector's capacity is
/// never less than its length.
#[verifier::external_body]
fn vec_capacity(v: &Vec<u8>) -> (r: usize)
    ensures
        r >= v@.len(),
{
    v.capacity()
}

/// A byte buffer handed across the dynamic-library boundary: a hook's input
/// on the way in, its output on the way back, or a script's metadata. It
/// owns its bytes; whoever holds it frees them, once.
#[derive(Debug)]
pub struct FFiData {
    bytes: Vec<u8>,
}

impl View for FFiData {
    type V = Seq<u8>;

    closed spec fn view(&self) -> Seq<u8> {
        self.bytes@
    }
}

impl FFiData {
    /// Takes ownership of encoded bytes.
    pub fn from_bytes(bytes: Vec<u8>) -> (r: Self)
        ensures
            r@ == bytes@,
    {
        FFiData { bytes }
    }

    /// Encodes a string into a new buffer.
    pub fn serialize_str(s: &str) -> (r: Self)
        ensures
            r@ == str_frame(s@),
    {
        FFiData { bytes: encode_str(s) }
    }

    /// Decodes the string at the front of the buffer.
    pub fn deserialize_str(&self) -> (r: Option<String>)
        ensures
            r is Some <==> parse_str(self@) is Some,
            r matches Some(s) ==> parse_str(self@) == Some(s@),
    {
        decode_str(self.bytes.as_slice())
    }

    /// The bytes.
    pub fn as_bytes(&self) -> (r: &[u8])
        ensures
            r@ == self@,
    {
        self.bytes.as_slice()
    }

    /// Gives the bytes back, to free them or hand them on.
    pub fn into_bytes(self) -> (r: Vec<u8>)
        ensures
            r@ == self@,
    {
        self.bytes
    }

    /// The number of bytes in use.
    pub fn len(&self) -> (r: usize)
        ensures
            r == self@.len(),
    {
        self.bytes.len()
    }

    /// The number of bytes allocated, never less than the length.
    pub fn capacity(&self) -> (r: usize)
        ensures
            r >= self@.len(),
    {
        vec_capacity(&self.bytes)
    }
}

} // verus!
