//! The binary frames of the process transport.
//!
//! Every value crosses a pipe in bincode's default layout: integers are
//! fixed-width little-endian, a string is its byte length as a `u64` followed
//! by its UTF-8 bytes, and a unit enum variant is its index as a `u32`.

use vstd::bytes::*;
use vstd::prelude::*;
use vstd::utf8::*;

verus! {

broadcast use vstd::utf8::encode_utf8_valid_utf8, vstd::utf8::encode_utf8_decode_utf8;

/// The frame of a `u32`: its four little-endian bytes.
pub open spec fn u32_frame(v: u32) -> Seq<u8> {
    spec_u32_to_le_bytes(v)
}

/// The frame of a string: its UTF-8 length as eight little-endian bytes,
/// then its UTF-8 bytes.
pub open spec fn str_frame(s: Seq<char>) -> Seq<u8> {
    spec_u64_to_le_bytes(encode_utf8(s).len() as u64) + encode_utf8(s)
}

/// The `u32` at the front of `b`, if `b` holds four bytes.
pub open spec fn parse_u32(b: Seq<u8>) -> Option<u32> {
    if b.len() >= 4 {
        Some(spec_u32_from_le_bytes(b.subrange(0, 4)))
    } else {
        None
    }
}

/// The length that the first eight bytes of a string frame announce.
pub open spec fn announced_len(b: Seq<u8>) -> int {
    spec_u64_from_le_bytes(b.subrange(0, 8)) as int
}

/// The string at the front of `b`: the announced number of bytes must follow
/// the length prefix and be valid UTF-8. Bytes after the frame are ignored.
pub open spec fn parse_str(b: Seq<u8>) -> Option<Seq<char>> {
    if b.len() >= 8 && announced_len(b) <= usize::MAX && 8 + announced_len(b) <= b.len()
        && valid_utf8(b.subrange(8, 8 + announced_len(b))) {
        Some(decode_utf8(b.subrange(8, 8 + announced_len(b))))
    } else {
        None
    }
}

/// Relies on `bincode::serialize` at `u32`: under the default options
/// (fixed-width integers, little-endian, no size limit) it always succeeds
/// and writes the four little-endian bytes of the value.
#[verifier::external_body]
fn serialize_u32(v: u32) -> (r: Result<Vec<u8>, bincode::Error>)
    ensures
        r is Ok,
        r matches Ok(b) ==> b@ == u32_frame(v),
{
    bincode::serialize(&v)
}

/// Relies on `bincode::serialize` at `str`: under the default options it
/// always succeeds and writes the byte length as a `u64`, then the bytes.
#[verifier::external_body]
fn serialize_str(s: &str) -> (r: Result<Vec<u8>, bincode::Error>)
    ensures
        r is Ok,
        r matches Ok(b) ==> b@ == str_frame(s@),
{
    bincode::serialize(s)
}

/// Relies on `bincode::deserialize` at `u32`: it reads four little-endian
/// bytes, fails when fewer are there, and allows trailing bytes.
#[verifier::external_body]
fn deserialize_u32(b: &[u8]) -> (r: Result<u32, bincode::Error>)
    ensures
        r is Ok <==> parse_u32(b@) is Some,
        r matches Ok(v) ==> parse_u32(b@) == Some(v),
{
    bincode::deserialize(b)
}

/// Relies on `bincode::deserialize` at `String`: it reads a `u64` length,
/// fails when that does not fit a `usize` or that many bytes are not there
/// or they are not UTF-8, and allows trailing bytes.
#[verifier::external_body]
fn deserialize_string(b: &[u8]) -> (r: Result<String, bincode::Error>)
    ensures
        r is Ok <==> parse_str(b@) is Some,
        r matches Ok(s) ==> parse_str(b@) == Some(s@),
{
    bincode::deserialize(b)
}

/// Encodes a `u32` as its frame.
pub fn encode_u32(v: u32) -> (r: Vec<u8>)
    ensures
        r@ == u32_frame(v),
{
    match serialize_u32(v) {
        Ok(b) => b,
        Err(_) => Vec::new(),
    }
}

/// Decodes the `u32` at the front of `bytes`.
pub fn decode_u32(bytes: &[u8]) -> (r: Option<u32>)
    ensures
        r == parse_u32(bytes@),
{
    match deserialize_u32(bytes) {
        Ok(v) => Some(v),
        Err(_) => None,
    }
}

/// Encodes a string as its frame.
pub fn encode_str(s: &str) -> (r: Vec<u8>)
    ensures
        r@ == str_frame(s@),
{
    match serialize_str(s) {
        Ok(b) => b,
        Err(_) => Vec::new(),
    }
}

/// Decodes the string at the front of `bytes`.
pub fn decode_str(bytes: &[u8]) -> (r: Option<String>)
    ensures
        r is Some <==> parse_str(bytes@) is Some,
        r matches Some(s) ==> parse_str(bytes@) == Some(s@),
{
    match deserialize_string(bytes) {
        Ok(s) => Some(s),
        Err(_) => None,
    }
}

/// A `u32` frame decodes to the value it encodes, whatever follows it.
pub proof fn lemma_u32_round_trip(v: u32, rest: Seq<u8>)
    ensures
        parse_u32(u32_frame(v) + rest) == Some(v),
{
    lemma_auto_spec_u32_to_from_le_bytes();
    assert((u32_frame(v) + rest).subrange(0, 4) =~= u32_frame(v));
}

/// A string frame decodes to the string it encodes, whatever follows it.
pub proof fn lemma_str_round_trip(s: Seq<char>, rest: Seq<u8>)
    requires
        encode_utf8(s).len() <= usize::MAX,
    ensures
        parse_str(str_frame(s) + rest) == Some(s),
{
    lemma_auto_spec_u64_to_from_le_bytes();
    let enc = encode_utf8(s);
    let n = enc.len() as u64;
    let b = str_frame(s) + rest;
    assert(b.subrange(0, 8) =~= spec_u64_to_le_bytes(n));
    assert(announced_len(b) == enc.len());
    assert(b.subrange(8, 8 + announced_len(b)) =~= enc);
}

} // verus!
