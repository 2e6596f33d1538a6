//! Text and byte-string fields of messages.

use vstd::prelude::*;
use vstd::utf8::{decode_utf8, encode_utf8, valid_utf8};

verus! {

broadcast use vstd::utf8::group_utf8_lib;

/// `core::str::from_utf8`: the bytes as a string slice when they are valid
/// UTF-8, and then the slice's bytes are the bytes given; nothing
/// otherwise.
#[verifier::external_body]
fn utf8_slice(bytes: &[u8]) -> (r: Option<&str>)
    ensures
        r is Some <==> valid_utf8(bytes@),
        r is Some ==> encode_utf8(r.unwrap()@) == bytes@,
{
    match core::str::from_utf8(bytes) {
        Ok(text) => Some(text),
        Err(_) => None,
    }
}

/// Decodes a text field: the string that the bytes encode, when they are
/// valid UTF-8.
pub fn parse_text(bytes: &[u8]) -> (r: Option<String>)
    ensures
        r is Some <==> valid_utf8(bytes@),
        r is Some ==> r.unwrap()@ == decode_utf8(bytes@),
{
    match utf8_slice(bytes) {
        Some(text) => Some(text.to_owned()),
        None => None,
    }
}

/// An owned copy of `data[from..]`.
pub fn tail_bytes(data: &[u8], from: usize) -> (r: Vec<u8>)
    requires
        from <= data@.len(),
    ensures
        r@ == data@.subrange(from as int, data@.len() as int),
{
    let mut r: Vec<u8> = Vec::new();
    r.extend_from_slice(&data[from..data.len()]);
    r
}

/// An owned copy of a byte slice.
pub fn copy_bytes(data: &[u8]) -> (r: Vec<u8>)
    ensures
        r@ == data@,
{
    let mut r: Vec<u8> = Vec::new();
    r.extend_from_slice(data);
    r
}

} // verus!
