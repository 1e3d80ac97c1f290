use vstd::bytes::{spec_u32_from_le_bytes, spec_u32_to_le_bytes, spec_u64_from_le_bytes, spec_u64_to_le_bytes};
use vstd::prelude::*;
use vstd::utf8::{decode_utf8, encode_utf8, valid_utf8};

verus! {

/// bincode's error, carried through unread until its message is taken.
#[verifier::external_type_specification]
#[verifier::external_body]
pub struct ExBincodeErrorKind(bincode::ErrorKind);

/// The bytes of a length-prefixed text: a `u64` length in little-endian order,
/// then the UTF-8 encoding of the characters.
pub open spec fn text_bytes(s: Seq<char>) -> Seq<u8> {
    spec_u64_to_le_bytes(encode_utf8(s).len() as u64) + encode_utf8(s)
}

/// The length that a length-prefixed text announces.
pub open spec fn announced_len(b: Seq<u8>) -> int {
    spec_u64_from_le_bytes(b.subrange(0, 8)) as int
}

/// Whether `b` starts with a complete length-prefixed text in valid UTF-8.
pub open spec fn holds_text(b: Seq<u8>) -> bool {
    &&& b.len() >= 8
    &&& 8 + announced_len(b) <= b.len()
    &&& valid_utf8(b.subrange(8, 8 + announced_len(b)))
}

/// The characters of the length-prefixed text at the start of `b`.
pub open spec fn text_of(b: Seq<u8>) -> Seq<char> {
    decode_utf8(b.subrange(8, 8 + announced_len(b)))
}

/// Relies on bincode::serialize of a `u32`: the default options write integers
/// at fixed width in little-endian order, and writing into a `Vec` cannot fail.
#[verifier::external_body]
pub(crate) fn encode_u32(v: u32) -> (r: Result<Vec<u8>, bincode::Error>)
    ensures
        r is Ok,
        r matches Ok(b) ==> b@ == spec_u32_to_le_bytes(v),
{
    bincode::serialize(&v)
}

/// Relies on bincode::serialize of a `str`: the byte length as a fixed-width
/// little-endian `u64`, then the bytes, written into a `Vec`, which cannot fail.
#[verifier::external_body]
pub(crate) fn encode_text(s: &str) -> (r: Result<Vec<u8>, bincode::Error>)
    ensures
        r is Ok,
        r matches Ok(b) ==> b@ == text_bytes(s@),
{
    bincode::serialize(s)
}

/// Relies on bincode::deserialize of a `u32` from a slice: it reads the first
/// four bytes in little-endian order, ignores what follows, and fails only when
/// fewer than four bytes are there.
#[verifier::external_body]
pub(crate) fn decode_u32(b: &[u8]) -> (r: Result<u32, bincode::Error>)
    ensures
        r is Ok <==> b@.len() >= 4,
        r matches Ok(v) ==> v == spec_u32_from_le_bytes(b@.subrange(0, 4)),
{
    bincode::deserialize::<u32>(b)
}

/// Relies on bincode::deserialize of a `String` from a slice: a fixed-width
/// little-endian `u64` length, then that many bytes, which must be valid UTF-8;
/// what follows is ignored.
#[verifier::external_body]
pub(crate) fn decode_text(b: &[u8]) -> (r: Result<String, bincode::Error>)
    ensures
        r is Ok <==> holds_text(b@),
        r matches Ok(s) ==> s@ == text_of(b@),
{
    bincode::deserialize::<String>(b)
}

/// Relies on the `Display` text of bincode's error, kept as a message.
#[verifier::external_body]
pub(crate) fn codec_error_text(e: &bincode::ErrorKind) -> (r: String)
{
    e.to_string()
}

} // verus!
