//! The byte encoding of socket option values, as `zmq_setsockopt` takes them and
//! `zmq_getsockopt` hands them back.
//!
//! Integer options are stored in the machine's byte order, which is little-endian on every
//! target this library supports. Boolean options are `int` options holding 0 or 1. String
//! options are written as their UTF-8 bytes and read back with a terminating NUL byte.
use vstd::bytes::*;
use vstd::prelude::*;
use vstd::utf8::*;

use crate::error::{ZmqError, ZmqResult};

verus! {

broadcast use {vstd::utf8::encode_utf8_valid_utf8, vstd::utf8::encode_utf8_decode_utf8};

/// The bytes of an `i32` option value.
pub open spec fn i32_bytes(v: i32) -> Seq<u8> {
    spec_u32_to_le_bytes(v as u32)
}

/// The `i32` option value that four bytes hold.
pub open spec fn i32_of(bytes: Seq<u8>) -> i32 {
    spec_u32_from_le_bytes(bytes) as i32
}

/// The bytes of an `i64` option value.
pub open spec fn i64_bytes(v: i64) -> Seq<u8> {
    spec_u64_to_le_bytes(v as u64)
}

/// The `i64` option value that eight bytes hold.
pub open spec fn i64_of(bytes: Seq<u8>) -> i64 {
    spec_u64_from_le_bytes(bytes) as i64
}

/// The bytes of a `u64` option value.
pub open spec fn u64_bytes(v: u64) -> Seq<u8> {
    spec_u64_to_le_bytes(v)
}

/// The `u64` option value that eight bytes hold.
pub open spec fn u64_of(bytes: Seq<u8>) -> u64 {
    spec_u64_from_le_bytes(bytes)
}

/// The bytes of a boolean option value: the `int` 1 or 0.
pub open spec fn bool_bytes(v: bool) -> Seq<u8> {
    i32_bytes(if v { 1i32 } else { 0i32 })
}

/// The bytes of a string option value: its UTF-8 encoding.
pub open spec fn str_bytes(v: Seq<char>) -> Seq<u8> {
    encode_utf8(v)
}

/// A string value as read back: the bytes without their terminating NUL, if they end in one.
pub open spec fn strip_nul(bytes: Seq<u8>) -> Seq<u8> {
    if bytes.len() > 0 && bytes.last() == 0u8 {
        bytes.drop_last()
    } else {
        bytes
    }
}

/// Decoding of an integer value: it must have exactly the integer's width.
pub open spec fn decoded_i32(bytes: Seq<u8>) -> ZmqResult<i32> {
    if bytes.len() == 4 {
        Ok(i32_of(bytes))
    } else {
        Err(ZmqError::InvalidArgument)
    }
}

/// Decoding of an `i64` value.
pub open spec fn decoded_i64(bytes: Seq<u8>) -> ZmqResult<i64> {
    if bytes.len() == 8 {
        Ok(i64_of(bytes))
    } else {
        Err(ZmqError::InvalidArgument)
    }
}

/// Decoding of a `u64` value.
pub open spec fn decoded_u64(bytes: Seq<u8>) -> ZmqResult<u64> {
    if bytes.len() == 8 {
        Ok(u64_of(bytes))
    } else {
        Err(ZmqError::InvalidArgument)
    }
}

/// Decoding of a boolean value: any non-zero `int` is `true`.
pub open spec fn decoded_bool(bytes: Seq<u8>) -> ZmqResult<bool> {
    match decoded_i32(bytes) {
        Ok(v) => Ok(v != 0),
        Err(e) => Err(e),
    }
}

/// Decoding of a string value: the bytes before the terminating NUL must be UTF-8.
pub open spec fn decoded_string(bytes: Seq<u8>) -> ZmqResult<Seq<char>> {
    if valid_utf8(strip_nul(bytes)) {
        Ok(decode_utf8(strip_nul(bytes)))
    } else {
        Err(ZmqError::InvalidArgument)
    }
}

/// `String::from_utf8`: the contract claims a string exactly where the bytes are valid
/// UTF-8, and that the string is the text they encode.
#[verifier::external_body]
pub(crate) fn string_from_utf8(bytes: Vec<u8>) -> (r: Option<String>)
    ensures
        r is Some <==> valid_utf8(bytes@),
        r matches Some(s) ==> s@ == decode_utf8(bytes@),
{
    String::from_utf8(bytes).ok()
}

/// The bytes of an `i32` option value.
pub fn encode_i32(v: i32) -> (r: Vec<u8>)
    ensures
        r@ == i32_bytes(v),
{
    u32_to_le_bytes(v as u32)
}

/// The bytes of an `i64` option value.
pub fn encode_i64(v: i64) -> (r: Vec<u8>)
    ensures
        r@ == i64_bytes(v),
{
    u64_to_le_bytes(v as u64)
}

/// The bytes of a `u64` option value.
pub fn encode_u64(v: u64) -> (r: Vec<u8>)
    ensures
        r@ == u64_bytes(v),
{
    u64_to_le_bytes(v)
}

/// The bytes of a boolean option value.
pub fn encode_bool(v: bool) -> (r: Vec<u8>)
    ensures
        r@ == bool_bytes(v),
{
    encode_i32(if v { 1 } else { 0 })
}

/// The bytes of a string option value.
pub fn encode_str(v: &str) -> (r: Vec<u8>)
    ensures
        r@ == str_bytes(v@),
{
    vstd::slice::slice_to_vec(v.as_bytes())
}

/// Reads an `i32` option value.
pub fn decode_i32(bytes: &[u8]) -> (r: ZmqResult<i32>)
    ensures
        r == decoded_i32(bytes@),
{
    if bytes.len() == 4 {
        Ok(u32_from_le_bytes(bytes) as i32)
    } else {
        Err(ZmqError::InvalidArgument)
    }
}

/// Reads an `i64` option value.
pub fn decode_i64(bytes: &[u8]) -> (r: ZmqResult<i64>)
    ensures
        r == decoded_i64(bytes@),
{
    if bytes.len() == 8 {
        Ok(u64_from_le_bytes(bytes) as i64)
    } else {
        Err(ZmqError::InvalidArgument)
    }
}

/// Reads a `u64` option value.
pub fn decode_u64(bytes: &[u8]) -> (r: ZmqResult<u64>)
    ensures
        r == decoded_u64(bytes@),
{
    if bytes.len() == 8 {
        Ok(u64_from_le_bytes(bytes))
    } else {
        Err(ZmqError::InvalidArgument)
    }
}

/// Reads a boolean option value.
pub fn decode_bool(bytes: &[u8]) -> (r: ZmqResult<bool>)
    ensures
        r == decoded_bool(bytes@),
{
    match decode_i32(bytes) {
        Ok(v) => Ok(v != 0),
        Err(e) => Err(e),
    }
}

/// Reads a string option value.
pub fn decode_string(bytes: &[u8]) -> (r: ZmqResult<String>)
    ensures
        match r {
            Ok(s) => decoded_string(bytes@) == Ok::<Seq<char>, ZmqError>(s@),
            Err(e) => decoded_string(bytes@) == Err::<Seq<char>, ZmqError>(e),
        },
{
    let n = bytes.len();
    let end = if n > 0 && bytes[n - 1] == 0 { n - 1 } else { n };
    let content = vstd::slice::slice_to_vec(vstd::slice::slice_subrange(bytes, 0, end));
    proof {
        assert(content@ =~= strip_nul(bytes@));
    }
    match string_from_utf8(content) {
        Some(s) => Ok(s),
        None => Err(ZmqError::InvalidArgument),
    }
}

/// Reading back the bytes of an `i32` value gives the value.
pub proof fn lemma_i32_round_trip(v: i32)
    ensures
        decoded_i32(i32_bytes(v)) == Ok::<i32, ZmqError>(v),
{
    lemma_auto_spec_u32_to_from_le_bytes();
    assert((v as u32) as i32 == v) by (bit_vector);
}

/// Reading back the bytes of an `i64` value gives the value.
pub proof fn lemma_i64_round_trip(v: i64)
    ensures
        decoded_i64(i64_bytes(v)) == Ok::<i64, ZmqError>(v),
{
    lemma_auto_spec_u64_to_from_le_bytes();
    assert((v as u64) as i64 == v) by (bit_vector);
}

/// Reading back the bytes of a `u64` value gives the value.
pub proof fn lemma_u64_round_trip(v: u64)
    ensures
        decoded_u64(u64_bytes(v)) == Ok::<u64, ZmqError>(v),
{
    lemma_auto_spec_u64_to_from_le_bytes();
}

/// Reading back the bytes of a boolean value gives the value.
pub proof fn lemma_bool_round_trip(v: bool)
    ensures
        decoded_bool(bool_bytes(v)) == Ok::<bool, ZmqError>(v),
{
    lemma_i32_round_trip(if v { 1i32 } else { 0i32 });
}

/// Reading back the bytes of a string value, with the terminating NUL that 0MQ appends,
/// gives the string.
pub proof fn lemma_string_round_trip(v: Seq<char>)
    ensures
        decoded_string(str_bytes(v).push(0u8)) == Ok::<Seq<char>, ZmqError>(v),
{
    assert(strip_nul(str_bytes(v).push(0u8)) =~= str_bytes(v));
}

/// The UTF-8 encoding of two strings one after the other is the encoding of the first followed
/// by the encoding of the second.
pub proof fn lemma_encode_utf8_concat(a: Seq<char>, b: Seq<char>)
    ensures
        encode_utf8(a + b) == encode_utf8(a) + encode_utf8(b),
    decreases a.len(),
{
    if a.len() == 0 {
        assert(a + b =~= b);
        assert(encode_utf8(a) + encode_utf8(b) =~= encode_utf8(b));
    } else {
        lemma_encode_utf8_concat(a.drop_first(), b);
        assert((a + b).drop_first() =~= a.drop_first() + b);
        assert((a + b)[0] == a[0]);
        assert(encode_utf8(a + b) =~= encode_utf8(a) + encode_utf8(b));
    }
}

} // verus!
