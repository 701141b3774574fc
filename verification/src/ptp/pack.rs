//! Binary serialization/deserialization primitives for MTP/PTP.
//!
//! All multi-byte values are little-endian.

use vstd::prelude::*;
use crate::error::{data_error, data_error_count, data_error_counts, is_invalid_data_with, Error};
use crate::text::decimal;
use vstd::slice::slice_subrange;

pub use super::datetime::{pack_datetime, unpack_datetime, DateTime};
pub use super::strings::{pack_string, unpack_string};

verus! {

// --- Little-endian layout of integers ---

/// The value of two little-endian bytes.
pub open spec fn le16(b: Seq<u8>) -> int {
    b[0] + 256 * b[1]
}

/// The value of four little-endian bytes.
pub open spec fn le32(b: Seq<u8>) -> int {
    le16(b) + 65536 * le16(b.subrange(2, 4))
}

/// The value of eight little-endian bytes.
pub open spec fn le64(b: Seq<u8>) -> int {
    le32(b) + 0x1_0000_0000 * le32(b.subrange(4, 8))
}

/// The two little-endian bytes of `v` (taken modulo 2^16).
pub open spec fn bytes16(v: int) -> Seq<u8> {
    seq![(v % 256) as u8, ((v / 256) % 256) as u8]
}

/// The four little-endian bytes of `v` (taken modulo 2^32).
pub open spec fn bytes32(v: int) -> Seq<u8> {
    bytes16(v % 65536) + bytes16((v / 65536) % 65536)
}

/// The eight little-endian bytes of `v` (taken modulo 2^64).
pub open spec fn bytes64(v: int) -> Seq<u8> {
    bytes32(v % 0x1_0000_0000) + bytes32((v / 0x1_0000_0000) % 0x1_0000_0000)
}

/// The unsigned value with the same bits as the signed value `v`, for a
/// width whose number of values is `modulus` (two's complement).
pub open spec fn twos(v: int, modulus: int) -> int {
    if v >= 0 { v } else { v + modulus }
}

/// The signed value whose two's complement bits are the unsigned `u`, for a
/// width whose number of values is `modulus`.
pub open spec fn signed_of(u: int, modulus: int) -> int {
    if u < modulus / 2 { u } else { u - modulus }
}

/// Reading back the two bytes of a 16-bit value gives the value.
pub proof fn lemma_le16_bytes16(v: int)
    requires
        0 <= v < 0x1_0000,
    ensures
        bytes16(v).len() == 2,
        le16(bytes16(v)) == v,
{
}

/// Reading back the four bytes of a 32-bit value gives the value.
pub proof fn lemma_le32_bytes32(v: int)
    requires
        0 <= v < 0x1_0000_0000,
    ensures
        bytes32(v).len() == 4,
        le32(bytes32(v)) == v,
{
    lemma_le16_bytes16(v % 65536);
    lemma_le16_bytes16((v / 65536) % 65536);
    assert(bytes32(v).subrange(2, 4) =~= bytes16((v / 65536) % 65536));
}

/// Reading back the eight bytes of a 64-bit value gives the value.
#[verifier::spinoff_prover]
pub proof fn lemma_le64_bytes64(v: int)
    requires
        0 <= v < 0x1_0000_0000_0000_0000,
    ensures
        bytes64(v).len() == 8,
        le64(bytes64(v)) == v,
{
    lemma_le32_bytes32(v % 0x1_0000_0000);
    lemma_le32_bytes32((v / 0x1_0000_0000) % 0x1_0000_0000);
    assert(bytes64(v).subrange(4, 8) =~= bytes32((v / 0x1_0000_0000) % 0x1_0000_0000));
    assert(bytes64(v).subrange(0, 4) =~= bytes32(v % 0x1_0000_0000));
    assert(bytes64(v).subrange(0, 4).subrange(2, 4) =~= bytes64(v).subrange(2, 4));
    assert(bytes32(v % 0x1_0000_0000).subrange(2, 4) =~= bytes64(v).subrange(2, 4));
}

// --- Primitive packing functions ---

/// Pack a u8 value into a 1-byte array.
pub fn pack_u8(val: u8) -> (r: [u8; 1])
    ensures
        r@ == seq![val],
{
    let r = [val];
    assert(r@ =~= seq![val]);
    r
}

/// Pack a u16 value into a 2-byte array (little-endian).
pub fn pack_u16(val: u16) -> (r: [u8; 2])
    ensures
        r@ == bytes16(val as int),
{
    let r = [(val % 256) as u8, (val / 256) as u8];
    assert(r@ =~= bytes16(val as int));
    r
}

/// Pack a u32 value into a 4-byte array (little-endian).
pub fn pack_u32(val: u32) -> (r: [u8; 4])
    ensures
        r@ == bytes32(val as int),
{
    let lo = val % 65536;
    let hi = val / 65536;
    let r = [(lo % 256) as u8, (lo / 256) as u8, (hi % 256) as u8, (hi / 256) as u8];
    assert(r@ =~= bytes32(val as int));
    r
}

/// Pack a u64 value into an 8-byte array (little-endian).
#[verifier::spinoff_prover]
#[verifier::rlimit(30)]
pub fn pack_u64(val: u64) -> (r: [u8; 8])
    ensures
        r@ == bytes64(val as int),
{
    let lo = pack_u32((val % 0x1_0000_0000) as u32);
    let hi = pack_u32((val / 0x1_0000_0000) as u32);
    let r = [lo[0], lo[1], lo[2], lo[3], hi[0], hi[1], hi[2], hi[3]];
    assert(r@ =~= bytes64(val as int));
    r
}

// --- Primitive unpacking functions ---

/// Unpack a u8 value from a buffer.
pub fn unpack_u8(buf: &[u8]) -> (r: Result<u8, Error>)
    ensures
        r is Ok <==> buf@.len() >= 1,
        r matches Ok(v) ==> v == buf@[0],
        r matches Err(e) ==> is_invalid_data_with(e, "insufficient bytes for u8: need 1, have 0"@),
{
    if buf.is_empty() {
        return Err(data_error("insufficient bytes for u8: need 1, have 0"));
    }
    Ok(buf[0])
}

/// Unpack a u16 value from a buffer (little-endian).
pub fn unpack_u16(buf: &[u8]) -> (r: Result<u16, Error>)
    ensures
        r is Ok <==> buf@.len() >= 2,
        r matches Ok(v) ==> v == le16(buf@),
        r matches Err(e) ==> is_invalid_data_with(e, "insufficient bytes for u16: need 2, have "@ + decimal(buf@.len())),
{
    if buf.len() < 2 {
        return Err(data_error_count("insufficient bytes for u16: need 2, have ", buf.len() as u64));
    }
    Ok(buf[0] as u16 + 256 * (buf[1] as u16))
}

/// Unpack a u32 value from a buffer (little-endian).
pub fn unpack_u32(buf: &[u8]) -> (r: Result<u32, Error>)
    ensures
        r is Ok <==> buf@.len() >= 4,
        r matches Ok(v) ==> v == le32(buf@),
        r matches Err(e) ==> is_invalid_data_with(e, "insufficient bytes for u32: need 4, have "@ + decimal(buf@.len())),
{
    if buf.len() < 4 {
        return Err(data_error_count("insufficient bytes for u32: need 4, have ", buf.len() as u64));
    }
    let lo = buf[0] as u32 + 256 * (buf[1] as u32);
    let hi = buf[2] as u32 + 256 * (buf[3] as u32);
    Ok(lo + 65536 * hi)
}

/// Unpack a u64 value from a buffer (little-endian).
pub fn unpack_u64(buf: &[u8]) -> (r: Result<u64, Error>)
    ensures
        r is Ok <==> buf@.len() >= 8,
        r matches Ok(v) ==> v == le64(buf@),
        r matches Err(e) ==> is_invalid_data_with(e, "insufficient bytes for u64: need 8, have "@ + decimal(buf@.len())),
{
    if buf.len() < 8 {
        return Err(data_error_count("insufficient bytes for u64: need 8, have ", buf.len() as u64));
    }
    let lo = buf[0] as u64 + 256 * (buf[1] as u64) + 65536 * (buf[2] as u64)
        + 16777216 * (buf[3] as u64);
    let hi = buf[4] as u64 + 256 * (buf[5] as u64) + 65536 * (buf[6] as u64)
        + 16777216 * (buf[7] as u64);
    Ok(lo + 0x1_0000_0000 * hi)
}

// --- Signed integers ---

/// Pack a signed 8-bit integer.
pub fn pack_i8(val: i8) -> (r: [u8; 1])
    ensures
        r@ == seq![twos(val as int, 0x100) as u8],
{
    let u: u8 = if val >= 0 { val as u8 } else { (val as i16 + 0x100) as u8 };
    let r = [u];
    assert(r@ =~= seq![twos(val as int, 0x100) as u8]);
    r
}

/// Pack a signed 16-bit integer (little-endian).
pub fn pack_i16(val: i16) -> (r: [u8; 2])
    ensures
        r@ == bytes16(twos(val as int, 0x1_0000)),
{
    let u: u16 = if val >= 0 { val as u16 } else { (val as i32 + 0x1_0000) as u16 };
    pack_u16(u)
}

/// Pack a signed 32-bit integer (little-endian).
pub fn pack_i32(val: i32) -> (r: [u8; 4])
    ensures
        r@ == bytes32(twos(val as int, 0x1_0000_0000)),
{
    let u: u32 = if val >= 0 { val as u32 } else { (val as i64 + 0x1_0000_0000) as u32 };
    pack_u32(u)
}

/// Pack a signed 64-bit integer (little-endian).
pub fn pack_i64(val: i64) -> (r: [u8; 8])
    ensures
        r@ == bytes64(twos(val as int, 0x1_0000_0000_0000_0000)),
{
    let u: u64 = if val >= 0 {
        val as u64
    } else {
        (val as i128 + 0x1_0000_0000_0000_0000) as u64
    };
    pack_u64(u)
}

/// Unpack a signed 8-bit integer from a buffer.
pub fn unpack_i8(buf: &[u8]) -> (r: Result<i8, Error>)
    ensures
        r is Ok <==> buf@.len() >= 1,
        r matches Ok(v) ==> v == signed_of(buf@[0] as int, 0x100),
        r matches Err(e) ==> is_invalid_data_with(e, "insufficient bytes for i8: need 1, have 0"@),
{
    if buf.is_empty() {
        return Err(data_error("insufficient bytes for i8: need 1, have 0"));
    }
    let u = buf[0];
    if u < 0x80 { Ok(u as i8) } else { Ok((u as i16 - 0x100) as i8) }
}

/// Unpack a signed 16-bit integer from a buffer (little-endian).
pub fn unpack_i16(buf: &[u8]) -> (r: Result<i16, Error>)
    ensures
        r is Ok <==> buf@.len() >= 2,
        r matches Ok(v) ==> v == signed_of(le16(buf@), 0x1_0000),
        r matches Err(e) ==> is_invalid_data_with(e, "insufficient bytes for i16: need 2, have "@ + decimal(buf@.len())),
{
    if buf.len() < 2 {
        return Err(data_error_count("insufficient bytes for i16: need 2, have ", buf.len() as u64));
    }
    let u = unpack_u16(buf)?;
    if u < 0x8000 { Ok(u as i16) } else { Ok((u as i32 - 0x1_0000) as i16) }
}

/// Unpack a signed 32-bit integer from a buffer (little-endian).
pub fn unpack_i32(buf: &[u8]) -> (r: Result<i32, Error>)
    ensures
        r is Ok <==> buf@.len() >= 4,
        r matches Ok(v) ==> v == signed_of(le32(buf@), 0x1_0000_0000),
        r matches Err(e) ==> is_invalid_data_with(e, "insufficient bytes for i32: need 4, have "@ + decimal(buf@.len())),
{
    if buf.len() < 4 {
        return Err(data_error_count("insufficient bytes for i32: need 4, have ", buf.len() as u64));
    }
    let u = unpack_u32(buf)?;
    if u < 0x8000_0000 { Ok(u as i32) } else { Ok((u as i64 - 0x1_0000_0000) as i32) }
}

/// Unpack a signed 64-bit integer from a buffer (little-endian).
pub fn unpack_i64(buf: &[u8]) -> (r: Result<i64, Error>)
    ensures
        r is Ok <==> buf@.len() >= 8,
        r matches Ok(v) ==> v == signed_of(le64(buf@), 0x1_0000_0000_0000_0000),
        r matches Err(e) ==> is_invalid_data_with(e, "insufficient bytes for i64: need 8, have "@ + decimal(buf@.len())),
{
    if buf.len() < 8 {
        return Err(data_error_count("insufficient bytes for i64: need 8, have ", buf.len() as u64));
    }
    let u = unpack_u64(buf)?;
    if u < 0x8000_0000_0000_0000 {
        Ok(u as i64)
    } else {
        Ok((u as i128 - 0x1_0000_0000_0000_0000) as i64)
    }
}

// --- Array encoding/decoding ---

/// The little-endian bytes of a sequence of u16 values, one after another.
pub open spec fn units16_bytes(a: Seq<u16>) -> Seq<u8>
    decreases a.len(),
{
    if a.len() == 0 {
        seq![]
    } else {
        units16_bytes(a.drop_last()) + bytes16(a.last() as int)
    }
}

/// The little-endian bytes of a sequence of u32 values, one after another.
pub open spec fn units32_bytes(a: Seq<u32>) -> Seq<u8>
    decreases a.len(),
{
    if a.len() == 0 {
        seq![]
    } else {
        units32_bytes(a.drop_last()) + bytes32(a.last() as int)
    }
}

/// An MTP u16 array: the element count as u32 (modulo 2^32), then the elements.
pub open spec fn packed_u16_array(a: Seq<u16>) -> Seq<u8> {
    bytes32(a.len() as int % 0x1_0000_0000) + units16_bytes(a)
}

/// An MTP u32 array: the element count as u32 (modulo 2^32), then the elements.
pub open spec fn packed_u32_array(a: Seq<u32>) -> Seq<u8> {
    bytes32(a.len() as int % 0x1_0000_0000) + units32_bytes(a)
}

/// Append bytes to a buffer.
pub(crate) fn push_bytes(out: &mut Vec<u8>, b: &[u8])
    ensures
        final(out)@ == old(out)@ + b@,
{
    let mut i: usize = 0;
    while i < b.len()
        invariant
            i <= b@.len(),
            out@ == old(out)@ + b@.subrange(0, i as int),
        decreases b@.len() - i,
    {
        out.push(b[i]);
        i = i + 1;
        assert(out@ =~= old(out)@ + b@.subrange(0, i as int));
    }
    assert(b@.subrange(0, i as int) =~= b@);
}

/// A new vector holding the given bytes.
pub(crate) fn bytes_vec(b: &[u8]) -> (r: Vec<u8>)
    ensures
        r@ == b@,
{
    let mut out: Vec<u8> = Vec::new();
    push_bytes(&mut out, b);
    assert(out@ =~= b@);
    out
}

/// Pack a u16 array into MTP format.
///
/// Arrays are encoded as:
/// 1. 4 bytes: Element count (u32, little-endian)
/// 2. N * 2 bytes: Elements (u16, little-endian each)
pub fn pack_u16_array(arr: &[u16]) -> (r: Vec<u8>)
    ensures
        r@ == packed_u16_array(arr@),
{
    let mut result: Vec<u8> = Vec::new();
    let count = pack_u32((arr.len() as u64 % 0x1_0000_0000) as u32);
    push_bytes(&mut result, &count);
    let ghost head = bytes32(arr@.len() as int % 0x1_0000_0000);
    assert(result@ =~= head + units16_bytes(arr@.subrange(0, 0)));
    let mut i: usize = 0;
    while i < arr.len()
        invariant
            i <= arr@.len(),
            head == bytes32(arr@.len() as int % 0x1_0000_0000),
            result@ == head + units16_bytes(arr@.subrange(0, i as int)),
        decreases arr@.len() - i,
    {
        let b = pack_u16(arr[i]);
        push_bytes(&mut result, &b);
        proof {
            let sub = arr@.subrange(0, i + 1);
            assert(sub.drop_last() =~= arr@.subrange(0, i as int));
            assert(sub.last() == arr@[i as int]);
            assert(result@ =~= head + units16_bytes(sub));
        }
        i = i + 1;
    }
    assert(arr@.subrange(0, i as int) =~= arr@);
    result
}

/// Pack a u32 array into MTP format.
///
/// Arrays are encoded as:
/// 1. 4 bytes: Element count (u32, little-endian)
/// 2. N * 4 bytes: Elements (u32, little-endian each)
pub fn pack_u32_array(arr: &[u32]) -> (r: Vec<u8>)
    ensures
        r@ == packed_u32_array(arr@),
{
    let mut result: Vec<u8> = Vec::new();
    let count = pack_u32((arr.len() as u64 % 0x1_0000_0000) as u32);
    push_bytes(&mut result, &count);
    let ghost head = bytes32(arr@.len() as int % 0x1_0000_0000);
    assert(result@ =~= head + units32_bytes(arr@.subrange(0, 0)));
    let mut i: usize = 0;
    while i < arr.len()
        invariant
            i <= arr@.len(),
            head == bytes32(arr@.len() as int % 0x1_0000_0000),
            result@ == head + units32_bytes(arr@.subrange(0, i as int)),
        decreases arr@.len() - i,
    {
        let b = pack_u32(arr[i]);
        push_bytes(&mut result, &b);
        proof {
            let sub = arr@.subrange(0, i + 1);
            assert(sub.drop_last() =~= arr@.subrange(0, i as int));
            assert(sub.last() == arr@[i as int]);
            assert(result@ =~= head + units32_bytes(sub));
        }
        i = i + 1;
    }
    assert(arr@.subrange(0, i as int) =~= arr@);
    result
}

/// The `i`-th u16 of a run of little-endian u16 values starting at `start`.
pub open spec fn u16_at(buf: Seq<u8>, start: int, i: int) -> u16 {
    le16(buf.subrange(start + 2 * i, start + 2 * i + 2)) as u16
}

/// The `i`-th u32 of a run of little-endian u32 values starting at `start`.
pub open spec fn u32_at(buf: Seq<u8>, start: int, i: int) -> u32 {
    le32(buf.subrange(start + 4 * i, start + 4 * i + 4)) as u32
}

/// The message of the error `unpack_u16_array` gives: the buffer has no
/// room for the count, or less room than the count announces.
pub open spec fn u16_array_error(buf: Seq<u8>) -> Seq<char> {
    if buf.len() < 4 {
        "insufficient bytes for array count: need 4, have "@ + decimal(buf.len())
    } else {
        "insufficient bytes for u16 array: need "@ + decimal((4 + 2 * le32(buf)) as nat) + ", have "@
            + decimal(buf.len())
    }
}

/// Unpack a u16 array from a buffer.
///
/// Returns the array and the number of bytes consumed.
pub fn unpack_u16_array(buf: &[u8]) -> (r: Result<(Vec<u16>, usize), Error>)
    ensures
        r is Ok <==> buf@.len() >= 4 && buf@.len() >= 4 + 2 * le32(buf@),
        r matches Ok((v, n)) ==> {
            &&& n == 4 + 2 * le32(buf@)
            &&& v@.len() == le32(buf@)
            &&& forall|i: int| 0 <= i < v@.len() ==> #[trigger] v@[i] == u16_at(buf@, 4, i)
        },
        r matches Err(e) ==> is_invalid_data_with(e, u16_array_error(buf@)),
{
    if buf.len() < 4 {
        return Err(data_error_count("insufficient bytes for array count: need 4, have ", buf.len() as u64));
    }
    let count = unpack_u32(buf)?;
    let required: u64 = 4 + 2 * (count as u64);
    if (buf.len() as u64) < required {
        return Err(data_error_counts("insufficient bytes for u16 array: need ", required, ", have ", buf.len() as u64));
    }
    let blen = buf.len();
    let mut result: Vec<u16> = Vec::new();
    let mut i: usize = 0;
    while i < count as usize
        invariant
            blen == buf@.len(),
            count == le32(buf@),
            4 + 2 * count <= buf@.len(),
            i <= count,
            result@.len() == i,
            forall|j: int| 0 <= j < i ==> #[trigger] result@[j] == u16_at(buf@, 4, j),
        decreases count - i,
    {
        let offset = 4 + i * 2;
        let item = slice_subrange(buf, offset, offset + 2);
        let v = match unpack_u16(item) {
            Ok(v) => v,
            Err(e) => {
                return Err(e);
            },
        };
        assert(item@ =~= buf@.subrange(4 + 2 * i, 4 + 2 * i + 2));
        result.push(v);
        i = i + 1;
    }
    Ok((result, required as usize))
}

/// The message of the error `unpack_u32_array` gives: the buffer has no
/// room for the count, or less room than the count announces.
pub open spec fn u32_array_error(buf: Seq<u8>) -> Seq<char> {
    if buf.len() < 4 {
        "insufficient bytes for array count: need 4, have "@ + decimal(buf.len())
    } else {
        "insufficient bytes for u32 array: need "@ + decimal((4 + 4 * le32(buf)) as nat) + ", have "@
            + decimal(buf.len())
    }
}

/// Unpack a u32 array from a buffer.
///
/// Returns the array and the number of bytes consumed.
pub fn unpack_u32_array(buf: &[u8]) -> (r: Result<(Vec<u32>, usize), Error>)
    ensures
        r is Ok <==> buf@.len() >= 4 && buf@.len() >= 4 + 4 * le32(buf@),
        r matches Ok((v, n)) ==> {
            &&& n == 4 + 4 * le32(buf@)
            &&& v@.len() == le32(buf@)
            &&& forall|i: int| 0 <= i < v@.len() ==> #[trigger] v@[i] == u32_at(buf@, 4, i)
        },
        r matches Err(e) ==> is_invalid_data_with(e, u32_array_error(buf@)),
{
    if buf.len() < 4 {
        return Err(data_error_count("insufficient bytes for array count: need 4, have ", buf.len() as u64));
    }
    let count = unpack_u32(buf)?;
    let required: u64 = 4 + 4 * (count as u64);
    if (buf.len() as u64) < required {
        return Err(data_error_counts("insufficient bytes for u32 array: need ", required, ", have ", buf.len() as u64));
    }
    let blen = buf.len();
    let mut result: Vec<u32> = Vec::new();
    let mut i: usize = 0;
    while i < count as usize
        invariant
            blen == buf@.len(),
            count == le32(buf@),
            4 + 4 * count <= buf@.len(),
            i <= count,
            result@.len() == i,
            forall|j: int| 0 <= j < i ==> #[trigger] result@[j] == u32_at(buf@, 4, j),
        decreases count - i,
    {
        let offset = 4 + i * 4;
        let item = slice_subrange(buf, offset, offset + 4);
        let v = match unpack_u32(item) {
            Ok(v) => v,
            Err(e) => {
                return Err(e);
            },
        };
        assert(item@ =~= buf@.subrange(4 + 4 * i, 4 + 4 * i + 4));
        result.push(v);
        i = i + 1;
    }
    Ok((result, required as usize))
}

// --- Laws of the integer encodings ---

/// Unpacking the bytes that `pack_u16` writes, followed by any further bytes,
/// gives the packed value back.
pub proof fn lemma_u16_roundtrip(val: u16, rest: Seq<u8>)
    ensures
        (bytes16(val as int) + rest).len() >= 2,
        le16(bytes16(val as int) + rest) == val,
{
    lemma_le16_bytes16(val as int);
}

/// Unpacking the bytes that `pack_u32` writes, followed by any further bytes,
/// gives the packed value back.
pub proof fn lemma_u32_roundtrip(val: u32, rest: Seq<u8>)
    ensures
        (bytes32(val as int) + rest).len() >= 4,
        le32(bytes32(val as int) + rest) == val,
{
    lemma_le32_bytes32(val as int);
    assert((bytes32(val as int) + rest).subrange(2, 4) =~= bytes32(val as int).subrange(2, 4));
}

/// Unpacking the bytes that `pack_u64` writes, followed by any further bytes,
/// gives the packed value back.
#[verifier::spinoff_prover]
pub proof fn lemma_u64_roundtrip(val: u64, rest: Seq<u8>)
    ensures
        (bytes64(val as int) + rest).len() >= 8,
        le64(bytes64(val as int) + rest) == val,
{
    lemma_le64_bytes64(val as int);
    let b = bytes64(val as int);
    assert((b + rest).subrange(2, 4) =~= b.subrange(2, 4));
    assert((b + rest).subrange(4, 8) =~= b.subrange(4, 8));
    assert((b + rest).subrange(4, 8).subrange(2, 4) =~= b.subrange(4, 8).subrange(2, 4));
}

/// Unpacking the bytes that `pack_i16` writes gives the packed value back.
pub proof fn lemma_i16_roundtrip(val: i16, rest: Seq<u8>)
    ensures
        signed_of(le16(bytes16(twos(val as int, 0x1_0000)) + rest), 0x1_0000) == val,
{
    lemma_le16_bytes16(twos(val as int, 0x1_0000));
}

/// Unpacking the bytes that `pack_i32` writes gives the packed value back.
pub proof fn lemma_i32_roundtrip(val: i32, rest: Seq<u8>)
    ensures
        signed_of(le32(bytes32(twos(val as int, 0x1_0000_0000)) + rest), 0x1_0000_0000) == val,
{
    let u = twos(val as int, 0x1_0000_0000);
    lemma_le32_bytes32(u);
    assert((bytes32(u) + rest).subrange(2, 4) =~= bytes32(u).subrange(2, 4));
}

/// Unpacking the bytes that `pack_i64` writes gives the packed value back.
#[verifier::spinoff_prover]
pub proof fn lemma_i64_roundtrip(val: i64, rest: Seq<u8>)
    ensures
        signed_of(
            le64(bytes64(twos(val as int, 0x1_0000_0000_0000_0000)) + rest),
            0x1_0000_0000_0000_0000,
        ) == val,
{
    let u = twos(val as int, 0x1_0000_0000_0000_0000);
    lemma_le64_bytes64(u);
    let b = bytes64(u);
    assert((b + rest).subrange(2, 4) =~= b.subrange(2, 4));
    assert((b + rest).subrange(4, 8) =~= b.subrange(4, 8));
    assert((b + rest).subrange(4, 8).subrange(2, 4) =~= b.subrange(4, 8).subrange(2, 4));
}

/// Length and layout of `units16_bytes`: element `i` sits at bytes `2i..2i+2`.
#[verifier::spinoff_prover]
pub proof fn lemma_units16_layout(a: Seq<u16>)
    ensures
        units16_bytes(a).len() == 2 * a.len(),
        forall|i: int|
            0 <= i < a.len() ==> #[trigger] units16_bytes(a).subrange(2 * i, 2 * i + 2)
                == bytes16(a[i] as int),
    decreases a.len(),
{
    if a.len() > 0 {
        lemma_units16_layout(a.drop_last());
        let p = units16_bytes(a.drop_last());
        assert forall|i: int| 0 <= i < a.len() implies #[trigger] units16_bytes(a).subrange(
            2 * i,
            2 * i + 2,
        ) == bytes16(a[i] as int) by {
            if i < a.len() - 1 {
                assert(units16_bytes(a).subrange(2 * i, 2 * i + 2) =~= p.subrange(2 * i, 2 * i + 2));
                assert(a.drop_last()[i] == a[i]);
            } else {
                assert(units16_bytes(a).subrange(2 * i, 2 * i + 2) =~= bytes16(a.last() as int));
            }
        }
    }
}

/// Length and layout of `units32_bytes`: element `i` sits at bytes `4i..4i+4`.
#[verifier::spinoff_prover]
pub proof fn lemma_units32_layout(a: Seq<u32>)
    ensures
        units32_bytes(a).len() == 4 * a.len(),
        forall|i: int|
            0 <= i < a.len() ==> #[trigger] units32_bytes(a).subrange(4 * i, 4 * i + 4)
                == bytes32(a[i] as int),
    decreases a.len(),
{
    if a.len() > 0 {
        lemma_units32_layout(a.drop_last());
        let p = units32_bytes(a.drop_last());
        assert(bytes32(a.last() as int).len() == 4);
        assert forall|i: int| 0 <= i < a.len() implies #[trigger] units32_bytes(a).subrange(
            4 * i,
            4 * i + 4,
        ) == bytes32(a[i] as int) by {
            if i < a.len() - 1 {
                assert(units32_bytes(a).subrange(4 * i, 4 * i + 4) =~= p.subrange(4 * i, 4 * i + 4));
                assert(a.drop_last()[i] == a[i]);
            } else {
                assert(units32_bytes(a).subrange(4 * i, 4 * i + 4) =~= bytes32(a.last() as int));
            }
        }
    }
}

/// Unpacking an array packed by `pack_u16_array`, followed by any further
/// bytes, gives the elements back and consumes exactly the packed bytes.
#[verifier::spinoff_prover]
pub proof fn lemma_u16_array_roundtrip(a: Seq<u16>, rest: Seq<u8>)
    requires
        a.len() < 0x1_0000_0000,
    ensures
        ({
            let b = packed_u16_array(a) + rest;
            &&& b.len() >= 4
            &&& le32(b) == a.len()
            &&& b.len() >= 4 + 2 * le32(b)
            &&& 4 + 2 * le32(b) == packed_u16_array(a).len()
            &&& forall|i: int| 0 <= i < a.len() ==> #[trigger] u16_at(b, 4, i) == a[i]
        }),
{
    let b = packed_u16_array(a) + rest;
    lemma_units16_layout(a);
    lemma_u32_roundtrip(a.len() as u32, units16_bytes(a) + rest);
    assert(b =~= bytes32(a.len() as u32 as int) + (units16_bytes(a) + rest));
    assert forall|i: int| 0 <= i < a.len() implies #[trigger] u16_at(b, 4, i) == a[i] by {
        assert(b.subrange(4 + 2 * i, 4 + 2 * i + 2) =~= units16_bytes(a).subrange(2 * i, 2 * i + 2));
        lemma_le16_bytes16(a[i] as int);
    }
}

/// Unpacking an array packed by `pack_u32_array`, followed by any further
/// bytes, gives the elements back and consumes exactly the packed bytes.
#[verifier::spinoff_prover]
pub proof fn lemma_u32_array_roundtrip(a: Seq<u32>, rest: Seq<u8>)
    requires
        a.len() < 0x1_0000_0000,
    ensures
        ({
            let b = packed_u32_array(a) + rest;
            &&& b.len() >= 4
            &&& le32(b) == a.len()
            &&& b.len() >= 4 + 4 * le32(b)
            &&& 4 + 4 * le32(b) == packed_u32_array(a).len()
            &&& forall|i: int| 0 <= i < a.len() ==> #[trigger] u32_at(b, 4, i) == a[i]
        }),
{
    let b = packed_u32_array(a) + rest;
    lemma_units32_layout(a);
    lemma_u32_roundtrip(a.len() as u32, units32_bytes(a) + rest);
    assert(b =~= bytes32(a.len() as u32 as int) + (units32_bytes(a) + rest));
    assert forall|i: int| 0 <= i < a.len() implies #[trigger] u32_at(b, 4, i) == a[i] by {
        assert(b.subrange(4 + 4 * i, 4 + 4 * i + 4) =~= units32_bytes(a).subrange(4 * i, 4 * i + 4));
        lemma_le32_bytes32(a[i] as int);
    }
}

} // verus!
