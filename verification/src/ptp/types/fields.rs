//! Reading the fields of a PTP dataset one after another.

use vstd::prelude::*;
use vstd::slice::slice_subrange;
use crate::error::{is_invalid_data_with, Error};
use crate::text::decimal;
use crate::ptp::datetime::{lemma_unpacked_datetime_within, unpack_datetime, unpack_datetime_error, unpacked_datetime, DateTime};
use crate::ptp::pack::{
    bytes16, bytes32, bytes64, le16, le32, le64, lemma_u16_array_roundtrip, lemma_u16_roundtrip,
    lemma_u32_roundtrip, lemma_u64_roundtrip, packed_u16_array, u16_array_error, u16_at,
    unpack_u16, unpack_u16_array, unpack_u32, unpack_u64,
};
use crate::ptp::strings::{
    lemma_string_roundtrip, packed_string, unpack_string, unpack_string_error, unpacked_string,
    utf16_units,
};

verus! {

/// The bytes of `buf` from offset `off` on.
pub open spec fn rest_of(buf: Seq<u8>, off: int) -> Seq<u8> {
    buf.subrange(off, buf.len() as int)
}

/// A little-endian u16 at offset `off`, with the offset after it.
#[verifier::opaque]
pub open spec fn take_u16(buf: Seq<u8>, off: int) -> Option<(u16, int)> {
    if 0 <= off && off + 2 <= buf.len() {
        Some((le16(rest_of(buf, off)) as u16, off + 2))
    } else {
        None
    }
}

/// A little-endian u32 at offset `off`, with the offset after it.
#[verifier::opaque]
pub open spec fn take_u32(buf: Seq<u8>, off: int) -> Option<(u32, int)> {
    if 0 <= off && off + 4 <= buf.len() {
        Some((le32(rest_of(buf, off)) as u32, off + 4))
    } else {
        None
    }
}

/// A little-endian u64 at offset `off`, with the offset after it.
#[verifier::opaque]
pub open spec fn take_u64(buf: Seq<u8>, off: int) -> Option<(u64, int)> {
    if 0 <= off && off + 8 <= buf.len() {
        Some((le64(rest_of(buf, off)) as u64, off + 8))
    } else {
        None
    }
}

/// An MTP string at offset `off`, with the offset after it.
#[verifier::opaque]
pub open spec fn take_string(buf: Seq<u8>, off: int) -> Option<(Seq<char>, int)> {
    if 0 <= off <= buf.len() {
        match unpacked_string(rest_of(buf, off)) {
            Some((s, n)) => Some((s, off + n)),
            None => None,
        }
    } else {
        None
    }
}

/// An MTP u16 array (a u32 count, then the elements) at offset `off`, with
/// the offset after it.
#[verifier::opaque]
pub open spec fn take_u16_array(buf: Seq<u8>, off: int) -> Option<(Seq<u16>, int)> {
    if 0 <= off <= buf.len() {
        let b = rest_of(buf, off);
        if b.len() >= 4 && b.len() >= 4 + 2 * le32(b) {
            Some((Seq::new(le32(b) as nat, |i: int| u16_at(b, 4, i)), off + 4 + 2 * le32(b)))
        } else {
            None
        }
    } else {
        None
    }
}

/// An MTP datetime string (empty for no date) at offset `off`, with the
/// offset after it.
#[verifier::opaque]
pub open spec fn take_datetime(buf: Seq<u8>, off: int) -> Option<(Option<DateTime>, int)> {
    if 0 <= off <= buf.len() {
        match unpacked_datetime(rest_of(buf, off)) {
            Some((d, n)) => Some((d, off + n)),
            None => None,
        }
    } else {
        None
    }
}

/// The message of the error for a u16 field at `off` that the buffer cannot
/// hold.
pub open spec fn u16_field_error(buf: Seq<u8>, off: int) -> Seq<char> {
    "insufficient bytes for u16: need 2, have "@ + decimal((buf.len() - off) as nat)
}

/// The message of the error for a u32 field at `off` that the buffer cannot
/// hold.
pub open spec fn u32_field_error(buf: Seq<u8>, off: int) -> Seq<char> {
    "insufficient bytes for u32: need 4, have "@ + decimal((buf.len() - off) as nat)
}

/// The message of the error for a u64 field at `off` that the buffer cannot
/// hold.
pub open spec fn u64_field_error(buf: Seq<u8>, off: int) -> Seq<char> {
    "insufficient bytes for u64: need 8, have "@ + decimal((buf.len() - off) as nat)
}

/// The message of the error for a string field at `off` that cannot be read.
pub open spec fn string_field_error(buf: Seq<u8>, off: int) -> Seq<char> {
    unpack_string_error(rest_of(buf, off))
}

/// The message of the error for a u16 array field at `off` that cannot be
/// read.
pub open spec fn u16_array_field_error(buf: Seq<u8>, off: int) -> Seq<char> {
    u16_array_error(rest_of(buf, off))
}

/// The message of the error for a datetime field at `off` that cannot be
/// read.
pub open spec fn datetime_field_error(buf: Seq<u8>, off: int) -> Seq<char> {
    unpack_datetime_error(rest_of(buf, off))
}

/// Reads a u16 at `off`.
pub fn read_u16_at(buf: &[u8], off: usize) -> (r: Result<(u16, usize), Error>)
    requires
        off <= buf@.len(),
    ensures
        r is Ok <==> take_u16(buf@, off as int) is Some,
        r matches Ok((v, o)) ==> take_u16(buf@, off as int) == Some((v, o as int)) && o <= buf@.len(),
        r matches Err(e) ==> is_invalid_data_with(e, u16_field_error(buf@, off as int)),
{
    proof {
        reveal(take_u16);
    }
    let v = unpack_u16(slice_subrange(buf, off, buf.len()))?;
    Ok((v, off + 2))
}

/// Reads a u32 at `off`.
pub fn read_u32_at(buf: &[u8], off: usize) -> (r: Result<(u32, usize), Error>)
    requires
        off <= buf@.len(),
    ensures
        r is Ok <==> take_u32(buf@, off as int) is Some,
        r matches Ok((v, o)) ==> take_u32(buf@, off as int) == Some((v, o as int)) && o <= buf@.len(),
        r matches Err(e) ==> is_invalid_data_with(e, u32_field_error(buf@, off as int)),
{
    proof {
        reveal(take_u32);
    }
    let v = unpack_u32(slice_subrange(buf, off, buf.len()))?;
    Ok((v, off + 4))
}

/// Reads a u64 at `off`.
pub fn read_u64_at(buf: &[u8], off: usize) -> (r: Result<(u64, usize), Error>)
    requires
        off <= buf@.len(),
    ensures
        r is Ok <==> take_u64(buf@, off as int) is Some,
        r matches Ok((v, o)) ==> take_u64(buf@, off as int) == Some((v, o as int)) && o <= buf@.len(),
        r matches Err(e) ==> is_invalid_data_with(e, u64_field_error(buf@, off as int)),
{
    proof {
        reveal(take_u64);
    }
    let v = unpack_u64(slice_subrange(buf, off, buf.len()))?;
    Ok((v, off + 8))
}

/// Reads an MTP string at `off`.
pub fn read_string_at(buf: &[u8], off: usize) -> (r: Result<(String, usize), Error>)
    requires
        off <= buf@.len(),
    ensures
        r is Ok <==> take_string(buf@, off as int) is Some,
        r matches Ok((s, o)) ==> take_string(buf@, off as int) == Some((s@, o as int)) && o <= buf@.len(),
        r matches Err(e) ==> is_invalid_data_with(e, string_field_error(buf@, off as int)),
{
    proof {
        reveal(take_string);
    }
    let (s, n) = unpack_string(slice_subrange(buf, off, buf.len()))?;
    Ok((s, off + n))
}

/// Reads an MTP u16 array at `off`.
pub fn read_u16_array_at(buf: &[u8], off: usize) -> (r: Result<(Vec<u16>, usize), Error>)
    requires
        off <= buf@.len(),
    ensures
        r is Ok <==> take_u16_array(buf@, off as int) is Some,
        r matches Ok((v, o)) ==> take_u16_array(buf@, off as int) == Some((v@, o as int)) && o <= buf@.len(),
        r matches Err(e) ==> is_invalid_data_with(e, u16_array_field_error(buf@, off as int)),
{
    proof {
        reveal(take_u16_array);
    }
    let rest = slice_subrange(buf, off, buf.len());
    let (v, n) = unpack_u16_array(rest)?;
    assert(v@ =~= Seq::new(le32(rest@) as nat, |i: int| u16_at(rest@, 4, i)));
    Ok((v, off + n))
}

/// Reads an MTP datetime string at `off`.
pub fn read_datetime_at(buf: &[u8], off: usize) -> (r: Result<(Option<DateTime>, usize), Error>)
    requires
        off <= buf@.len(),
    ensures
        r is Ok <==> take_datetime(buf@, off as int) is Some,
        r matches Ok((d, o)) ==> take_datetime(buf@, off as int) == Some((d, o as int)) && o <= buf@.len(),
        r matches Err(e) ==> is_invalid_data_with(e, datetime_field_error(buf@, off as int)),
{
    proof {
        reveal(take_datetime);
    }
    let rest = slice_subrange(buf, off, buf.len());
    let (d, n) = unpack_datetime(rest)?;
    proof {
        lemma_unpacked_datetime_within(rest@);
    }
    Ok((d, off + n))
}

/// `(a + b) + c` is `a + (b + c)`.
pub proof fn lemma_concat_assoc(a: Seq<u8>, b: Seq<u8>, c: Seq<u8>)
    ensures
        (a + b) + c == a + (b + c),
{
    assert((a + b) + c =~= a + (b + c));
}

/// The bytes after an encoded field are the tail that followed it.
pub proof fn lemma_rest_after(buf: Seq<u8>, off: int, e: Seq<u8>, tail: Seq<u8>)
    requires
        0 <= off <= buf.len(),
        rest_of(buf, off) == e + tail,
    ensures
        off + e.len() <= buf.len(),
        rest_of(buf, off + e.len()) == tail,
{
    let r = rest_of(buf, off);
    assert(r.len() == buf.len() - off);
    assert forall|i: int| 0 <= i < tail.len() implies #[trigger] rest_of(buf, off + e.len())[i] == tail[i] by {
        assert(rest_of(buf, off + e.len())[i] == buf[off + e.len() + i]);
        assert(r[e.len() + i] == buf[off + e.len() + i]);
        assert((e + tail)[e.len() + i] == tail[i]);
    }
    assert(rest_of(buf, off + e.len()) =~= tail);
}

/// A u16 written at `off` reads back.
pub proof fn lemma_take_u16(buf: Seq<u8>, off: int, x: u16, tail: Seq<u8>)
    requires
        0 <= off <= buf.len(),
        rest_of(buf, off) == bytes16(x as int) + tail,
    ensures
        take_u16(buf, off) == Some((x, off + 2)),
        rest_of(buf, off + 2) == tail,
{
    reveal(take_u16);
    lemma_u16_roundtrip(x, tail);
    lemma_rest_after(buf, off, bytes16(x as int), tail);
}

/// A u32 written at `off` reads back.
pub proof fn lemma_take_u32(buf: Seq<u8>, off: int, x: u32, tail: Seq<u8>)
    requires
        0 <= off <= buf.len(),
        rest_of(buf, off) == bytes32(x as int) + tail,
    ensures
        take_u32(buf, off) == Some((x, off + 4)),
        rest_of(buf, off + 4) == tail,
{
    reveal(take_u32);
    lemma_u32_roundtrip(x, tail);
    lemma_rest_after(buf, off, bytes32(x as int), tail);
}

/// A string written at `off` reads back, if it has at most 254 code units.
pub proof fn lemma_take_string(buf: Seq<u8>, off: int, s: Seq<char>, tail: Seq<u8>)
    requires
        0 <= off <= buf.len(),
        rest_of(buf, off) == packed_string(s) + tail,
        utf16_units(s).len() <= 254,
    ensures
        take_string(buf, off) == Some((s, off + packed_string(s).len())),
        rest_of(buf, off + packed_string(s).len()) == tail,
{
    reveal(take_string);
    lemma_string_roundtrip(s, tail);
    lemma_rest_after(buf, off, packed_string(s), tail);
}

/// A u64 written at `off` reads back.
pub proof fn lemma_take_u64(buf: Seq<u8>, off: int, x: u64, tail: Seq<u8>)
    requires
        0 <= off <= buf.len(),
        rest_of(buf, off) == bytes64(x as int) + tail,
    ensures
        take_u64(buf, off) == Some((x, off + 8)),
        rest_of(buf, off + 8) == tail,
{
    reveal(take_u64);
    lemma_u64_roundtrip(x, tail);
    lemma_rest_after(buf, off, bytes64(x as int), tail);
}

/// A u16 array written at `off` reads back.
pub proof fn lemma_take_u16_array(buf: Seq<u8>, off: int, a: Seq<u16>, tail: Seq<u8>)
    requires
        0 <= off <= buf.len(),
        rest_of(buf, off) == packed_u16_array(a) + tail,
        a.len() < 0x1_0000_0000,
    ensures
        take_u16_array(buf, off) == Some((a, off + packed_u16_array(a).len())),
        rest_of(buf, off + packed_u16_array(a).len()) == tail,
{
    reveal(take_u16_array);
    lemma_u16_array_roundtrip(a, tail);
    let b = rest_of(buf, off);
    assert(Seq::new(le32(b) as nat, |i: int| u16_at(b, 4, i)) =~= a);
    lemma_rest_after(buf, off, packed_u16_array(a), tail);
}

} // verus!
