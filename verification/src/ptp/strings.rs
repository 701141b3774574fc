//! MTP strings: UTF-16LE code units behind a one-byte length.

use vstd::prelude::*;
use crate::error::{data_error, data_error_counts, is_invalid_data_with, Error};
use crate::text::{decimal, string_from_chars};
use super::pack::{lemma_le16_bytes16, lemma_units16_layout, push_bytes, pack_u16, u16_at, units16_bytes};

verus! {

/// `char::from_u32` of std: the character with code point `i`, or `None`
/// when `i` is a surrogate (0xD800..=0xDFFF) or above 0x10FFFF.
pub assume_specification[ char::from_u32 ](i: u32) -> (r: Option<char>)
    ensures
        r == (if i <= 0xD7FF || (0xE000 <= i && i <= 0x10FFFF) {
            Some(i as char)
        } else {
            None::<char>
        }),
;

/// The UTF-16 code units of one character: one unit below 0x10000, otherwise
/// a high surrogate followed by a low surrogate.
pub open spec fn utf16_char(c: char) -> Seq<u16> {
    let v = c as u32 as int;
    if v < 0x10000 {
        seq![v as u16]
    } else {
        seq![(0xD800 + (v - 0x10000) / 1024) as u16, (0xDC00 + (v - 0x10000) % 1024) as u16]
    }
}

/// The UTF-16 code units of a character sequence.
pub open spec fn utf16_units(s: Seq<char>) -> Seq<u16>
    decreases s.len(),
{
    if s.len() == 0 {
        seq![]
    } else {
        utf16_char(s[0]) + utf16_units(s.drop_first())
    }
}

/// The code point that a surrogate pair stands for.
pub open spec fn pair_code_point(hi: u16, lo: u16) -> int {
    0x10000 + (hi - 0xD800) * 1024 + (lo - 0xDC00)
}

/// Whether a code unit is a surrogate (0xD800..=0xDFFF).
pub open spec fn is_surrogate(u: u16) -> bool {
    0xD800 <= u && u <= 0xDFFF
}

/// Decoding UTF-16 as `String::from_utf16` of std does: a non-surrogate unit
/// is a character, a high surrogate followed by a low surrogate is one
/// character, and any other surrogate makes the whole input invalid.
pub open spec fn decode_utf16(u: Seq<u16>) -> Option<Seq<char>>
    decreases u.len(),
{
    if u.len() == 0 {
        Some(seq![])
    } else if !is_surrogate(u[0]) {
        match decode_utf16(u.drop_first()) {
            Some(r) => Some(seq![u[0] as u32 as char] + r),
            None => None,
        }
    } else if u[0] <= 0xDBFF && u.len() >= 2 && 0xDC00 <= u[1] && u[1] <= 0xDFFF {
        match decode_utf16(u.subrange(2, u.len() as int)) {
            Some(r) => Some(seq![pair_code_point(u[0], u[1]) as u32 as char] + r),
            None => None,
        }
    } else {
        None
    }
}

/// `decode_utf16` with `prefix` put in front of a successful result.
pub open spec fn prepend_decoded(prefix: Seq<char>, rest: Option<Seq<char>>) -> Option<Seq<char>> {
    match rest {
        Some(r) => Some(prefix + r),
        None => None,
    }
}

/// Appending one character appends its code units.
pub proof fn lemma_utf16_units_push(s: Seq<char>, c: char)
    ensures
        utf16_units(s.push(c)) == utf16_units(s) + utf16_char(c),
    decreases s.len(),
{
    if s.len() == 0 {
        assert(s.push(c).drop_first() =~= seq![]);
        assert(utf16_units(s.push(c)) =~= utf16_char(c) + utf16_units(seq![]));
    } else {
        lemma_utf16_units_push(s.drop_first(), c);
        assert(s.push(c).drop_first() =~= s.drop_first().push(c));
        assert(utf16_units(s.push(c)) =~= utf16_char(s[0]) + (utf16_units(s.drop_first()) + utf16_char(c)));
    }
}

/// The units of a character number 1 or 2, and decode back to that character
/// in front of whatever follows.
pub proof fn lemma_decode_char(c: char, rest: Seq<u16>)
    ensures
        1 <= utf16_char(c).len() <= 2,
        decode_utf16(utf16_char(c) + rest) == prepend_decoded(seq![c], decode_utf16(rest)),
{
    let v = c as u32;
    let u = utf16_char(c) + rest;
    assert(vstd::utf8::is_scalar(v)) by {
        vstd::utf8::char_is_scalar(c);
    }
    if (v as int) < 0x10000 {
        assert(u.drop_first() =~= rest);
        assert(!is_surrogate(u[0]));
        assert((u[0] as u32 as char) == c) by {
            vstd::utf8::char_u32_cast(c, v);
        }
    } else {
        assert(u.subrange(2, u.len() as int) =~= rest);
        let w = v - 0x10000;
        assert(0 <= w < 0x100000);
        assert(pair_code_point(u[0], u[1]) == v);
        assert((pair_code_point(u[0], u[1]) as u32 as char) == c) by {
            vstd::utf8::char_u32_cast(c, v);
        }
    }
}

/// The code units of a string decode back to the string.
pub proof fn lemma_decode_utf16_units(s: Seq<char>)
    ensures
        decode_utf16(utf16_units(s)) == Some(s),
    decreases s.len(),
{
    if s.len() > 0 {
        lemma_decode_utf16_units(s.drop_first());
        lemma_decode_char(s[0], utf16_units(s.drop_first()));
        assert(seq![s[0]] + s.drop_first() =~= s);
    }
}

/// The UTF-16 code units of a string.
pub fn encode_utf16(s: &str) -> (r: Vec<u16>)
    ensures
        r@ == utf16_units(s@),
{
    let mut out: Vec<u16> = Vec::new();
    for c in it: s.chars()
        invariant
            it.seq() == s@,
            out@ == utf16_units(it.seq().take(it.index() as int)),
    {
        proof {
            let i = it.index() as int;
            assert(it.seq().take(i + 1) =~= it.seq().take(i).push(c));
            lemma_utf16_units_push(it.seq().take(i), c);
        }
        let v = c as u32;
        if v < 0x10000 {
            out.push(v as u16);
        } else {
            let w = v - 0x10000;
            out.push((0xD800 + w / 1024) as u16);
            out.push((0xDC00 + w % 1024) as u16);
        }
        assert(out@ =~= utf16_units(it.seq().take(it.index() + 1)));
    }
    assert(s@.take(s@.len() as int) =~= s@);
    out
}

/// Decode UTF-16 code units into characters; `None` when a surrogate is not
/// part of a high/low pair.
pub fn decode_utf16_units(u: &[u16]) -> (r: Option<Vec<char>>)
    ensures
        match r {
            Some(v) => decode_utf16(u@) == Some(v@),
            None => decode_utf16(u@) is None,
        },
{
    let mut out: Vec<char> = Vec::new();
    let mut i: usize = 0;
    proof {
        assert(u@.subrange(0, u@.len() as int) =~= u@);
        match decode_utf16(u@) {
            Some(r) => {
                assert(out@ + r =~= r);
            },
            None => {},
        }
    }
    while i < u.len()
        invariant
            i <= u@.len(),
            decode_utf16(u@) == prepend_decoded(out@, decode_utf16(u@.subrange(i as int, u@.len() as int))),
        decreases u@.len() - i,
    {
        let ghost rest = u@.subrange(i as int, u@.len() as int);
        let x = u[i];
        if x < 0xD800 || x > 0xDFFF {
            let c = match char::from_u32(x as u32) {
                Some(c) => c,
                None => {
                    return None;
                },
            };
            proof {
                assert(rest.drop_first() =~= u@.subrange(i + 1, u@.len() as int));
                match decode_utf16(rest.drop_first()) {
                    Some(r) => {
                        assert(out@ + (seq![c] + r) =~= out@.push(c) + r);
                    },
                    None => {},
                }
            }
            out.push(c);
            i = i + 1;
        } else if x <= 0xDBFF && i + 1 < u.len() && u[i + 1] >= 0xDC00 && u[i + 1] <= 0xDFFF {
            let y = u[i + 1];
            let cp: u32 = 0x10000 + (x as u32 - 0xD800) * 1024 + (y as u32 - 0xDC00);
            let c = match char::from_u32(cp) {
                Some(c) => c,
                None => {
                    return None;
                },
            };
            proof {
                assert(rest.subrange(2, rest.len() as int) =~= u@.subrange(i + 2, u@.len() as int));
                assert(cp == pair_code_point(x, y));
                match decode_utf16(rest.subrange(2, rest.len() as int)) {
                    Some(r) => {
                        assert(out@ + (seq![c] + r) =~= out@.push(c) + r);
                    },
                    None => {},
                }
            }
            out.push(c);
            i = i + 2;
        } else {
            return None;
        }
    }
    proof {
        assert(u@.subrange(i as int, u@.len() as int) =~= seq![]);
        assert(out@ + seq![] =~= out@);
    }
    Some(out)
}

/// The MTP encoding of a string: the empty string is the single byte 0;
/// otherwise one byte holding the number of code units including a null
/// terminator (taken modulo 256), the code units in little-endian order, and
/// the null terminator 0x0000.
pub open spec fn packed_string(s: Seq<char>) -> Seq<u8> {
    if s.len() == 0 {
        seq![0u8]
    } else {
        seq![((utf16_units(s).len() + 1) % 256) as u8] + units16_bytes(utf16_units(s).push(0u16))
    }
}

/// The `n` code units stored after the length byte of an MTP string.
pub open spec fn string_units(buf: Seq<u8>, n: int) -> Seq<u16> {
    Seq::new(n as nat, |i: int| u16_at(buf, 1, i))
}

/// The code units without one trailing null unit, if there is one.
pub open spec fn strip_terminator(u: Seq<u16>) -> Seq<u16> {
    if u.len() > 0 && u.last() == 0 {
        u.drop_last()
    } else {
        u
    }
}

/// The string at the front of `buf` and the number of bytes it takes: a
/// length byte `n`, then `n` code units whose trailing null (if any) is
/// dropped; `None` when `buf` is empty or too short for `n` units, or when the
/// units are not valid UTF-16.
pub open spec fn unpacked_string(buf: Seq<u8>) -> Option<(Seq<char>, int)> {
    if buf.len() == 0 {
        None
    } else if buf[0] == 0 {
        Some((seq![], 1))
    } else if buf.len() < 1 + 2 * buf[0] {
        None
    } else {
        match decode_utf16(strip_terminator(string_units(buf, buf[0] as int))) {
            Some(c) => Some((c, 1 + 2 * buf[0])),
            None => None,
        }
    }
}

/// Pack a string into MTP format (UTF-16LE with length prefix).
///
/// MTP strings are encoded as:
/// 1. 1 byte: Number of characters (including null terminator)
/// 2. N * 2 bytes: UTF-16LE encoded characters
/// 3. 2 bytes: Null terminator (0x0000)
///
/// Empty string: Single byte 0x00
pub fn pack_string(s: &str) -> (r: Vec<u8>)
    ensures
        r@ == packed_string(s@),
{
    if s.is_empty() {
        let mut r: Vec<u8> = Vec::new();
        r.push(0);
        assert(r@ =~= seq![0u8]);
        return r;
    }
    let units = encode_utf16(s);
    let mut result: Vec<u8> = Vec::new();
    result.push(((units.len() % 256 + 1) % 256) as u8);
    let ghost u = units@;
    assert(result@ =~= seq![((u.len() + 1) % 256) as u8] + units16_bytes(u.subrange(0, 0)));
    let mut i: usize = 0;
    while i < units.len()
        invariant
            u == units@,
            i <= u.len(),
            result@ == seq![((u.len() + 1) % 256) as u8] + units16_bytes(u.subrange(0, i as int)),
        decreases u.len() - i,
    {
        let b = pack_u16(units[i]);
        push_bytes(&mut result, &b);
        proof {
            let sub = u.subrange(0, i + 1);
            assert(sub.drop_last() =~= u.subrange(0, i as int));
            assert(result@ =~= seq![((u.len() + 1) % 256) as u8] + units16_bytes(sub));
        }
        i = i + 1;
    }
    let z = pack_u16(0);
    push_bytes(&mut result, &z);
    proof {
        assert(u.subrange(0, i as int) =~= u);
        assert(u.push(0u16).drop_last() =~= u);
        assert(result@ =~= seq![((u.len() + 1) % 256) as u8] + units16_bytes(u.push(0u16)));
    }
    result
}

/// The message of the error `unpack_string` gives for bytes it refuses: no
/// length byte, fewer bytes than the length byte announces, or code units
/// that are not valid UTF-16.
pub open spec fn unpack_string_error(buf: Seq<u8>) -> Seq<char> {
    if buf.len() == 0 {
        "insufficient bytes for string length"@
    } else if buf.len() < 1 + 2 * buf[0] {
        "insufficient bytes for string: need "@ + decimal((1 + 2 * buf[0]) as nat) + ", have "@
            + decimal(buf.len())
    } else {
        "invalid UTF-16 encoding"@
    }
}

/// Unpack an MTP string from a buffer.
///
/// Returns the decoded string and the number of bytes consumed.
pub fn unpack_string(buf: &[u8]) -> (r: Result<(String, usize), Error>)
    ensures
        r is Ok <==> unpacked_string(buf@) is Some,
        r matches Ok((s, n)) ==> unpacked_string(buf@) == Some((s@, n as int)),
        r matches Err(e) ==> is_invalid_data_with(e, unpack_string_error(buf@)),
{
    if buf.is_empty() {
        return Err(data_error("insufficient bytes for string length"));
    }
    let len = buf[0] as usize;
    if len == 0 {
        return Ok((string_from_chars(Vec::new()), 1));
    }
    let required = 1 + len * 2;
    if buf.len() < required {
        return Err(data_error_counts("insufficient bytes for string: need ", required as u64, ", have ", buf.len() as u64));
    }
    let mut code_units: Vec<u16> = Vec::new();
    let mut i: usize = 0;
    while i < len
        invariant
            len == buf@[0],
            1 + 2 * len <= buf@.len(),
            i <= len,
            code_units@ =~= string_units(buf@, len as int).subrange(0, i as int),
        decreases len - i,
    {
        let offset = 1 + i * 2;
        let v = buf[offset] as u16 + 256 * (buf[offset + 1] as u16);
        assert(v == u16_at(buf@, 1, i as int));
        code_units.push(v);
        i = i + 1;
    }
    assert(code_units@ =~= string_units(buf@, len as int));
    if code_units.len() > 0 && code_units[code_units.len() - 1] == 0 {
        code_units.pop();
    }
    assert(code_units@ =~= strip_terminator(string_units(buf@, len as int)));
    match decode_utf16_units(code_units.as_slice()) {
        Some(chars) => Ok((string_from_chars(chars), required)),
        None => Err(data_error("invalid UTF-16 encoding")),
    }
}

/// Unpacking a packed string, followed by any further bytes, gives the string
/// back and consumes exactly the packed bytes, when the string has at most 254
/// UTF-16 code units (the length byte counts up to 255 units with the null).
pub proof fn lemma_string_roundtrip(s: Seq<char>, rest: Seq<u8>)
    requires
        utf16_units(s).len() <= 254,
    ensures
        unpacked_string(packed_string(s) + rest) == Some((s, packed_string(s).len() as int)),
{
    let b = packed_string(s) + rest;
    if s.len() == 0 {
        assert(b[0] == 0);
    } else {
        let u = utf16_units(s);
        let n = u.len() + 1;
        lemma_decode_char(s[0], utf16_units(s.drop_first()));
        assert(u.len() >= 1);
        lemma_units16_layout(u.push(0u16));
        assert(b[0] == n);
        assert(packed_string(s).len() == 1 + 2 * n);
        assert(string_units(b, n as int) =~= u.push(0u16)) by {
            assert forall|i: int| 0 <= i < n implies #[trigger] string_units(b, n as int)[i] == u.push(0u16)[i] by {
                assert(b.subrange(1 + 2 * i, 1 + 2 * i + 2) =~= units16_bytes(u.push(0u16)).subrange(2 * i, 2 * i + 2));
                lemma_le16_bytes16(u.push(0u16)[i] as int);
            }
        }
        assert(u.push(0u16).drop_last() =~= u);
        lemma_decode_utf16_units(s);
    }
}

} // verus!
