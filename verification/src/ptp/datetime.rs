//! Date and time values in the MTP text form "YYYYMMDDThhmmss".

use vstd::prelude::*;
use crate::error::{data_error_chars, is_invalid_data_with, Error};
use crate::text::{chars_of, push_str, string_from_chars};
use super::strings::{lemma_string_roundtrip, pack_string, packed_string, unpack_string, unpack_string_error, unpacked_string, utf16_units};

verus! {

/// Date and time structure for MTP/PTP.
///
/// Format: "YYYYMMDDThhmmss" (ISO 8601 subset)
#[derive(Debug, Clone, Copy, PartialEq, Eq, Structural, Default)]
pub struct DateTime {
    /// Year (e.g., 2024)
    pub year: u16,
    /// Month (1-12)
    pub month: u8,
    /// Day (1-31)
    pub day: u8,
    /// Hour (0-23)
    pub hour: u8,
    /// Minute (0-59)
    pub minute: u8,
    /// Second (0-59)
    pub second: u8,
}

/// A decimal digit character.
pub open spec fn is_digit(c: char) -> bool {
    '0' <= c && c <= '9'
}

/// The value of a run of decimal digit characters (0 for the empty run).
pub open spec fn digits_value(s: Seq<char>) -> int
    decreases s.len(),
{
    if s.len() == 0 {
        0
    } else {
        digits_value(s.drop_last()) * 10 + (s.last() as int - '0' as int)
    }
}

/// A numeric field as the standard library's unsigned integer parsing reads
/// it: one or more digits, optionally after a single `+`.
pub open spec fn field_value(s: Seq<char>) -> Option<int> {
    if s.len() > 0 && (forall|i: int| 0 <= i < s.len() ==> is_digit(#[trigger] s[i])) {
        Some(digits_value(s))
    } else if s.len() > 1 && s[0] == '+' && (forall|i: int|
        1 <= i < s.len() ==> is_digit(#[trigger] s[i])) {
        Some(digits_value(s.drop_first()))
    } else {
        None
    }
}

/// Whether the components are within the accepted ranges: month 1-12,
/// day 1-31, hour 0-23, minute 0-59, second 0-59.
pub open spec fn datetime_in_range(month: int, day: int, hour: int, minute: int, second: int) -> bool {
    &&& 1 <= month <= 12
    &&& 1 <= day <= 31
    &&& 0 <= hour <= 23
    &&& 0 <= minute <= 59
    &&& 0 <= second <= 59
}

/// The datetime that a string denotes: at least 15 characters, a `T` at
/// position 8, numeric fields year (0..4), month (4..6), day (6..8),
/// hour (9..11), minute (11..13) and second (13..15) within range; anything
/// after position 15 (such as a time zone suffix) is ignored.
pub open spec fn parsed_datetime(s: Seq<char>) -> Option<DateTime> {
    if s.len() < 15 || s[8] != 'T' {
        None
    } else {
        let y = field_value(s.subrange(0, 4));
        let mo = field_value(s.subrange(4, 6));
        let d = field_value(s.subrange(6, 8));
        let h = field_value(s.subrange(9, 11));
        let mi = field_value(s.subrange(11, 13));
        let se = field_value(s.subrange(13, 15));
        if y is None || mo is None || d is None || h is None || mi is None || se is None {
            None
        } else if !datetime_in_range(mo->0, d->0, h->0, mi->0, se->0) {
            None
        } else {
            Some(
                DateTime {
                    year: y->0 as u16,
                    month: mo->0 as u8,
                    day: d->0 as u8,
                    hour: h->0 as u8,
                    minute: mi->0 as u8,
                    second: se->0 as u8,
                },
            )
        }
    }
}

/// The character of a decimal digit value 0..=9.
pub open spec fn digit_char(d: int) -> char {
    (d + '0' as int) as char
}

/// The last `w` decimal digits of `n`, most significant first.
pub open spec fn fixed_digits(n: int, w: nat) -> Seq<char>
    decreases w,
{
    if w == 0 {
        seq![]
    } else {
        fixed_digits(n / 10, (w - 1) as nat).push(digit_char(n % 10))
    }
}

/// Ten to the power `k`.
pub open spec fn pow10(k: nat) -> int
    decreases k,
{
    if k == 0 {
        1
    } else {
        10 * pow10((k - 1) as nat)
    }
}

/// A value in decimal, zero-padded to at least `min` digits.
pub open spec fn padded_decimal(n: int, min: nat) -> Seq<char>
    decreases 6 - min,
{
    if min >= 6 || n < pow10(min) {
        fixed_digits(n, min)
    } else {
        padded_decimal(n, min + 1)
    }
}

/// The MTP text of a datetime: "YYYYMMDDThhmmss", each field zero-padded to
/// its width (a wider value takes as many digits as it needs).
pub open spec fn formatted_datetime(dt: DateTime) -> Seq<char> {
    padded_decimal(dt.year as int, 4) + padded_decimal(dt.month as int, 2) + padded_decimal(
        dt.day as int,
        2,
    ) + seq!['T'] + padded_decimal(dt.hour as int, 2) + padded_decimal(dt.minute as int, 2)
        + padded_decimal(dt.second as int, 2)
}

/// Ten to the power `k` for the widths that occur in a datetime.
proof fn lemma_pow10_table()
    ensures
        pow10(0) == 1,
        pow10(1) == 10,
        pow10(2) == 100,
        pow10(3) == 1000,
        pow10(4) == 10000,
        pow10(5) == 100000,
        pow10(6) == 1000000,
{
    reveal_with_fuel(pow10, 7);
}

/// Appends the last `w` decimal digits of `n`, most significant first.
fn push_fixed_digits(v: &mut Vec<char>, n: u32, w: usize)
    ensures
        final(v)@ == old(v)@ + fixed_digits(n as int, w as nat),
    decreases w,
{
    if w > 0 {
        push_fixed_digits(v, n / 10, w - 1);
        let d: u32 = n % 10;
        let c = match char::from_u32(d + 48) {
            Some(c) => c,
            None => '0',
        };
        v.push(c);
        assert(v@ =~= old(v)@ + fixed_digits(n as int, w as nat));
    }
}

/// Appends `n` in decimal, zero-padded to at least `min` digits; `bound` is
/// ten to the power `min`.
fn push_padded(v: &mut Vec<char>, n: u32, min: usize, bound: u32)
    requires
        min <= 6,
        bound == pow10(min as nat),
    ensures
        final(v)@ == old(v)@ + padded_decimal(n as int, min as nat),
    decreases 6 - min,
{
    if min >= 6 || n < bound {
        push_fixed_digits(v, n, min);
    } else {
        proof {
            lemma_pow10_table();
            assert(min == 0 || min == 1 || min == 2 || min == 3 || min == 4 || min == 5);
        }
        push_padded(v, n, min + 1, bound * 10);
    }
}

/// Reads the numeric field `c[start..end]` as `field_value` does.
fn parse_field(c: &Vec<char>, start: usize, end: usize) -> (r: Option<u32>)
    requires
        start < end <= c@.len(),
        end - start <= 4,
    ensures
        match r {
            Some(x) => field_value(c@.subrange(start as int, end as int)) == Some(x as int),
            None => field_value(c@.subrange(start as int, end as int)) is None,
        },
        r matches Some(x) ==> x < 10000,
{
    let ghost sub = c@.subrange(start as int, end as int);
    let mut first = start;
    if c[start] == '+' {
        if end - start < 2 {
            return None;
        }
        first = start + 1;
    }
    proof {
        lemma_pow10_table();
    }
    let mut i = first;
    let mut val: u32 = 0;
    while i < end
        invariant
            start <= first <= i <= end <= c@.len(),
            end - start <= 4,
            first == start || (first == start + 1 && c@[start as int] == '+'),
            first == start ==> c@[start as int] != '+',
            sub == c@.subrange(start as int, end as int),
            pow10(0) == 1 && pow10(1) == 10 && pow10(2) == 100 && pow10(3) == 1000 && pow10(4) == 10000,
            forall|k: int| first <= k < i ==> is_digit(#[trigger] c@[k]),
            val == digits_value(c@.subrange(first as int, i as int)),
            val < pow10((i - first) as nat),
        decreases end - i,
    {
        let ch = c[i];
        if !('0' <= ch && ch <= '9') {
            assert(sub[i - start] == ch);
            assert(!is_digit(sub[i - start]));
            if first == start + 1 {
                assert(!is_digit(sub[0]));
            }
            return None;
        }
        proof {
            let t = c@.subrange(first as int, i + 1);
            assert(t.drop_last() =~= c@.subrange(first as int, i as int));
            assert(i - first < 4);
            assert(i - first == 0 || i - first == 1 || i - first == 2 || i - first == 3);
        }
        val = val * 10 + (ch as u32 - 48);
        i = i + 1;
    }
    proof {
        assert(i - first == 0 || i - first == 1 || i - first == 2 || i - first == 3 || i - first == 4);
        if first == start {
            assert(sub =~= c@.subrange(first as int, end as int));
            assert forall|k: int| 0 <= k < sub.len() implies is_digit(#[trigger] sub[k]) by {
                assert(sub[k] == c@[start + k]);
            }
        } else {
            assert(sub.drop_first() =~= c@.subrange(first as int, end as int));
            assert(!is_digit(sub[0]));
            assert forall|k: int| 1 <= k < sub.len() implies is_digit(#[trigger] sub[k]) by {
                assert(sub[k] == c@[start + k]);
            }
        }
    }
    Some(val)
}

impl DateTime {
    /// Parse a datetime string in MTP format.
    ///
    /// Format: "YYYYMMDDThhmmss" with optional timezone suffix (Z or +hhmm/-hhmm).
    /// The timezone suffix is parsed but ignored.
    pub fn parse(s: &str) -> (r: Option<DateTime>)
        ensures
            r == parsed_datetime(s@),
    {
        let c = chars_of(s);
        if c.len() < 15 || c[8] != 'T' {
            return None;
        }
        let year = match parse_field(&c, 0, 4) {
            Some(x) => x,
            None => return None,
        };
        let month = match parse_field(&c, 4, 6) {
            Some(x) => x,
            None => return None,
        };
        let day = match parse_field(&c, 6, 8) {
            Some(x) => x,
            None => return None,
        };
        let hour = match parse_field(&c, 9, 11) {
            Some(x) => x,
            None => return None,
        };
        let minute = match parse_field(&c, 11, 13) {
            Some(x) => x,
            None => return None,
        };
        let second = match parse_field(&c, 13, 15) {
            Some(x) => x,
            None => return None,
        };
        if month < 1 || month > 12 || day < 1 || day > 31 || hour > 23 || minute > 59 || second > 59 {
            return None;
        }
        Some(
            DateTime {
                year: year as u16,
                month: month as u8,
                day: day as u8,
                hour: hour as u8,
                minute: minute as u8,
                second: second as u8,
            },
        )
    }

    /// Format the datetime as an MTP string.
    ///
    /// Returns "YYYYMMDDThhmmss" format.
    pub fn format(&self) -> (r: String)
        ensures
            r@ == formatted_datetime(*self),
    {
        proof {
            lemma_pow10_table();
        }
        let mut v: Vec<char> = Vec::new();
        push_padded(&mut v, self.year as u32, 4, 10000);
        push_padded(&mut v, self.month as u32, 2, 100);
        push_padded(&mut v, self.day as u32, 2, 100);
        v.push('T');
        push_padded(&mut v, self.hour as u32, 2, 100);
        push_padded(&mut v, self.minute as u32, 2, 100);
        push_padded(&mut v, self.second as u32, 2, 100);
        assert(v@ =~= formatted_datetime(*self));
        string_from_chars(v)
    }
}

/// What `unpack_datetime` reads from the front of `buf`: the MTP string
/// there, which is either empty (no datetime) or a datetime text, with the
/// number of bytes the string takes; `None` when the string cannot be read or
/// is not a datetime.
pub open spec fn unpacked_datetime(buf: Seq<u8>) -> Option<(Option<DateTime>, int)> {
    match unpacked_string(buf) {
        None => None,
        Some((s, n)) => if s.len() == 0 {
            Some((None, n))
        } else {
            match parsed_datetime(s) {
                Some(dt) => Some((Some(dt), n)),
                None => None,
            }
        },
    }
}

/// The message of the error `unpack_datetime` gives for bytes it refuses:
/// that of `unpack_string` when the string cannot be read, else the text that
/// is not a datetime after "invalid datetime format: ".
pub open spec fn unpack_datetime_error(buf: Seq<u8>) -> Seq<char> {
    match unpacked_string(buf) {
        None => unpack_string_error(buf),
        Some((s, _)) => "invalid datetime format: "@ + s,
    }
}

/// Pack a DateTime into MTP string format.
pub fn pack_datetime(dt: &DateTime) -> (r: Vec<u8>)
    ensures
        r@ == packed_string(formatted_datetime(*dt)),
{
    let s = dt.format();
    pack_string(s.as_str())
}

/// Unpack a DateTime from a buffer.
///
/// Returns the datetime (or None for empty string) and the number of bytes consumed.
pub fn unpack_datetime(buf: &[u8]) -> (r: Result<(Option<DateTime>, usize), Error>)
    ensures
        r is Ok <==> unpacked_datetime(buf@) is Some,
        r matches Ok((dt, n)) ==> unpacked_datetime(buf@) == Some((dt, n as int)),
        r matches Err(e) ==> is_invalid_data_with(e, unpack_datetime_error(buf@)),
{
    let (s, consumed) = match unpack_string(buf) {
        Ok(x) => x,
        Err(e) => return Err(e),
    };
    if s.as_str().is_empty() {
        return Ok((None, consumed));
    }
    match DateTime::parse(s.as_str()) {
        Some(dt) => Ok((Some(dt), consumed)),
        None => {
            let mut msg = chars_of("invalid datetime format: ");
            push_str(&mut msg, s.as_str());
            Err(data_error_chars(msg))
        },
    }
}

/// The last `w` digits of a value below ten to the power `w` are `w` digit
/// characters that read back as the value.
proof fn lemma_fixed_digits(n: int, w: nat)
    requires
        0 <= n < pow10(w),
    ensures
        fixed_digits(n, w).len() == w,
        forall|i: int| 0 <= i < w ==> is_digit(#[trigger] fixed_digits(n, w)[i]),
        digits_value(fixed_digits(n, w)) == n,
    decreases w,
{
    if w > 0 {
        let m = n / 10;
        let d = n % 10;
        assert(0 <= m < pow10((w - 1) as nat));
        lemma_fixed_digits(m, (w - 1) as nat);
        let f = fixed_digits(n, w);
        assert(f == fixed_digits(m, (w - 1) as nat).push(digit_char(d)));
        assert(f.drop_last() =~= fixed_digits(m, (w - 1) as nat));
        assert(digit_char(d) as int == d + 48);
        assert forall|i: int| 0 <= i < w implies is_digit(#[trigger] f[i]) by {
            if i < w - 1 {
                assert(f[i] == fixed_digits(m, (w - 1) as nat)[i]);
            }
        }
    }
}

/// The text of a datetime whose year has at most four digits and whose
/// two-digit fields are below 100: the fixed-width digits of each field.
proof fn lemma_formatted_fields(dt: DateTime)
    requires
        dt.year <= 9999,
        dt.month <= 99 && dt.day <= 99 && dt.hour <= 99 && dt.minute <= 99 && dt.second <= 99,
    ensures
        formatted_datetime(dt) == fixed_digits(dt.year as int, 4) + fixed_digits(dt.month as int, 2)
            + fixed_digits(dt.day as int, 2) + seq!['T'] + fixed_digits(dt.hour as int, 2)
            + fixed_digits(dt.minute as int, 2) + fixed_digits(dt.second as int, 2),
{
    lemma_pow10_table();
}

/// Formatting a datetime whose fields are within range and whose year has at
/// most four digits, then parsing the text, gives the same datetime back.
pub proof fn lemma_format_parse_roundtrip(dt: DateTime)
    requires
        dt.year <= 9999,
        datetime_in_range(dt.month as int, dt.day as int, dt.hour as int, dt.minute as int, dt.second as int),
    ensures
        parsed_datetime(formatted_datetime(dt)) == Some(dt),
{
    lemma_pow10_table();
    lemma_formatted_fields(dt);
    let y = fixed_digits(dt.year as int, 4);
    let mo = fixed_digits(dt.month as int, 2);
    let d = fixed_digits(dt.day as int, 2);
    let h = fixed_digits(dt.hour as int, 2);
    let mi = fixed_digits(dt.minute as int, 2);
    let se = fixed_digits(dt.second as int, 2);
    lemma_fixed_digits(dt.year as int, 4);
    lemma_fixed_digits(dt.month as int, 2);
    lemma_fixed_digits(dt.day as int, 2);
    lemma_fixed_digits(dt.hour as int, 2);
    lemma_fixed_digits(dt.minute as int, 2);
    lemma_fixed_digits(dt.second as int, 2);
    let s = formatted_datetime(dt);
    assert(s.len() == 15);
    assert(s[8] == 'T');
    assert(s.subrange(0, 4) =~= y);
    assert(s.subrange(4, 6) =~= mo);
    assert(s.subrange(6, 8) =~= d);
    assert(s.subrange(9, 11) =~= h);
    assert(s.subrange(11, 13) =~= mi);
    assert(s.subrange(13, 15) =~= se);
    assert(field_value(y) == Some(dt.year as int));
    assert(field_value(mo) == Some(dt.month as int));
    assert(field_value(d) == Some(dt.day as int));
    assert(field_value(h) == Some(dt.hour as int));
    assert(field_value(mi) == Some(dt.minute as int));
    assert(field_value(se) == Some(dt.second as int));
}

/// The UTF-16 form of a datetime text that `lemma_format_parse_roundtrip`
/// covers has one unit per character.
proof fn lemma_formatted_units(dt: DateTime)
    requires
        dt.year <= 9999,
        datetime_in_range(dt.month as int, dt.day as int, dt.hour as int, dt.minute as int, dt.second as int),
    ensures
        utf16_units(formatted_datetime(dt)).len() == 15,
{
    lemma_pow10_table();
    lemma_formatted_fields(dt);
    let y = fixed_digits(dt.year as int, 4);
    let mo = fixed_digits(dt.month as int, 2);
    let d = fixed_digits(dt.day as int, 2);
    let h = fixed_digits(dt.hour as int, 2);
    let mi = fixed_digits(dt.minute as int, 2);
    let se = fixed_digits(dt.second as int, 2);
    lemma_fixed_digits(dt.year as int, 4);
    lemma_fixed_digits(dt.month as int, 2);
    lemma_fixed_digits(dt.day as int, 2);
    lemma_fixed_digits(dt.hour as int, 2);
    lemma_fixed_digits(dt.minute as int, 2);
    lemma_fixed_digits(dt.second as int, 2);
    let s = formatted_datetime(dt);
    assert forall|i: int| 0 <= i < s.len() implies (#[trigger] s[i] as u32) < 0x10000 by {
        if i < 4 {
            assert(is_digit(y[i]));
        } else if i < 6 {
            assert(is_digit(mo[i - 4]));
        } else if i < 8 {
            assert(is_digit(d[i - 6]));
        } else if i == 8 {
        } else if i < 11 {
            assert(is_digit(h[i - 9]));
        } else if i < 13 {
            assert(is_digit(mi[i - 11]));
        } else {
            assert(is_digit(se[i - 13]));
        }
    }
    lemma_bmp_units_len(s);
}

/// A character sequence without characters beyond U+FFFF has one UTF-16 unit
/// per character.
proof fn lemma_bmp_units_len(s: Seq<char>)
    requires
        forall|i: int| 0 <= i < s.len() ==> (#[trigger] s[i] as u32) < 0x10000,
    ensures
        utf16_units(s).len() == s.len(),
    decreases s.len(),
{
    if s.len() > 0 {
        let t = s.drop_first();
        assert forall|i: int| 0 <= i < t.len() implies (#[trigger] t[i] as u32) < 0x10000 by {
            assert(t[i] == s[i + 1]);
        }
        lemma_bmp_units_len(t);
        assert((s[0] as u32) < 0x10000);
    }
}

/// Unpacking a packed datetime (fields within range, year of at most four
/// digits), followed by any further bytes, gives the datetime back and
/// consumes exactly the packed bytes.
pub proof fn lemma_datetime_pack_roundtrip(dt: DateTime, rest: Seq<u8>)
    requires
        dt.year <= 9999,
        datetime_in_range(dt.month as int, dt.day as int, dt.hour as int, dt.minute as int, dt.second as int),
    ensures
        unpacked_datetime(packed_string(formatted_datetime(dt)) + rest) == Some(
            (Some(dt), packed_string(formatted_datetime(dt)).len() as int),
        ),
{
    let s = formatted_datetime(dt);
    lemma_format_parse_roundtrip(dt);
    lemma_formatted_units(dt);
    lemma_string_roundtrip(s, rest);
}

/// A datetime string read by `unpacked_datetime` takes at least one byte and
/// no more than the buffer holds.
pub proof fn lemma_unpacked_datetime_within(buf: Seq<u8>)
    ensures
        unpacked_datetime(buf) matches Some((d, n)) ==> 1 <= n <= buf.len(),
{
}

/// A time zone suffix (anything after the 15 characters of the datetime)
/// is ignored.
pub proof fn lemma_parse_ignores_suffix(s: Seq<char>, suffix: Seq<char>)
    requires
        s.len() >= 15,
    ensures
        parsed_datetime(s + suffix) == parsed_datetime(s),
{
    let t = s + suffix;
    assert(t.subrange(0, 4) =~= s.subrange(0, 4));
    assert(t.subrange(4, 6) =~= s.subrange(4, 6));
    assert(t.subrange(6, 8) =~= s.subrange(6, 8));
    assert(t.subrange(9, 11) =~= s.subrange(9, 11));
    assert(t.subrange(11, 13) =~= s.subrange(11, 13));
    assert(t.subrange(13, 15) =~= s.subrange(13, 15));
    assert(t[8] == s[8]);
}

} // verus!
