//! Device descriptions and connection settings.

use vstd::prelude::*;
use std::time::Duration;
use crate::ptp::datetime::digit_char;
use crate::text::{chars_of, contains_run, decimal, push_decimal, seq_contains_run, string_from_chars, to_lowercase, unicode_lowercase};

verus! {

/// What `Duration::from_secs` of std returns for a number of seconds.
pub uninterp spec fn duration_of_secs(secs: u64) -> Duration;

/// `Duration::from_secs` of std: the duration of `secs` whole seconds; the
/// contract names it `duration_of_secs` and says nothing more.
pub assume_specification[ core::time::Duration::from_secs ](secs: u64) -> (r: Duration)
    ensures
        r == duration_of_secs(secs),
;

/// Default operation timeout, in seconds.
pub const DEFAULT_TIMEOUT_SECS: u64 = 30;

/// Information about an MTP device (without opening it).
#[derive(Debug, Clone)]
pub struct MtpDeviceInfo {
    /// USB bus number
    pub bus: u8,
    /// USB device address
    pub address: u8,
    /// USB vendor ID
    pub vendor_id: u16,
    /// USB product ID
    pub product_id: u16,
}

/// The lowercase hexadecimal digit of a value 0..=15.
pub open spec fn hex_digit(d: int) -> char {
    if d < 10 {
        digit_char(d)
    } else {
        (d - 10 + 'a' as int) as char
    }
}

/// A 16-bit value as four lowercase hexadecimal digits.
pub open spec fn hex4(v: u16) -> Seq<char> {
    let n = v as int;
    seq![hex_digit(n / 4096), hex_digit((n / 256) % 16), hex_digit((n / 16) % 16), hex_digit(n % 16)]
}

/// The text `display` gives: "vvvv:pppp at bus:address", the vendor and
/// product ids in four lowercase hexadecimal digits, bus and address in
/// decimal.
pub open spec fn device_display_text(info: MtpDeviceInfo) -> Seq<char> {
    hex4(info.vendor_id) + seq![':'] + hex4(info.product_id) + seq![' ', 'a', 't', ' ']
        + decimal(info.bus as nat) + seq![':'] + decimal(info.address as nat)
}

/// The character of a hexadecimal digit value.
fn hex_char(d: u16) -> (c: char)
    requires
        d < 16,
    ensures
        c == hex_digit(d as int),
{
    let code: u32 = if d < 10 { 48 + d as u32 } else { 87 + d as u32 };
    match char::from_u32(code) {
        Some(c) => c,
        None => '0',
    }
}

/// Appends four lowercase hexadecimal digits of `v`.
fn push_hex4(out: &mut Vec<char>, v: u16)
    ensures
        final(out)@ == old(out)@ + hex4(v),
{
    out.push(hex_char(v / 4096));
    out.push(hex_char((v / 256) % 16));
    out.push(hex_char((v / 16) % 16));
    out.push(hex_char(v % 16));
    assert(final(out)@ =~= old(out)@ + hex4(v));
}

impl MtpDeviceInfo {
    /// Format the device info for display.
    pub fn display(&self) -> (r: String)
        ensures
            r@ == device_display_text(*self),
    {
        let mut out: Vec<char> = Vec::new();
        push_hex4(&mut out, self.vendor_id);
        out.push(':');
        push_hex4(&mut out, self.product_id);
        out.push(' ');
        out.push('a');
        out.push('t');
        out.push(' ');
        push_decimal(&mut out, self.bus as u64);
        out.push(':');
        push_decimal(&mut out, self.address as u64);
        assert(out@ =~= device_display_text(*self));
        string_from_chars(out)
    }
}

/// Builder for MtpDevice configuration.
pub struct MtpDeviceBuilder {
    /// Operation timeout.
    pub timeout: Duration,
}

impl MtpDeviceBuilder {
    /// Create a new builder with default settings (30-second timeout).
    pub fn new() -> (r: Self)
        ensures
            r.timeout == duration_of_secs(DEFAULT_TIMEOUT_SECS),
    {
        MtpDeviceBuilder { timeout: Duration::from_secs(DEFAULT_TIMEOUT_SECS) }
    }

    /// Set operation timeout (default: 30 seconds).
    pub fn timeout(self, timeout: Duration) -> (r: Self)
        ensures
            r.timeout == timeout,
    {
        MtpDeviceBuilder { timeout }
    }
}

impl Default for MtpDeviceBuilder {
    fn default() -> (r: Self)
        ensures
            r.timeout == duration_of_secs(DEFAULT_TIMEOUT_SECS),
    {
        Self::new()
    }
}

/// Whether a vendor extension description names Android: its lowercase
/// form contains "android.com".
pub open spec fn is_android_desc(desc: Seq<char>) -> bool {
    seq_contains_run(unicode_lowercase(desc), seq!['a', 'n', 'd', 'r', 'o', 'i', 'd', '.', 'c', 'o', 'm'])
}

/// Check if a device is an Android device, from its vendor extension
/// descriptor.
///
/// Detected by looking for "android.com" in the vendor extension descriptor.
/// Android devices have known MTP quirks (e.g., ObjectHandle::ALL doesn't work
/// for recursive listing).
pub fn is_android(vendor_extension_desc: &str) -> (r: bool)
    ensures
        r == is_android_desc(vendor_extension_desc@),
{
    let lower = to_lowercase(vendor_extension_desc);
    let hay = chars_of(lower.as_str());
    let needle = chars_of("android.com");
    proof {
        reveal_strlit("android.com");
        assert(needle@ =~= seq!['a', 'n', 'd', 'r', 'o', 'i', 'd', '.', 'c', 'o', 'm']);
    }
    contains_run(hay.as_slice(), needle.as_slice())
}

/// Android detection is case insensitive: descriptors with the same
/// lowercase form are judged alike.
pub proof fn lemma_android_case_insensitive(a: Seq<char>, b: Seq<char>)
    requires
        unicode_lowercase(a) == unicode_lowercase(b),
    ensures
        is_android_desc(a) == is_android_desc(b),
{
}

} // verus!
