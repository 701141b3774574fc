//! Which physical USB location a device sits at: a location recorded by the
//! platform's device registry for the device's identity, or else one made
//! from the bus and address the device was enumerated at.

use vstd::prelude::*;

verus! {

/// A location recorded for a device identity (vendor, product and, when the
/// registry reports one, serial number).
#[derive(Debug, Clone)]
pub struct KnownLocation {
    /// USB vendor ID
    pub vendor_id: u16,
    /// USB product ID
    pub product_id: u16,
    /// Serial number, when the registry reports one
    pub serial: Option<String>,
    /// Physical location identifier
    pub location_id: u64,
}

/// The characters of an optional serial number.
pub open spec fn serial_view(serial: Option<String>) -> Option<Seq<char>> {
    match serial {
        Some(s) => Some(s@),
        None => None,
    }
}

/// Whether a recorded location belongs to this identity.
pub open spec fn entry_matches(
    entry: KnownLocation,
    vendor_id: u16,
    product_id: u16,
    serial: Option<Seq<char>>,
) -> bool {
    &&& entry.vendor_id == vendor_id
    &&& entry.product_id == product_id
    &&& serial_view(entry.serial) == serial
}

/// The location of the first entry from index `i` on that belongs to this
/// identity.
pub open spec fn lookup_from(
    known: Seq<KnownLocation>,
    i: int,
    vendor_id: u16,
    product_id: u16,
    serial: Option<Seq<char>>,
) -> Option<u64>
    decreases known.len() - i,
{
    if i < 0 || i >= known.len() {
        None
    } else if entry_matches(known[i], vendor_id, product_id, serial) {
        Some(known[i].location_id)
    } else {
        lookup_from(known, i + 1, vendor_id, product_id, serial)
    }
}

/// The recorded location of an identity: that of its first entry.
pub open spec fn lookup_location(
    known: Seq<KnownLocation>,
    vendor_id: u16,
    product_id: u16,
    serial: Option<Seq<char>>,
) -> Option<u64> {
    lookup_from(known, 0, vendor_id, product_id, serial)
}

/// Whether no two recorded locations have the same identity, as in a table
/// keyed by identity.
pub open spec fn identities_distinct(known: Seq<KnownLocation>) -> bool {
    forall|i: int, j: int|
        0 <= i < j < known.len() ==> !entry_matches(
            #[trigger] known[i],
            known[j].vendor_id,
            known[j].product_id,
            serial_view(#[trigger] known[j].serial),
        )
}

/// With distinct identities, the recorded location of an identity is that of
/// the one entry that has it.
proof fn lemma_lookup_finds_entry(
    known: Seq<KnownLocation>,
    k: int,
    i: int,
    vendor_id: u16,
    product_id: u16,
    serial: Option<Seq<char>>,
)
    requires
        identities_distinct(known),
        0 <= k <= i < known.len(),
        entry_matches(known[i], vendor_id, product_id, serial),
    ensures
        lookup_from(known, k, vendor_id, product_id, serial) == Some(known[i].location_id),
    decreases i - k,
{
    if k < i {
        assert(!entry_matches(known[k], known[i].vendor_id, known[i].product_id, serial_view(known[i].serial)));
        lemma_lookup_finds_entry(known, k + 1, i, vendor_id, product_id, serial);
    }
}

/// Whether every character is an ASCII decimal digit.
pub open spec fn all_digits(s: Seq<char>) -> bool {
    forall|i: int| 0 <= i < s.len() ==> '0' <= #[trigger] s[i] <= '9'
}

/// The value of a run of decimal digits.
pub open spec fn digits_value(s: Seq<char>) -> int
    decreases s.len(),
{
    if s.len() == 0 {
        0
    } else {
        digits_value(s.drop_last()) * 10 + (s.last() as int - '0' as int)
    }
}

/// What `str::parse::<u64>` of std gives for a text: an optional `+` sign
/// followed by one or more decimal digits is read as their value when it fits
/// in 64 bits; anything else is refused (`None`).
pub open spec fn parsed_u64(s: Seq<char>) -> Option<u64> {
    let d = if s.len() > 0 && s[0] == '+' {
        s.drop_first()
    } else {
        s
    };
    if d.len() > 0 && all_digits(d) && digits_value(d) <= u64::MAX {
        Some(digits_value(d) as u64)
    } else {
        None
    }
}

/// The runs of digits that begin a run of digits have no larger value, and
/// no value below zero.
proof fn lemma_digits_prefix(d: Seq<char>, i: int, j: int)
    requires
        all_digits(d),
        0 <= i <= j <= d.len(),
    ensures
        0 <= digits_value(d.take(i)) <= digits_value(d.take(j)),
    decreases j,
{
    if j == 0 {
        assert(d.take(0) =~= Seq::<char>::empty());
    } else if i == j {
        lemma_digits_prefix(d, i - 1, i - 1);
        lemma_digits_prefix(d, 0, j - 1);
        assert(d.take(j).drop_last() =~= d.take(j - 1));
        assert('0' <= d[j - 1] <= '9');
    } else {
        lemma_digits_prefix(d, i, j - 1);
        assert(d.take(j).drop_last() =~= d.take(j - 1));
        assert('0' <= d[j - 1] <= '9');
    }
}

/// Reads a decimal number as `str::parse::<u64>` of std does (its whole
/// behaviour is `parsed_u64`): an optional `+` sign followed by one or more
/// digits whose value fits in 64 bits.
fn parse_u64(s: &str) -> (r: Option<u64>)
    ensures
        r == parsed_u64(s@),
{
    let v = crate::text::chars_of(s);
    let start: usize = if v.len() > 0 && v[0] == '+' { 1 } else { 0 };
    let ghost d = if s@.len() > 0 && s@[0] == '+' { s@.drop_first() } else { s@ };
    assert(d =~= v@.subrange(start as int, v@.len() as int));
    if start >= v.len() {
        return None;
    }
    let mut acc: u64 = 0;
    let mut i: usize = start;
    assert(d.take(0) =~= Seq::<char>::empty());
    while i < v.len()
        invariant
            start <= i <= v@.len(),
            v@ == s@,
            d == v@.subrange(start as int, v@.len() as int),
            d == (if s@.len() > 0 && s@[0] == '+' { s@.drop_first() } else { s@ }),
            d.len() > 0,
            all_digits(d.take(i - start)),
            acc == digits_value(d.take(i - start)),
        decreases v@.len() - i,
    {
        let c = v[i];
        let ghost k: int = i - start;
        assert(d[k] == c);
        if !('0' <= c && c <= '9') {
            assert(!all_digits(d));
            return None;
        }
        let dig: u64 = (c as u32 - 48) as u64;
        assert(d.take(k + 1).drop_last() =~= d.take(k));
        assert(d.take(k + 1).last() == c);
        assert(all_digits(d.take(k + 1))) by {
            assert forall|m: int| 0 <= m < d.take(k + 1).len() implies '0' <= #[trigger] d.take(k + 1)[m]
                <= '9' by {
                if m < k {
                    assert(d.take(k + 1)[m] == d.take(k)[m]);
                }
            }
        }
        if acc > (u64::MAX - dig) / 10 {
            assert(acc * 10 + dig > u64::MAX) by (nonlinear_arith)
                requires
                    acc > (u64::MAX - dig) / 10,
                    dig <= 9,
            ;
            proof {
                if all_digits(d) {
                    lemma_digits_prefix(d, k + 1, d.len() as int);
                    assert(d.take(d.len() as int) =~= d);
                }
            }
            return None;
        }
        assert(acc * 10 + dig <= u64::MAX) by (nonlinear_arith)
            requires
                acc <= (u64::MAX - dig) / 10,
                dig <= 9,
        ;
        acc = acc * 10 + dig;
        i = i + 1;
    }
    assert(d.take(d.len() as int) =~= d);
    Some(acc)
}

/// The location made from a bus number and a device address: the bus number
/// shifted into the upper 32 bits (its higher bits are shifted out), the
/// address in the lowest byte.
pub open spec fn bus_address_location(bus: u64, address: u8) -> u64 {
    ((bus % 0x1_0000_0000) * 0x1_0000_0000 + address) as u64
}

/// The location of a device: the recorded location for its identity with its
/// serial number; else the one recorded for its vendor and product without a
/// serial (some devices report none before they are opened); else the one
/// made from its bus number (0 when the bus id is not a number) and address.
pub open spec fn device_location(
    known: Seq<KnownLocation>,
    vendor_id: u16,
    product_id: u16,
    serial: Option<Seq<char>>,
    bus_id: Seq<char>,
    address: u8,
) -> u64 {
    match lookup_location(known, vendor_id, product_id, serial) {
        Some(loc) => loc,
        None => match lookup_location(known, vendor_id, product_id, None) {
            Some(loc) => loc,
            None => bus_address_location(
                match parsed_u64(bus_id) {
                    Some(b) => b,
                    None => 0,
                },
                address,
            ),
        },
    }
}

/// Whether two optional serial numbers are the same.
fn same_serial(a: &Option<String>, b: &Option<String>) -> (r: bool)
    ensures
        r == (serial_view(*a) == serial_view(*b)),
{
    match (a, b) {
        (Some(x), Some(y)) => *x == *y,
        (None, None) => true,
        _ => false,
    }
}

/// The recorded location of an identity, if any.
fn lookup(known: &[KnownLocation], vendor_id: u16, product_id: u16, serial: &Option<String>) -> (r:
    Option<u64>)
    ensures
        r == lookup_location(known@, vendor_id, product_id, serial_view(*serial)),
{
    let mut i: usize = 0;
    while i < known.len()
        invariant
            i <= known@.len(),
            lookup_location(known@, vendor_id, product_id, serial_view(*serial)) == lookup_from(
                known@,
                i as int,
                vendor_id,
                product_id,
                serial_view(*serial),
            ),
        decreases known@.len() - i,
    {
        let e = &known[i];
        if e.vendor_id == vendor_id && e.product_id == product_id && same_serial(&e.serial, serial) {
            return Some(e.location_id);
        }
        i = i + 1;
    }
    None
}

/// Find the location id of a device from the locations recorded by the
/// platform's registry (`known`) and, failing those, from its bus id and
/// address.
pub fn find_location_id(
    vendor_id: u16,
    product_id: u16,
    serial: &Option<String>,
    bus_id: &str,
    address: u8,
    known: &[KnownLocation],
) -> (r: u64)
    requires
        identities_distinct(known@),
    ensures
        r == device_location(known@, vendor_id, product_id, serial_view(*serial), bus_id@, address),
        forall|i: int|
            0 <= i < known@.len() && entry_matches(
                #[trigger] known@[i],
                vendor_id,
                product_id,
                serial_view(*serial),
            ) ==> r == known@[i].location_id,
{
    proof {
        assert forall|i: int|
            0 <= i < known@.len() && entry_matches(
                #[trigger] known@[i],
                vendor_id,
                product_id,
                serial_view(*serial),
            ) implies lookup_location(known@, vendor_id, product_id, serial_view(*serial)) == Some(
            known@[i].location_id,
        ) by {
            lemma_lookup_finds_entry(known@, 0, i, vendor_id, product_id, serial_view(*serial));
        }
    }
    if let Some(loc) = lookup(known, vendor_id, product_id, serial) {
        return loc;
    }
    if let Some(loc) = lookup(known, vendor_id, product_id, &None) {
        return loc;
    }
    let bus: u64 = match parse_u64(bus_id) {
        Some(b) => b,
        None => 0,
    };
    let a: u64 = address as u64;
    assert((bus << 32u64) | a == ((bus % 0x1_0000_0000) * 0x1_0000_0000 + a) as u64) by (bit_vector)
        requires
            a < 256,
    ;
    (bus << 32u64) | a
}

} // verus!
