//! The pure rules of the USB transport: which interfaces speak MTP, how
//! transfer sizes are aligned, and how transfer failures are reported.

use vstd::prelude::*;

pub mod location;
pub mod virtual_device;

use crate::error::{data_error, error_is_retryable, is_invalid_data_with, Error};

verus! {

/// MTP interface class code (Still Image).
pub const MTP_CLASS_IMAGE: u8 = 0x06;
/// MTP interface class code (Vendor-specific).
pub const MTP_CLASS_VENDOR: u8 = 0xFF;
/// MTP subclass code.
pub const MTP_SUBCLASS: u8 = 0x01;
/// MTP protocol code (PTP).
pub const MTP_PROTOCOL: u8 = 0x01;

/// Check if class/subclass/protocol match MTP: class Still Image or
/// vendor-specific, subclass 1, protocol 1.
pub fn is_mtp_class(class: u8, subclass: u8, protocol: u8) -> (r: bool)
    ensures
        r == ((class == 0x06 || class == 0xFF) && subclass == 0x01 && protocol == 0x01),
{
    (class == MTP_CLASS_IMAGE || class == MTP_CLASS_VENDOR) && subclass == MTP_SUBCLASS && protocol
        == MTP_PROTOCOL
}

/// The size of an IN transfer for `size` bytes on an endpoint whose packets
/// hold `packet_size` bytes: the smallest nonzero multiple of `packet_size`
/// that is at least `size` (at least 1 when the packet size is unknown).
pub open spec fn aligned_size(size: int, packet_size: int) -> int {
    if packet_size == 0 {
        if size >= 1 { size } else { 1 }
    } else if size == 0 {
        packet_size
    } else if size % packet_size == 0 {
        size
    } else {
        (size / packet_size + 1) * packet_size
    }
}

/// Round `size` up to the nearest multiple of `packet_size`.
///
/// nusb 0.2 requires that IN transfer buffer sizes are non-zero multiples of
/// the endpoint's maximum packet size.
pub fn align_to_packet_size(size: usize, packet_size: usize) -> (r: usize)
    requires
        aligned_size(size as int, packet_size as int) <= usize::MAX,
    ensures
        r == aligned_size(size as int, packet_size as int),
{
    if packet_size == 0 {
        return if size >= 1 { size } else { 1 };
    }
    if size == 0 {
        return packet_size;
    }
    if size % packet_size == 0 {
        size
    } else {
        proof {
            vstd::arithmetic::div_mod::lemma_div_decreases(size as int, packet_size as int);
        }
        let blocks = size / packet_size + 1;
        assert(blocks * packet_size == aligned_size(size as int, packet_size as int));
        blocks * packet_size
    }
}

/// An aligned size is a nonzero multiple of the packet size that is at
/// least the requested size and less than one packet more.
pub proof fn lemma_aligned_size(size: int, packet_size: int)
    requires
        size >= 0,
        packet_size > 0,
    ensures
        aligned_size(size, packet_size) > 0,
        aligned_size(size, packet_size) % packet_size == 0,
        aligned_size(size, packet_size) >= size,
        aligned_size(size, packet_size) < size + packet_size || size == 0,
{
    if size > 0 && size % packet_size != 0 {
        let q = size / packet_size;
        vstd::arithmetic::div_mod::lemma_fundamental_div_mod(size, packet_size);
        vstd::arithmetic::div_mod::lemma_mod_multiples_basic(q + 1, packet_size);
        vstd::arithmetic::mul::lemma_mul_is_distributive_add_other_way(packet_size, q, 1);
        assert(packet_size * q == q * packet_size) by {
            vstd::arithmetic::mul::lemma_mul_is_commutative(packet_size, q);
        }
    } else if size > 0 {
        vstd::arithmetic::div_mod::lemma_fundamental_div_mod(size, packet_size);
        vstd::arithmetic::div_mod::lemma_mod_multiples_basic(size / packet_size, packet_size);
        vstd::arithmetic::mul::lemma_mul_is_commutative(packet_size, size / packet_size);
    } else {
        vstd::arithmetic::div_mod::lemma_mod_multiples_basic(1, packet_size);
    }
}

/// How a USB transfer failed.
#[derive(Debug, Clone, Copy, PartialEq, Eq, Structural)]
pub enum TransferFailure {
    /// Transfer was cancelled or timed out.
    Cancelled,
    /// Endpoint in a STALL condition.
    Stall,
    /// Device disconnected.
    Disconnected,
    /// Hardware issue or protocol violation.
    Fault,
    /// The request has an invalid argument or is not supported by this OS.
    InvalidArgument,
    /// Unknown or OS-specific error.
    Unknown(u32),
}

/// The library error for a transfer failure, when it has one of its own: a
/// cancelled transfer (the transport never cancels, so this is an expired
/// timeout) is a timeout, a disconnection is a disconnection; any other
/// failure (`None`) is reported as an I/O error carrying its description.
pub fn transfer_failure_error(failure: TransferFailure) -> (r: Option<Error>)
    ensures
        failure == TransferFailure::Cancelled ==> r matches Some(Error::Timeout),
        failure == TransferFailure::Disconnected ==> r matches Some(Error::Disconnected),
        failure != TransferFailure::Cancelled && failure != TransferFailure::Disconnected ==> r is None,
{
    match failure {
        TransferFailure::Cancelled => Some(Error::Timeout),
        TransferFailure::Disconnected => Some(Error::Disconnected),
        _ => None,
    }
}

/// A timed-out transfer is reported as an error worth retrying.
pub proof fn lemma_timeout_is_retryable()
    ensures
        error_is_retryable(Error::Timeout),
        !error_is_retryable(Error::Disconnected),
{
}

/// Whether a device announces MTP without being opened: its own
/// class/subclass/protocol are MTP's, or it is a composite device (class 0)
/// one of whose interfaces (class, subclass, protocol) is.
pub open spec fn announces_mtp(class: u8, subclass: u8, protocol: u8, interfaces: Seq<(u8, u8, u8)>) -> bool {
    ||| mtp_triple((class, subclass, protocol))
    ||| class == 0 && exists|i: int| 0 <= i < interfaces.len() && mtp_triple(#[trigger] interfaces[i])
}

/// Whether a class/subclass/protocol triple is MTP's.
pub open spec fn mtp_triple(t: (u8, u8, u8)) -> bool {
    (t.0 == 0x06 || t.0 == 0xFF) && t.1 == 0x01 && t.2 == 0x01
}

/// Check the descriptors a device lists before it is opened: the device's
/// own class triple, then, for a composite device (class 0), each
/// interface's.
pub fn device_announces_mtp(class: u8, subclass: u8, protocol: u8, interfaces: &Vec<(u8, u8, u8)>) -> (r: bool)
    ensures
        r == announces_mtp(class, subclass, protocol, interfaces@),
{
    if is_mtp_class(class, subclass, protocol) {
        return true;
    }
    if class == 0 {
        let mut i: usize = 0;
        while i < interfaces.len()
            invariant
                i <= interfaces@.len(),
                class == 0,
                forall|j: int| 0 <= j < i ==> !mtp_triple(#[trigger] interfaces@[j]),
            decreases interfaces@.len() - i,
        {
            let (c, s, p) = interfaces[i];
            if is_mtp_class(c, s, p) {
                assert(mtp_triple(interfaces@[i as int]));
                return true;
            }
            i = i + 1;
        }
    }
    false
}

/// Direction of an endpoint.
#[derive(Debug, Clone, Copy, PartialEq, Eq, Structural)]
pub enum EndpointDirection {
    /// Device to host.
    In,
    /// Host to device.
    Out,
}

/// Transfer type of an endpoint.
#[derive(Debug, Clone, Copy, PartialEq, Eq, Structural)]
pub enum EndpointKind {
    /// Control endpoint.
    Control,
    /// Isochronous endpoint.
    Isochronous,
    /// Bulk endpoint.
    Bulk,
    /// Interrupt endpoint.
    Interrupt,
}

/// An endpoint of an interface's alternate setting.
#[derive(Debug, Clone, Copy, PartialEq, Eq, Structural)]
pub struct EndpointDesc {
    /// Endpoint address.
    pub address: u8,
    /// Direction.
    pub direction: EndpointDirection,
    /// Transfer type.
    pub kind: EndpointKind,
}

/// An interface of the active configuration, with its first alternate
/// setting (if it has one): class triple and endpoints.
#[derive(Debug, Clone)]
pub struct InterfaceDesc {
    /// Interface number.
    pub number: u8,
    /// Class, subclass and protocol of the first alternate setting.
    pub class: Option<(u8, u8, u8)>,
    /// Endpoints of the first alternate setting.
    pub endpoints: Vec<EndpointDesc>,
}

/// The MTP interface and the addresses of its three endpoints.
#[derive(Debug, Clone, Copy, PartialEq, Eq, Structural)]
pub struct MtpEndpoints {
    /// Interface number to claim.
    pub interface_number: u8,
    /// Bulk IN endpoint address.
    pub bulk_in: u8,
    /// Bulk OUT endpoint address.
    pub bulk_out: u8,
    /// Interrupt IN endpoint address.
    pub interrupt_in: u8,
}

/// Whether an interface's first alternate setting is MTP.
pub open spec fn is_mtp_interface(d: InterfaceDesc) -> bool {
    d.class matches Some((c, s, p)) && (c == 0x06 || c == 0xFF) && s == 0x01 && p == 0x01
}

/// The address of the last endpoint of the given direction and type.
pub open spec fn last_endpoint(eps: Seq<EndpointDesc>, direction: EndpointDirection, kind: EndpointKind) -> Option<u8>
    decreases eps.len(),
{
    if eps.len() == 0 {
        None
    } else if eps.last().direction == direction && eps.last().kind == kind {
        Some(eps.last().address)
    } else {
        last_endpoint(eps.drop_last(), direction, kind)
    }
}

/// The endpoints of an MTP interface: its number and the last bulk IN, bulk
/// OUT and interrupt IN endpoints; `None` when one of them is missing.
pub open spec fn interface_endpoints(d: InterfaceDesc) -> Option<MtpEndpoints> {
    let eps = d.endpoints@;
    match (
        last_endpoint(eps, EndpointDirection::In, EndpointKind::Bulk),
        last_endpoint(eps, EndpointDirection::Out, EndpointKind::Bulk),
        last_endpoint(eps, EndpointDirection::In, EndpointKind::Interrupt),
    ) {
        (Some(bulk_in), Some(bulk_out), Some(interrupt_in)) => Some(
            MtpEndpoints { interface_number: d.number, bulk_in, bulk_out, interrupt_in },
        ),
        _ => None,
    }
}

/// The message of the error for an MTP interface that lacks one of its
/// endpoints: the first missing of bulk IN, bulk OUT and interrupt IN.
pub open spec fn missing_endpoint_message(d: InterfaceDesc) -> Seq<char> {
    let eps = d.endpoints@;
    if last_endpoint(eps, EndpointDirection::In, EndpointKind::Bulk) is None {
        "No bulk IN endpoint found"@
    } else if last_endpoint(eps, EndpointDirection::Out, EndpointKind::Bulk) is None {
        "No bulk OUT endpoint found"@
    } else {
        "No interrupt IN endpoint found"@
    }
}

/// Reads the last endpoint of a direction and type.
fn find_last_endpoint(eps: &Vec<EndpointDesc>, direction: EndpointDirection, kind: EndpointKind) -> (r: Option<u8>)
    ensures
        r == last_endpoint(eps@, direction, kind),
{
    let mut found: Option<u8> = None;
    let mut i: usize = 0;
    while i < eps.len()
        invariant
            i <= eps@.len(),
            found == last_endpoint(eps@.subrange(0, i as int), direction, kind),
        decreases eps@.len() - i,
    {
        let e = eps[i];
        proof {
            assert(eps@.subrange(0, i + 1).drop_last() =~= eps@.subrange(0, i as int));
        }
        if e.direction == direction && e.kind == kind {
            found = Some(e.address);
        }
        i = i + 1;
    }
    assert(eps@.subrange(0, i as int) =~= eps@);
    found
}

/// Find the MTP interface of the active configuration and its endpoints:
/// the first interface whose first alternate setting is MTP, with its bulk
/// IN, bulk OUT and interrupt IN endpoints. Invalid data when there is no
/// such interface or one of the endpoints is missing.
pub fn find_mtp_endpoints(interfaces: &Vec<InterfaceDesc>) -> (r: Result<MtpEndpoints, Error>)
    ensures
        (forall|j: int| 0 <= j < interfaces@.len() ==> !is_mtp_interface(#[trigger] interfaces@[j]))
            ==> (r matches Err(e) && is_invalid_data_with(e, "No MTP interface found on device"@)),
        forall|i: int|
            0 <= i < interfaces@.len() && is_mtp_interface(#[trigger] interfaces@[i]) && (forall|j: int|
                0 <= j < i ==> !is_mtp_interface(interfaces@[j])) ==> match interface_endpoints(interfaces@[i]) {
                Some(m) => r == Ok::<MtpEndpoints, Error>(m),
                None => r matches Err(e) && is_invalid_data_with(e, missing_endpoint_message(interfaces@[i])),
            },
{
    let mut i: usize = 0;
    while i < interfaces.len()
        invariant
            i <= interfaces@.len(),
            forall|j: int| 0 <= j < i ==> !is_mtp_interface(#[trigger] interfaces@[j]),
        decreases interfaces@.len() - i,
    {
        let d = &interfaces[i];
        let is_mtp = match d.class {
            Some((c, s, p)) => is_mtp_class(c, s, p),
            None => false,
        };
        if is_mtp {
            let bulk_in = find_last_endpoint(&d.endpoints, EndpointDirection::In, EndpointKind::Bulk);
            let bulk_out = find_last_endpoint(&d.endpoints, EndpointDirection::Out, EndpointKind::Bulk);
            let interrupt_in = find_last_endpoint(&d.endpoints, EndpointDirection::In, EndpointKind::Interrupt);
            let bulk_in = match bulk_in {
                Some(a) => a,
                None => return Err(data_error("No bulk IN endpoint found")),
            };
            let bulk_out = match bulk_out {
                Some(a) => a,
                None => return Err(data_error("No bulk OUT endpoint found")),
            };
            let interrupt_in = match interrupt_in {
                Some(a) => a,
                None => return Err(data_error("No interrupt IN endpoint found")),
            };
            return Ok(MtpEndpoints { interface_number: d.number, bulk_in, bulk_out, interrupt_in });
        }
        i = i + 1;
    }
    Err(data_error("No MTP interface found on device"))
}

} // verus!
