//! MTP/PTP USB container format.
//!
//! All containers share a common 12-byte header followed by optional
//! parameters or payload (little-endian):
//! - Offset 0: Length (u32) - Total container size including header
//! - Offset 4: Type (u16) - Container type
//! - Offset 6: Code (u16) - Operation/Response/Event code
//! - Offset 8: TransactionID (u32)

use vstd::prelude::*;
use vstd::slice::slice_subrange;
use crate::error::{data_error_around, data_error_count, data_error_counts, is_invalid_data_with, Error};
use crate::text::decimal;
use super::codes::{
    event_code_from_code, event_code_to_code, lemma_event_code_value_roundtrip,
    lemma_operation_code_value_roundtrip, lemma_response_code_value_roundtrip,
    operation_code_from_code, operation_code_to_code, response_code_from_code,
    response_code_to_code, EventCode, OperationCode, ResponseCode,
};
use super::pack::{
    bytes16, bytes32, le16, le32, lemma_le16_bytes16, lemma_le32_bytes32, lemma_units32_layout,
    pack_u16, pack_u32, push_bytes, u32_at, units32_bytes, unpack_u16, unpack_u32,
};

verus! {

/// Minimum container header size in bytes.
const HEADER_SIZE: usize = 12;

/// Container type identifier.
#[derive(Debug, Clone, Copy, PartialEq, Eq, Structural, Hash)]
pub enum ContainerType {
    /// Command container (sent to device).
    Command,
    /// Data container (bidirectional).
    Data,
    /// Response container (from device).
    Response,
    /// Event container (from device).
    Event,
}

/// The container type with a raw code: 1 Command, 2 Data, 3 Response, 4 Event.
pub open spec fn container_type_from_code(code: u16) -> Option<ContainerType> {
    if code == 1 {
        Some(ContainerType::Command)
    } else if code == 2 {
        Some(ContainerType::Data)
    } else if code == 3 {
        Some(ContainerType::Response)
    } else if code == 4 {
        Some(ContainerType::Event)
    } else {
        None
    }
}

/// The raw code of a container type.
pub open spec fn container_type_to_code(t: ContainerType) -> u16 {
    match t {
        ContainerType::Command => 1,
        ContainerType::Data => 2,
        ContainerType::Response => 3,
        ContainerType::Event => 4,
    }
}

impl ContainerType {
    /// Convert a raw u16 value to a ContainerType.
    pub fn from_code(code: u16) -> (r: Option<Self>)
        ensures
            r == container_type_from_code(code),
    {
        match code {
            1 => Some(ContainerType::Command),
            2 => Some(ContainerType::Data),
            3 => Some(ContainerType::Response),
            4 => Some(ContainerType::Event),
            _ => None,
        }
    }

    /// Convert a ContainerType to its raw u16 value.
    pub fn to_code(self) -> (r: u16)
        ensures
            r == container_type_to_code(self),
    {
        match self {
            ContainerType::Command => 1,
            ContainerType::Data => 2,
            ContainerType::Response => 3,
            ContainerType::Event => 4,
        }
    }
}

/// Every container type converts to its code and back.
pub proof fn lemma_container_type_roundtrip(t: ContainerType)
    ensures
        container_type_from_code(container_type_to_code(t)) == Some(t),
{
}

/// A code names a container type exactly when it converts back to itself.
pub proof fn lemma_container_code_roundtrip(code: u16)
    ensures
        container_type_from_code(code) matches Some(t) ==> container_type_to_code(t) == code,
        container_type_from_code(code) is None <==> (code == 0 || code > 4),
{
}

// --- Header fields of a raw buffer ---

/// The length field (bytes 0..4).
pub open spec fn header_length(buf: Seq<u8>) -> int {
    le32(buf.subrange(0, 4))
}

/// The container type field (bytes 4..6).
pub open spec fn header_type(buf: Seq<u8>) -> int {
    le16(buf.subrange(4, 6))
}

/// The operation, response or event code field (bytes 6..8).
pub open spec fn header_code(buf: Seq<u8>) -> u16 {
    le16(buf.subrange(6, 8)) as u16
}

/// The transaction id field (bytes 8..12).
pub open spec fn header_transaction(buf: Seq<u8>) -> u32 {
    le32(buf.subrange(8, 12)) as u32
}

/// The 12 header bytes of a container (the length taken modulo 2^32).
pub open spec fn header_bytes(length: nat, ty: u16, code: u16, transaction_id: u32) -> Seq<u8> {
    bytes32((length % 0x1_0000_0000) as int) + bytes16(ty as int) + bytes16(code as int) + bytes32(
        transaction_id as int,
    )
}

/// The bytes of a command container: the header, then each parameter.
pub open spec fn command_bytes(code: OperationCode, transaction_id: u32, params: Seq<u32>) -> Seq<u8> {
    header_bytes(12 + 4 * params.len(), 1, operation_code_to_code(code), transaction_id)
        + units32_bytes(params)
}

/// The bytes of a data container: the header, then the payload.
pub open spec fn data_bytes(code: OperationCode, transaction_id: u32, payload: Seq<u8>) -> Seq<u8> {
    header_bytes(12 + payload.len(), 2, operation_code_to_code(code), transaction_id) + payload
}

/// The bytes a device sends as a response container: the header, then each
/// parameter.
pub open spec fn response_bytes(code: ResponseCode, transaction_id: u32, params: Seq<u32>) -> Seq<u8> {
    header_bytes(12 + 4 * params.len(), 3, response_code_to_code(code), transaction_id)
        + units32_bytes(params)
}

/// The bytes a device sends as an event container: the header, then each
/// parameter.
pub open spec fn event_bytes(code: EventCode, transaction_id: u32, params: Seq<u32>) -> Seq<u8> {
    header_bytes(12 + 4 * params.len(), 4, event_code_to_code(code), transaction_id)
        + units32_bytes(params)
}

/// The container type of a raw buffer: `None` when it is shorter than a
/// header or the type field is not 1 to 4.
pub open spec fn parsed_container_type(buf: Seq<u8>) -> Option<ContainerType> {
    if buf.len() < 12 {
        None
    } else {
        container_type_from_code(header_type(buf) as u16)
    }
}

/// The code, transaction id and payload of a data container: the buffer
/// holds a whole header of type Data whose length is at least 12 and at most
/// the buffer's size; the payload is what lies between the header and that
/// length.
pub open spec fn parsed_data_container(buf: Seq<u8>) -> Option<(OperationCode, u32, Seq<u8>)> {
    if buf.len() < 12 || header_type(buf) != 2 || header_length(buf) < 12 || buf.len()
        < header_length(buf) {
        None
    } else {
        Some(
            (
                operation_code_from_code(header_code(buf)),
                header_transaction(buf),
                buf.subrange(12, header_length(buf)),
            ),
        )
    }
}

/// The parameters of a container of the given length: the u32 values that
/// follow the header, up to the length.
pub open spec fn container_params(buf: Seq<u8>, length: int) -> Seq<u32> {
    Seq::new(((length - 12) / 4) as nat, |i: int| u32_at(buf, 12, i))
}

/// The code, transaction id and parameters of a response container: the
/// buffer holds a whole header of type Response whose length is at least 12,
/// at most the buffer's size, and 12 plus a multiple of 4.
pub open spec fn parsed_response_container(buf: Seq<u8>) -> Option<(ResponseCode, u32, Seq<u32>)> {
    if buf.len() < 12 || header_type(buf) != 3 || buf.len() < header_length(buf) || header_length(
        buf,
    ) < 12 || (header_length(buf) - 12) % 4 != 0 {
        None
    } else {
        Some(
            (
                response_code_from_code(header_code(buf)),
                header_transaction(buf),
                container_params(buf, header_length(buf)),
            ),
        )
    }
}

/// The three event parameters: those the container holds, then zeros.
pub open spec fn event_params(buf: Seq<u8>, length: int) -> Seq<u32> {
    Seq::new(3, |i: int| if i < (length - 12) / 4 { u32_at(buf, 12, i) } else { 0u32 })
}

/// The code, transaction id and three parameters of an event container: the
/// buffer holds a whole header of type Event whose length is 12, 16, 20 or 24
/// and at most the buffer's size; missing parameters are 0.
pub open spec fn parsed_event_container(buf: Seq<u8>) -> Option<(EventCode, u32, Seq<u32>)> {
    if buf.len() < 12 || header_type(buf) != 4 || header_length(buf) < 12 || header_length(buf)
        > 24 || (header_length(buf) - 12) % 4 != 0 || buf.len() < header_length(buf) {
        None
    } else {
        Some(
            (
                event_code_from_code(header_code(buf)),
                header_transaction(buf),
                event_params(buf, header_length(buf)),
            ),
        )
    }
}

/// The message of the error `container_type` gives: the buffer is shorter
/// than a header, or its type field is not a container type.
pub open spec fn container_type_error(buf: Seq<u8>) -> Seq<char> {
    if buf.len() < 12 {
        "container too small: need at least 12 bytes, have "@ + decimal(buf.len())
    } else {
        "invalid container type: "@ + decimal(header_type(buf) as nat)
    }
}

/// The message of the error `DataContainer::from_bytes` gives, by the first
/// check the buffer fails: its size, its type field, its length field below
/// the header size, its length field above its size.
pub open spec fn data_container_error(buf: Seq<u8>) -> Seq<char> {
    if buf.len() < 12 {
        "data container too small: need at least 12 bytes, have "@ + decimal(buf.len())
    } else if header_type(buf) != 2 {
        "expected Data container type (2), got "@ + decimal(header_type(buf) as nat)
    } else if header_length(buf) < 12 {
        "data container length too small: "@ + decimal(header_length(buf) as nat) + " < header size 12"@
    } else {
        "data container length mismatch: header says "@ + decimal(header_length(buf) as nat)
            + ", have "@ + decimal(buf.len())
    }
}

/// The message of the error `ResponseContainer::from_bytes` gives, by the
/// first check the buffer fails: its size, its type field, its length field
/// above its size, its length field below the header size, parameter bytes
/// that are not a multiple of 4.
pub open spec fn response_container_error(buf: Seq<u8>) -> Seq<char> {
    if buf.len() < 12 {
        "response container too small: need at least 12 bytes, have "@ + decimal(buf.len())
    } else if header_type(buf) != 3 {
        "expected Response container type (3), got "@ + decimal(header_type(buf) as nat)
    } else if buf.len() < header_length(buf) {
        "response container length mismatch: header says "@ + decimal(header_length(buf) as nat)
            + ", have "@ + decimal(buf.len())
    } else if header_length(buf) < 12 {
        "response container length too small: "@ + decimal(header_length(buf) as nat)
            + " < header size 12"@
    } else {
        "response parameter bytes not aligned: "@ + decimal((header_length(buf) - 12) as nat)
            + " bytes"@
    }
}

/// The message of the error `EventContainer::from_bytes` gives, by the first
/// check the buffer fails: its size, its type field, a length field outside
/// 12..=24, parameter bytes that are not a multiple of 4, a length field above
/// its size.
pub open spec fn event_container_error(buf: Seq<u8>) -> Seq<char> {
    if buf.len() < 12 {
        "event container too small: need at least 12 bytes, have "@ + decimal(buf.len())
    } else if header_type(buf) != 4 {
        "expected Event container type (4), got "@ + decimal(header_type(buf) as nat)
    } else if header_length(buf) < 12 || header_length(buf) > 24 {
        "event container invalid size: expected 12-24, got "@ + decimal(header_length(buf) as nat)
    } else if (header_length(buf) - 12) % 4 != 0 {
        "event parameter bytes not aligned: "@ + decimal((header_length(buf) - 12) as nat) + " bytes"@
    } else {
        "event container buffer too small: need "@ + decimal(header_length(buf) as nat) + ", have "@
            + decimal(buf.len())
    }
}

/// Reads the four header fields of a buffer of at least 12 bytes.
fn read_header(buf: &[u8]) -> (r: (u32, u16, u16, u32))
    requires
        buf@.len() >= 12,
    ensures
        r.0 == header_length(buf@),
        r.1 == header_type(buf@),
        r.2 == header_code(buf@),
        r.3 == header_transaction(buf@),
{
    let length = match unpack_u32(slice_subrange(buf, 0, 4)) {
        Ok(v) => v,
        Err(_) => 0,
    };
    let type_code = match unpack_u16(slice_subrange(buf, 4, 6)) {
        Ok(v) => v,
        Err(_) => 0,
    };
    let code = match unpack_u16(slice_subrange(buf, 6, 8)) {
        Ok(v) => v,
        Err(_) => 0,
    };
    let transaction_id = match unpack_u32(slice_subrange(buf, 8, 12)) {
        Ok(v) => v,
        Err(_) => 0,
    };
    (length, type_code, code, transaction_id)
}

/// Appends the 12 header bytes of a container.
fn push_header(buf: &mut Vec<u8>, length: u32, ty: u16, code: u16, transaction_id: u32)
    ensures
        final(buf)@ == old(buf)@ + header_bytes(length as nat, ty, code, transaction_id),
{
    let ghost o = buf@;
    let a = pack_u32(length);
    let b = pack_u16(ty);
    let c = pack_u16(code);
    let d = pack_u32(transaction_id);
    push_bytes(buf, &a);
    push_bytes(buf, &b);
    push_bytes(buf, &c);
    push_bytes(buf, &d);
    proof {
        lemma_concat_assoc4(o, a@, b@, c@, d@);
        assert(length as nat % 0x1_0000_0000 == length as nat);
    }
}

/// The empty sequence followed by `x` is `x`.
proof fn lemma_empty_concat<A>(x: Seq<A>)
    ensures
        Seq::<A>::empty() + x == x,
{
    assert(Seq::<A>::empty() + x =~= x);
}

/// Appending four sequences one after another appends their concatenation.
proof fn lemma_concat_assoc4<A>(o: Seq<A>, a: Seq<A>, b: Seq<A>, c: Seq<A>, d: Seq<A>)
    ensures
        o + a + b + c + d == o + (a + b + c + d),
{
    assert(o + a + b + c + d =~= o + (a + b + c + d));
}

/// Determine the container type from a raw buffer.
///
/// Returns an error if the buffer is too small or contains an invalid container type.
pub fn container_type(buf: &[u8]) -> (r: Result<ContainerType, Error>)
    ensures
        r is Ok <==> parsed_container_type(buf@) is Some,
        r matches Ok(t) ==> parsed_container_type(buf@) == Some(t),
        r matches Err(e) ==> is_invalid_data_with(e, container_type_error(buf@)),
{
    if buf.len() < HEADER_SIZE {
        return Err(data_error_count("container too small: need at least 12 bytes, have ", buf.len() as u64));
    }
    let type_code = unpack_u16(slice_subrange(buf, 4, 6))?;
    match ContainerType::from_code(type_code) {
        Some(t) => Ok(t),
        None => Err(data_error_count("invalid container type: ", type_code as u64)),
    }
}

/// Command container sent to the device.
#[derive(Debug, Clone, PartialEq, Eq)]
pub struct CommandContainer {
    /// Operation code for the command.
    pub code: OperationCode,
    /// Transaction ID for this operation.
    pub transaction_id: u32,
    /// Parameters (0-5 u32 values).
    pub params: Vec<u32>,
}

impl CommandContainer {
    /// Serialize the command container to bytes.
    pub fn to_bytes(&self) -> (r: Vec<u8>)
        requires
            12 + 4 * self.params@.len() <= usize::MAX,
        ensures
            r@ == command_bytes(self.code, self.transaction_id, self.params@),
    {
        let total_len = HEADER_SIZE + self.params.len() * 4;
        let length = (total_len as u64 % 0x1_0000_0000) as u32;
        let mut buf: Vec<u8> = Vec::new();
        push_header(&mut buf, length, ContainerType::Command.to_code(), self.code.to_code(), self.transaction_id);
        let ghost head = buf@;
        let mut i: usize = 0;
        while i < self.params.len()
            invariant
                i <= self.params@.len(),
                buf@ == head + units32_bytes(self.params@.subrange(0, i as int)),
            decreases self.params@.len() - i,
        {
            push_bytes(&mut buf, &pack_u32(self.params[i]));
            proof {
                let sub = self.params@.subrange(0, i + 1);
                assert(sub.drop_last() =~= self.params@.subrange(0, i as int));
                assert(buf@ =~= head + units32_bytes(sub));
            }
            i = i + 1;
        }
        assert(self.params@.subrange(0, i as int) =~= self.params@);
        buf
    }
}

/// Data container for transferring payload data.
#[derive(Debug, Clone, PartialEq, Eq)]
pub struct DataContainer {
    /// Operation code this data belongs to.
    pub code: OperationCode,
    /// Transaction ID for this operation.
    pub transaction_id: u32,
    /// Payload bytes.
    pub payload: Vec<u8>,
}

impl DataContainer {
    /// Serialize the data container to bytes.
    pub fn to_bytes(&self) -> (r: Vec<u8>)
        requires
            12 + self.payload@.len() <= usize::MAX,
        ensures
            r@ == data_bytes(self.code, self.transaction_id, self.payload@),
    {
        let total_len = HEADER_SIZE + self.payload.len();
        let length = (total_len as u64 % 0x1_0000_0000) as u32;
        let mut buf: Vec<u8> = Vec::new();
        push_header(&mut buf, length, ContainerType::Data.to_code(), self.code.to_code(), self.transaction_id);
        push_bytes(&mut buf, self.payload.as_slice());
        proof {
            assert(length as nat % 0x1_0000_0000 == (12 + self.payload@.len()) % 0x1_0000_0000);
            lemma_empty_concat(header_bytes(length as nat, 2, operation_code_to_code(self.code), self.transaction_id));
        }
        buf
    }

    /// Parse a data container from bytes.
    pub fn from_bytes(buf: &[u8]) -> (r: Result<Self, Error>)
        ensures
            r is Ok <==> parsed_data_container(buf@) is Some,
            r matches Ok(c) ==> parsed_data_container(buf@) == Some((c.code, c.transaction_id, c.payload@)),
            r matches Err(e) ==> is_invalid_data_with(e, data_container_error(buf@)),
    {
        if buf.len() < HEADER_SIZE {
            return Err(data_error_count("data container too small: need at least 12 bytes, have ", buf.len() as u64));
        }
        let (length, type_code, code, transaction_id) = read_header(buf);
        if type_code != ContainerType::Data.to_code() {
            return Err(data_error_count("expected Data container type (2), got ", type_code as u64));
        }
        let length = length as usize;
        if length < HEADER_SIZE {
            return Err(data_error_around("data container length too small: ", length as u64, " < header size 12"));
        }
        if buf.len() < length {
            return Err(data_error_counts("data container length mismatch: header says ", length as u64, ", have ", buf.len() as u64));
        }
        let mut payload: Vec<u8> = Vec::new();
        push_bytes(&mut payload, slice_subrange(buf, HEADER_SIZE, length));
        Ok(DataContainer { code: OperationCode::from_code(code), transaction_id, payload })
    }
}

/// Response container from the device.
#[derive(Debug, Clone, PartialEq, Eq)]
pub struct ResponseContainer {
    /// Response code indicating success or failure.
    pub code: ResponseCode,
    /// Transaction ID this response corresponds to.
    pub transaction_id: u32,
    /// Response parameters (0-5 u32 values).
    pub params: Vec<u32>,
}

impl ResponseContainer {
    /// Parse a response container from bytes.
    ///
    /// A length field below the header size is refused as invalid data.
    pub fn from_bytes(buf: &[u8]) -> (r: Result<Self, Error>)
        ensures
            r is Ok <==> parsed_response_container(buf@) is Some,
            r matches Ok(c) ==> parsed_response_container(buf@) == Some((c.code, c.transaction_id, c.params@)),
            r matches Err(e) ==> is_invalid_data_with(e, response_container_error(buf@)),
    {
        if buf.len() < HEADER_SIZE {
            return Err(data_error_count("response container too small: need at least 12 bytes, have ", buf.len() as u64));
        }
        let (length, type_code, code, transaction_id) = read_header(buf);
        if type_code != ContainerType::Response.to_code() {
            return Err(data_error_count("expected Response container type (3), got ", type_code as u64));
        }
        let length = length as usize;
        if buf.len() < length {
            return Err(data_error_counts("response container length mismatch: header says ", length as u64, ", have ", buf.len() as u64));
        }
        if length < HEADER_SIZE {
            return Err(data_error_around("response container length too small: ", length as u64, " < header size 12"));
        }
        let param_bytes = length - HEADER_SIZE;
        if param_bytes % 4 != 0 {
            return Err(data_error_around("response parameter bytes not aligned: ", param_bytes as u64, " bytes"));
        }
        let param_count = param_bytes / 4;
        let mut params: Vec<u32> = Vec::new();
        let mut i: usize = 0;
        while i < param_count
            invariant
                length == header_length(buf@),
                12 <= length <= buf@.len(),
                param_count == (length - 12) / 4,
                (length - 12) % 4 == 0,
                i <= param_count,
                params@ =~= container_params(buf@, length as int).subrange(0, i as int),
            decreases param_count - i,
        {
            let offset = HEADER_SIZE + i * 4;
            let item = slice_subrange(buf, offset, offset + 4);
            let v = unpack_u32(item)?;
            params.push(v);
            i = i + 1;
        }
        Ok(ResponseContainer { code: ResponseCode::from_code(code), transaction_id, params })
    }

    /// Check if the response indicates success (Ok).
    pub fn is_ok(&self) -> (r: bool)
        ensures
            r == (self.code == ResponseCode::Success),
    {
        match self.code {
            ResponseCode::Success => true,
            _ => false,
        }
    }
}

/// Event container from the device.
#[derive(Debug, Clone, PartialEq, Eq)]
pub struct EventContainer {
    /// Event code identifying the event type.
    pub code: EventCode,
    /// Transaction ID (may be 0 for unsolicited events).
    pub transaction_id: u32,
    /// Event parameters (always exactly 3).
    pub params: [u32; 3],
}

impl EventContainer {
    /// Parse an event container from bytes.
    ///
    /// Events can have 0-3 parameters, so valid sizes are 12-24 bytes
    /// (header + 0-3 u32 params). Missing parameters default to 0.
    pub fn from_bytes(buf: &[u8]) -> (r: Result<Self, Error>)
        ensures
            r is Ok <==> parsed_event_container(buf@) is Some,
            r matches Ok(c) ==> parsed_event_container(buf@) == Some((c.code, c.transaction_id, c.params@)),
            r matches Err(e) ==> is_invalid_data_with(e, event_container_error(buf@)),
    {
        if buf.len() < HEADER_SIZE {
            return Err(data_error_count("event container too small: need at least 12 bytes, have ", buf.len() as u64));
        }
        let (length, type_code, code, transaction_id) = read_header(buf);
        if type_code != ContainerType::Event.to_code() {
            return Err(data_error_count("expected Event container type (4), got ", type_code as u64));
        }
        if length < 12 || length > 24 {
            return Err(data_error_count("event container invalid size: expected 12-24, got ", length as u64));
        }
        let length = length as usize;
        let param_bytes = length - HEADER_SIZE;
        if param_bytes % 4 != 0 {
            return Err(data_error_around("event parameter bytes not aligned: ", param_bytes as u64, " bytes"));
        }
        if buf.len() < length {
            return Err(data_error_counts("event container buffer too small: need ", length as u64, ", have ", buf.len() as u64));
        }
        let param_count = param_bytes / 4;
        let param1 = if param_count >= 1 {
            unpack_u32(slice_subrange(buf, 12, 16))?
        } else {
            0
        };
        let param2 = if param_count >= 2 {
            unpack_u32(slice_subrange(buf, 16, 20))?
        } else {
            0
        };
        let param3 = if param_count >= 3 {
            unpack_u32(slice_subrange(buf, 20, 24))?
        } else {
            0
        };
        let params = [param1, param2, param3];
        assert(params@ =~= event_params(buf@, length as int));
        Ok(EventContainer { code: EventCode::from_code(code), transaction_id, params })
    }
}

// --- Laws of the container format ---

/// The fields of a header read back from its bytes, whatever follows it.
pub proof fn lemma_header_fields(length: nat, ty: u16, code: u16, transaction_id: u32, rest: Seq<u8>)
    requires
        length < 0x1_0000_0000,
    ensures
        header_bytes(length, ty, code, transaction_id).len() == 12,
        ({
            let b = header_bytes(length, ty, code, transaction_id) + rest;
            &&& b.len() == 12 + rest.len()
            &&& header_length(b) == length
            &&& header_type(b) == ty
            &&& header_code(b) == code
            &&& header_transaction(b) == transaction_id
            &&& b.subrange(12, b.len() as int) == rest
        }),
{
    lemma_le32_bytes32(length as int);
    lemma_le16_bytes16(ty as int);
    lemma_le16_bytes16(code as int);
    lemma_le32_bytes32(transaction_id as int);
    let h = header_bytes(length, ty, code, transaction_id);
    let b = h + rest;
    assert(length % 0x1_0000_0000 == length);
    assert(b.subrange(0, 4) =~= bytes32(length as int));
    assert(b.subrange(4, 6) =~= bytes16(ty as int));
    assert(b.subrange(6, 8) =~= bytes16(code as int));
    assert(b.subrange(8, 12) =~= bytes32(transaction_id as int));
    assert(b.subrange(12, b.len() as int) =~= rest);
}

/// The parameters stored after a header read back as the values written.
proof fn lemma_params_read_back(head: Seq<u8>, params: Seq<u32>, rest: Seq<u8>)
    requires
        head.len() == 12,
    ensures
        container_params(head + units32_bytes(params) + rest, (12 + 4 * params.len()) as int) == params,
{
    let b = head + units32_bytes(params) + rest;
    lemma_units32_layout(params);
    let p = container_params(b, (12 + 4 * params.len()) as int);
    assert(p.len() == params.len());
    assert forall|i: int| 0 <= i < params.len() implies #[trigger] p[i] == params[i] by {
        assert(b.subrange(12 + 4 * i, 12 + 4 * i + 4) =~= units32_bytes(params).subrange(4 * i, 4 * i + 4));
        lemma_le32_bytes32(params[i] as int);
    }
    assert(p =~= params);
}

/// The container type read from serialized containers: command bytes are a
/// Command, data bytes Data, response bytes Response and event bytes Event,
/// whatever follows them.
pub proof fn lemma_container_type_of_bytes(
    op: OperationCode,
    response: ResponseCode,
    event: EventCode,
    transaction_id: u32,
    params: Seq<u32>,
    payload: Seq<u8>,
    rest: Seq<u8>,
)
    requires
        12 + 4 * params.len() < 0x1_0000_0000,
        12 + payload.len() < 0x1_0000_0000,
    ensures
        parsed_container_type(command_bytes(op, transaction_id, params) + rest) == Some(ContainerType::Command),
        parsed_container_type(data_bytes(op, transaction_id, payload) + rest) == Some(ContainerType::Data),
        parsed_container_type(response_bytes(response, transaction_id, params) + rest) == Some(ContainerType::Response),
        parsed_container_type(event_bytes(event, transaction_id, params) + rest) == Some(ContainerType::Event),
{
    let n = (12 + 4 * params.len()) as nat;
    let m = (12 + payload.len()) as nat;
    let oc = operation_code_to_code(op);
    lemma_header_fields(n, 1, oc, transaction_id, units32_bytes(params) + rest);
    assert(command_bytes(op, transaction_id, params) + rest =~= header_bytes(n, 1, oc, transaction_id) + (units32_bytes(params) + rest));
    lemma_header_fields(m, 2, oc, transaction_id, payload + rest);
    assert(data_bytes(op, transaction_id, payload) + rest =~= header_bytes(m, 2, oc, transaction_id) + (payload + rest));
    let rc = response_code_to_code(response);
    lemma_header_fields(n, 3, rc, transaction_id, units32_bytes(params) + rest);
    assert(response_bytes(response, transaction_id, params) + rest =~= header_bytes(n, 3, rc, transaction_id) + (units32_bytes(params) + rest));
    let ec = event_code_to_code(event);
    lemma_header_fields(n, 4, ec, transaction_id, units32_bytes(params) + rest);
    assert(event_bytes(event, transaction_id, params) + rest =~= header_bytes(n, 4, ec, transaction_id) + (units32_bytes(params) + rest));
}

/// The length field of a serialized command or data container is its size in
/// bytes, when that size fits in 32 bits.
pub proof fn lemma_length_field_is_size(op: OperationCode, transaction_id: u32, params: Seq<u32>, payload: Seq<u8>)
    requires
        12 + 4 * params.len() < 0x1_0000_0000,
        12 + payload.len() < 0x1_0000_0000,
    ensures
        header_length(command_bytes(op, transaction_id, params)) == command_bytes(op, transaction_id, params).len(),
        header_length(data_bytes(op, transaction_id, payload)) == data_bytes(op, transaction_id, payload).len(),
{
    let n = (12 + 4 * params.len()) as nat;
    let m = (12 + payload.len()) as nat;
    let oc = operation_code_to_code(op);
    lemma_units32_layout(params);
    lemma_header_fields(n, 1, oc, transaction_id, units32_bytes(params));
    lemma_header_fields(m, 2, oc, transaction_id, payload);
}

/// Parsing the bytes of a data container, followed by any further bytes,
/// gives back its code, transaction id and payload (a code given as `Unknown`
/// must be one outside the table, as `OperationCode::from_code` makes it).
pub proof fn lemma_data_container_roundtrip(code: OperationCode, transaction_id: u32, payload: Seq<u8>, rest: Seq<u8>)
    requires
        12 + payload.len() < 0x1_0000_0000,
        code matches OperationCode::Unknown(c) ==> operation_code_from_code(c) is Unknown,
    ensures
        parsed_data_container(data_bytes(code, transaction_id, payload) + rest) == Some((code, transaction_id, payload)),
{
    let m = (12 + payload.len()) as nat;
    let oc = operation_code_to_code(code);
    let b = data_bytes(code, transaction_id, payload) + rest;
    lemma_header_fields(m, 2, oc, transaction_id, payload + rest);
    assert(b =~= header_bytes(m, 2, oc, transaction_id) + (payload + rest));
    assert(b.subrange(12, m as int) =~= payload);
    lemma_operation_code_value_roundtrip(code);
}

/// Parsing the bytes a device sends as a response, followed by any further
/// bytes, gives back its code, transaction id and parameters (a code given as
/// `Unknown` must be one outside the table).
pub proof fn lemma_response_container_roundtrip(code: ResponseCode, transaction_id: u32, params: Seq<u32>, rest: Seq<u8>)
    requires
        12 + 4 * params.len() < 0x1_0000_0000,
        code matches ResponseCode::Unknown(c) ==> response_code_from_code(c) is Unknown,
    ensures
        parsed_response_container(response_bytes(code, transaction_id, params) + rest) == Some((code, transaction_id, params)),
{
    let n = (12 + 4 * params.len()) as nat;
    let rc = response_code_to_code(code);
    let h = header_bytes(n, 3, rc, transaction_id);
    let b = response_bytes(code, transaction_id, params) + rest;
    lemma_units32_layout(params);
    lemma_header_fields(n, 3, rc, transaction_id, units32_bytes(params) + rest);
    assert(b =~= h + (units32_bytes(params) + rest));
    lemma_params_read_back(h, params, rest);
    lemma_response_code_value_roundtrip(code);
}

/// Parsing the bytes a device sends as an event with up to three parameters,
/// followed by any further bytes, gives back its code, transaction id and
/// parameters, padded with zeros to three (a code given as `Unknown` must be
/// one outside the table).
pub proof fn lemma_event_container_roundtrip(code: EventCode, transaction_id: u32, params: Seq<u32>, rest: Seq<u8>)
    requires
        params.len() <= 3,
        code matches EventCode::Unknown(c) ==> event_code_from_code(c) is Unknown,
    ensures
        parsed_event_container(event_bytes(code, transaction_id, params) + rest) == Some(
            (code, transaction_id, Seq::new(3, |i: int| if i < params.len() { params[i] } else { 0u32 })),
        ),
{
    let n = (12 + 4 * params.len()) as nat;
    let ec = event_code_to_code(code);
    let h = header_bytes(n, 4, ec, transaction_id);
    let b = event_bytes(code, transaction_id, params) + rest;
    lemma_units32_layout(params);
    lemma_header_fields(n, 4, ec, transaction_id, units32_bytes(params) + rest);
    assert(b =~= h + (units32_bytes(params) + rest));
    lemma_params_read_back(h, params, rest);
    let p = container_params(b, n as int);
    assert forall|i: int| 0 <= i < params.len() implies #[trigger] u32_at(b, 12, i) == params[i] by {
        assert(p[i] == u32_at(b, 12, i));
    }
    assert(event_params(b, n as int) =~= Seq::new(3, |i: int| if i < params.len() { params[i] } else { 0u32 }));
    lemma_event_code_value_roundtrip(code);
}

/// The table of container type codes that the standard fixes: each named variant
/// has its code, and that code reads back as the variant.
pub proof fn lemma_container_type_table()
    ensures
        container_type_to_code(ContainerType::Command) == 0x0001,
        container_type_from_code(0x0001) == Some(ContainerType::Command),
        container_type_to_code(ContainerType::Data) == 0x0002,
        container_type_from_code(0x0002) == Some(ContainerType::Data),
        container_type_to_code(ContainerType::Response) == 0x0003,
        container_type_from_code(0x0003) == Some(ContainerType::Response),
        container_type_to_code(ContainerType::Event) == 0x0004,
        container_type_from_code(0x0004) == Some(ContainerType::Event),
{
}

} // verus!
