//! The decisions of a PTP session: what goes into a command, how a response
//! is judged, and how the containers that answer an operation are put back
//! together. The transport and the awaiting stay with the caller, which
//! hands each received buffer to these functions.

use vstd::prelude::*;
use crate::error::{data_error, data_error_counts, is_invalid_data_with, Error};
use crate::text::decimal;
use super::codes::{
    object_format_code_to_code, operation_code_to_code, ObjectFormatCode, OperationCode,
    PropertyDataType, ResponseCode,
};
use super::container::{
    command_bytes, event_container_error, header_bytes, CommandContainer, ContainerType,
    EventContainer, ResponseContainer,
};
use super::pack::{bytes_vec, le32, pack_u16, pack_u32, push_bytes, u32_array_error, u32_at, unpack_u32_array};
use super::types::properties::{parsed_property_value, property_value_error, PropertyValue};
use super::{next_transaction_id, ObjectHandle, StorageId, TransactionId};

verus! {

/// Container header size in bytes.
const HEADER_SIZE: usize = 12;

/// The transaction ids of a session, handed out in turn: the first is 1,
/// each next one follows `next_transaction_id`.
pub struct TransactionCounter {
    next: u32,
}

impl View for TransactionCounter {
    type V = u32;

    /// The id the next operation will use.
    closed spec fn view(&self) -> u32 {
        self.next
    }
}

impl TransactionCounter {
    /// A counter for a fresh session: the first operation uses id 1.
    pub fn new() -> (r: Self)
        ensures
            r@ == 1,
    {
        TransactionCounter { next: TransactionId::first().0 }
    }

    /// The id for the next operation; the counter moves on to the one after
    /// it, skipping 0 and 0xFFFFFFFF.
    pub fn take(&mut self) -> (id: u32)
        ensures
            id == old(self)@,
            final(self)@ == next_transaction_id(old(self)@),
    {
        let id = self.next;
        self.next = TransactionId(id).next().0;
        id
    }

    /// Start the ids over, as for a freshly opened session: the next
    /// operation uses id 1.
    pub fn reset(&mut self)
        ensures
            final(self)@ == 1,
    {
        self.next = TransactionId::first().0;
    }
}

/// The command container for the next operation: it carries the id the
/// counter hands out, which is returned with the command's bytes.
pub fn next_command(ids: &mut TransactionCounter, operation: OperationCode, params: &[u32]) -> (r: (Vec<u8>, u32))
    requires
        12 + 4 * params@.len() <= usize::MAX,
    ensures
        r.1 == old(ids)@,
        r.0@ == command_bytes(operation, old(ids)@, params@),
        final(ids)@ == next_transaction_id(old(ids)@),
{
    let tx = ids.take();
    let mut p: Vec<u32> = Vec::new();
    let mut i: usize = 0;
    while i < params.len()
        invariant
            i <= params@.len(),
            p@ == params@.subrange(0, i as int),
        decreases params@.len() - i,
    {
        p.push(params[i]);
        i = i + 1;
    }
    assert(p@ =~= params@);
    let cmd = CommandContainer { code: operation, transaction_id: tx, params: p };
    (cmd.to_bytes(), tx)
}

/// The ids of an OpenSession that finds a session already open: the first
/// OpenSession uses 1 and the CloseSession 2; after the reset the retried
/// OpenSession uses 1 again, so the next operation of the session uses 2.
pub proof fn lemma_open_retry_ids()
    ensures
        next_transaction_id(1) == 2,
{
}

/// Check that a response reports success: `Ok` for the success code,
/// otherwise a protocol error carrying the code and the operation.
pub fn check_response(response: &ResponseContainer, operation: OperationCode) -> (r: Result<(), Error>)
    ensures
        response.code == ResponseCode::Success ==> r is Ok,
        response.code != ResponseCode::Success ==> r == Err::<(), Error>(
            Error::Protocol { code: response.code, operation },
        ),
{
    if response.is_ok() {
        Ok(())
    } else {
        Err(Error::Protocol { code: response.code, operation })
    }
}

/// The message of the error for a response to another transaction.
pub open spec fn mismatch_message(expected: u32, got: u32) -> Seq<char> {
    "Transaction ID mismatch: expected "@ + decimal(expected as nat) + ", got "@ + decimal(got as nat)
}

/// Check that a response answers the transaction that was sent: the
/// response itself, or invalid data when the transaction ids differ.
pub fn check_transaction(expected: u32, response: ResponseContainer) -> (r: Result<ResponseContainer, Error>)
    ensures
        response.transaction_id == expected ==> r == Ok::<ResponseContainer, Error>(response),
        response.transaction_id != expected ==> (r matches Err(e) && is_invalid_data_with(
            e,
            mismatch_message(expected, response.transaction_id),
        )),
{
    if response.transaction_id != expected {
        let got = response.transaction_id;
        Err(data_error_counts("Transaction ID mismatch: expected ", expected as u64, ", got ", got as u64))
    } else {
        Ok(response)
    }
}

/// What to do after the device answers an OpenSession command.
#[derive(Debug, Clone, Copy, PartialEq, Eq, Structural)]
pub enum OpenSessionStep {
    /// The session is open.
    Opened,
    /// A session was already open: close it and open a fresh one.
    CloseAndRetry,
}

/// Judge the answer to OpenSession: success opens the session; on the first
/// attempt, SessionAlreadyOpen asks for a close and one retry; any other
/// code (or SessionAlreadyOpen on the retry) is a protocol error for
/// OpenSession.
pub fn open_session_step(code: ResponseCode, first_attempt: bool) -> (r: Result<OpenSessionStep, Error>)
    ensures
        code == ResponseCode::Success ==> r == Ok::<OpenSessionStep, Error>(OpenSessionStep::Opened),
        code == ResponseCode::SessionAlreadyOpen && first_attempt ==> r == Ok::<OpenSessionStep, Error>(
            OpenSessionStep::CloseAndRetry,
        ),
        code != ResponseCode::Success && !(code == ResponseCode::SessionAlreadyOpen && first_attempt)
            ==> r == Err::<OpenSessionStep, Error>(
            Error::Protocol { code, operation: OperationCode::OpenSession },
        ),
{
    match code {
        ResponseCode::Success => Ok(OpenSessionStep::Opened),
        ResponseCode::SessionAlreadyOpen => if first_attempt {
            Ok(OpenSessionStep::CloseAndRetry)
        } else {
            Err(Error::Protocol { code, operation: OperationCode::OpenSession })
        },
        _ => Err(Error::Protocol { code, operation: OperationCode::OpenSession }),
    }
}

/// Parameters of GetObjectHandles: the storage, the format filter (0 for
/// all formats) and the parent (0 for root level only, 0xFFFFFFFF for
/// everything).
pub fn object_handles_params(storage_id: StorageId, format: Option<ObjectFormatCode>, parent: Option<ObjectHandle>) -> (r: Vec<u32>)
    ensures
        r@ == seq![
            storage_id.0,
            match format {
                Some(f) => object_format_code_to_code(f) as u32,
                None => 0u32,
            },
            match parent {
                Some(p) => p.0,
                None => 0u32,
            },
        ],
{
    let format_code: u32 = match format {
        Some(f) => f.to_code() as u32,
        None => 0,
    };
    let parent_handle: u32 = match parent {
        Some(p) => p.0,
        None => 0,
    };
    let mut v: Vec<u32> = Vec::new();
    v.push(storage_id.0);
    v.push(format_code);
    v.push(parent_handle);
    assert(v@ =~= seq![storage_id.0, format_code, parent_handle]);
    v
}

/// Parameters of InitiateCapture: the storage and the format, where the
/// Undefined format is sent as 0 ("any format" / device default).
pub fn capture_params(storage_id: StorageId, format: ObjectFormatCode) -> (r: Vec<u32>)
    ensures
        r@ == seq![
            storage_id.0,
            if format == ObjectFormatCode::Undefined { 0u32 } else { object_format_code_to_code(format) as u32 },
        ],
{
    let format_code: u32 = match format {
        ObjectFormatCode::Undefined => 0,
        other => other.to_code() as u32,
    };
    let mut v: Vec<u32> = Vec::new();
    v.push(storage_id.0);
    v.push(format_code);
    assert(v@ =~= seq![storage_id.0, format_code]);
    v
}

/// Parameters of GetPartialObject: the handle, the offset truncated to its
/// low 32 bits (standard MTP carries a u32 offset), and the byte count.
pub fn partial_object_params(handle: ObjectHandle, offset: u64, max_bytes: u32) -> (r: Vec<u32>)
    ensures
        r@ == seq![handle.0, (offset % 0x1_0000_0000) as u32, max_bytes],
{
    let low = (offset % 0x1_0000_0000) as u32;
    let mut v: Vec<u32> = Vec::new();
    v.push(handle.0);
    v.push(low);
    v.push(max_bytes);
    assert(v@ =~= seq![handle.0, low, max_bytes]);
    v
}

/// The result of SendObjectInfo from its response parameters: storage id,
/// parent handle and the new object's handle; invalid data when fewer than
/// three parameters came back.
pub fn send_object_info_result(response: &ResponseContainer) -> (r: Result<(StorageId, ObjectHandle, ObjectHandle), Error>)
    ensures
        response.params@.len() >= 3 ==> r == Ok::<(StorageId, ObjectHandle, ObjectHandle), Error>(
            (StorageId(response.params@[0]), ObjectHandle(response.params@[1]), ObjectHandle(response.params@[2])),
        ),
        response.params@.len() < 3 ==> (r matches Err(e) && is_invalid_data_with(e, "SendObjectInfo response missing params"@)),
{
    if response.params.len() < 3 {
        return Err(data_error("SendObjectInfo response missing params"));
    }
    Ok((StorageId(response.params[0]), ObjectHandle(response.params[1]), ObjectHandle(response.params[2])))
}

/// The handle of a copy from the CopyObject response: its first parameter;
/// invalid data when there is none.
pub fn copy_object_result(response: &ResponseContainer) -> (r: Result<ObjectHandle, Error>)
    ensures
        response.params@.len() >= 1 ==> r == Ok::<ObjectHandle, Error>(ObjectHandle(response.params@[0])),
        response.params@.len() == 0 ==> (r matches Err(e) && is_invalid_data_with(e, "CopyObject response missing handle"@)),
{
    if response.params.len() == 0 {
        return Err(data_error("CopyObject response missing handle"));
    }
    Ok(ObjectHandle(response.params[0]))
}

/// The u32 values of an MTP u32 array at the front of `buf`, if it holds one.
pub open spec fn u32_array_values(buf: Seq<u8>) -> Option<Seq<u32>> {
    if buf.len() >= 4 && buf.len() >= 4 + 4 * le32(buf) {
        Some(Seq::new(le32(buf) as nat, |i: int| u32_at(buf, 4, i)))
    } else {
        None
    }
}

/// The storage ids of a GetStorageIds dataset (a u32 array).
pub fn storage_ids_from_data(data: &[u8]) -> (r: Result<Vec<StorageId>, Error>)
    ensures
        r is Ok <==> u32_array_values(data@) is Some,
        r matches Ok(ids) ==> u32_array_values(data@) == Some(ids@.map_values(|s: StorageId| s.0)),
        r matches Err(e) ==> is_invalid_data_with(e, u32_array_error(data@)),
{
    let (values, _) = unpack_u32_array(data)?;
    let mut ids: Vec<StorageId> = Vec::new();
    let mut i: usize = 0;
    while i < values.len()
        invariant
            i <= values@.len(),
            ids@.len() == i,
            forall|j: int| 0 <= j < i ==> (#[trigger] ids@[j]).0 == values@[j],
        decreases values@.len() - i,
    {
        ids.push(StorageId(values[i]));
        i = i + 1;
    }
    assert(values@ =~= Seq::new(le32(data@) as nat, |i: int| u32_at(data@, 4, i)));
    assert(ids@.map_values(|s: StorageId| s.0) =~= values@);
    Ok(ids)
}

/// The object handles of a GetObjectHandles dataset (a u32 array).
pub fn object_handles_from_data(data: &[u8]) -> (r: Result<Vec<ObjectHandle>, Error>)
    ensures
        r is Ok <==> u32_array_values(data@) is Some,
        r matches Ok(hs) ==> u32_array_values(data@) == Some(hs@.map_values(|h: ObjectHandle| h.0)),
        r matches Err(e) ==> is_invalid_data_with(e, u32_array_error(data@)),
{
    let (values, _) = unpack_u32_array(data)?;
    let mut hs: Vec<ObjectHandle> = Vec::new();
    let mut i: usize = 0;
    while i < values.len()
        invariant
            i <= values@.len(),
            hs@.len() == i,
            forall|j: int| 0 <= j < i ==> (#[trigger] hs@[j]).0 == values@[j],
        decreases values@.len() - i,
    {
        hs.push(ObjectHandle(values[i]));
        i = i + 1;
    }
    assert(values@ =~= Seq::new(le32(data@) as nat, |i: int| u32_at(data@, 4, i)));
    assert(hs@.map_values(|h: ObjectHandle| h.0) =~= values@);
    Ok(hs)
}

/// A device property value read from GetDevicePropValue data as the given
/// type; bytes after the value are ignored.
pub fn typed_property_value(data: &[u8], data_type: PropertyDataType) -> (r: Result<PropertyValue, Error>)
    ensures
        r is Ok <==> parsed_property_value(data@, data_type) is Some,
        r matches Ok(v) ==> parsed_property_value(data@, data_type) matches Some((w, _)) && w == v@,
        r matches Err(e) ==> is_invalid_data_with(e, property_value_error(data@, data_type)),
{
    let (value, _) = PropertyValue::from_bytes(data, data_type)?;
    Ok(value)
}

/// The length field of a data container that carries `total_size` payload
/// bytes: the container size, or 0xFFFFFFFF when it does not fit in 32 bits.
pub open spec fn send_length_field(total_size: u64) -> nat {
    if 12 + total_size <= 0xFFFF_FFFF {
        (12 + total_size) as nat
    } else {
        0xFFFF_FFFF
    }
}

/// The header of the data container that a streamed upload sends before
/// its payload.
pub fn send_data_header(operation: OperationCode, transaction_id: u32, total_size: u64) -> (r: Vec<u8>)
    requires
        total_size <= u64::MAX - 12,
    ensures
        r@ == header_bytes(send_length_field(total_size), 2, operation_code_to_code(operation), transaction_id),
{
    let container_length = HEADER_SIZE as u64 + total_size;
    let length: u32 = if container_length <= 0xFFFF_FFFF { container_length as u32 } else { 0xFFFF_FFFF };
    let mut buf = bytes_vec(&pack_u32(length));
    push_bytes(&mut buf, &pack_u16(ContainerType::Data.to_code()));
    push_bytes(&mut buf, &pack_u16(operation.to_code()));
    push_bytes(&mut buf, &pack_u32(transaction_id));
    proof {
        assert(send_length_field(total_size) % 0x1_0000_0000 == length as nat);
    }
    buf
}

/// The event that an interrupt transfer delivered: a timeout means no event;
/// other failures pass through; received bytes must form an event container.
pub fn event_from_interrupt(received: Result<Vec<u8>, Error>) -> (r: Result<Option<EventContainer>, Error>)
    ensures
        received matches Err(Error::Timeout) ==> r matches Ok(None),
        received is Err && !(received matches Err(Error::Timeout)) ==> r == Err::<Option<EventContainer>, Error>(received->Err_0),
        received matches Ok(bytes) ==> (r matches Ok(Some(c)) <==> super::container::parsed_event_container(bytes@) is Some),
        received matches Ok(bytes) ==> (r matches Ok(Some(c)) ==> super::container::parsed_event_container(bytes@)
            == Some((c.code, c.transaction_id, c.params@))),
        received matches Ok(bytes) ==> (r matches Err(e) ==> is_invalid_data_with(e, event_container_error(bytes@))),
        received is Ok ==> !(r matches Ok(None)),
{
    match received {
        Ok(bytes) => {
            let container = EventContainer::from_bytes(bytes.as_slice())?;
            Ok(Some(container))
        },
        Err(Error::Timeout) => Ok(None),
        Err(e) => Err(e),
    }
}

} // verus!
