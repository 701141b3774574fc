//! Putting back together what the device sends in answer to an operation
//! with a data phase: data containers (each possibly spread over several USB
//! transfers) followed by a response container.

use vstd::prelude::*;
use vstd::slice::slice_subrange;
use crate::error::{data_error, data_error_chars, data_error_counts, is_invalid_data_with, Error};
use crate::text::{chars_of, push_str};
use super::codes::{operation_code_to_code, response_code_from_code, EventCode, OperationCode, ResponseCode};
use super::container::{
    container_type, container_type_error, data_bytes, data_container_error, lemma_header_fields, header_length, header_type, parsed_container_type, parsed_data_container, parsed_response_container,
    lemma_container_type_of_bytes, lemma_response_container_roundtrip, response_bytes,
    response_container_error, ContainerType, DataContainer, ResponseContainer,
};
use super::pack::unpack_u32;
use super::session::{check_transaction, mismatch_message};

verus! {

/// Container header size in bytes.
const HEADER_SIZE: usize = 12;

/// Collects the payload of the data containers that answer one transaction,
/// until its response arrives.
pub struct DataReceiver {
    /// The transaction being answered.
    pub transaction_id: u32,
    /// The payload received so far.
    pub data: Vec<u8>,
    /// The first bytes of a data container whose remaining bytes are still
    /// to come.
    pub pending: Option<Vec<u8>>,
}

/// What a `DataReceiver` holds.
pub struct ReceiverView {
    /// The transaction being answered.
    pub transaction_id: u32,
    /// The payload received so far.
    pub data: Seq<u8>,
    /// The first bytes of an incomplete data container.
    pub pending: Option<Seq<u8>>,
}

impl View for DataReceiver {
    type V = ReceiverView;

    open spec fn view(&self) -> ReceiverView {
        ReceiverView {
            transaction_id: self.transaction_id,
            data: self.data@,
            pending: match self.pending {
                Some(p) => Some(p@),
                None => None,
            },
        }
    }
}

/// What one received transfer leads to.
pub enum ReceiveOutcome {
    /// More transfers are needed.
    More,
    /// The response arrived: its code, transaction id and parameters.
    Response(ResponseCode, u32, Seq<u32>),
    /// The transfer is refused as invalid data, with this message.
    Invalid(Seq<char>),
}

/// The message for a container that is neither data nor a response, which
/// names its type.
pub open spec fn unexpected_type_message(t: ContainerType) -> Seq<char> {
    "Unexpected container type: "@ + match t {
        ContainerType::Command => "Command"@,
        ContainerType::Data => "Data"@,
        ContainerType::Response => "Response"@,
        ContainerType::Event => "Event"@,
    }
}

/// The error for a container that is neither data nor a response.
fn unexpected_type_error(t: ContainerType) -> (e: Error)
    ensures
        is_invalid_data_with(e, unexpected_type_message(t)),
{
    let mut msg = chars_of("Unexpected container type: ");
    match t {
        ContainerType::Command => push_str(&mut msg, "Command"),
        ContainerType::Data => push_str(&mut msg, "Data"),
        ContainerType::Response => push_str(&mut msg, "Response"),
        ContainerType::Event => push_str(&mut msg, "Event"),
    }
    data_error_chars(msg)
}

/// A receiver state is well formed when a pending container holds at least
/// its header but fewer bytes than its length field announces.
pub open spec fn receiver_wf(s: ReceiverView) -> bool {
    s.pending matches Some(p) ==> p.len() >= 12 && p.len() < header_length(p)
}

/// The bytes of the container being received once `bytes` arrive.
pub open spec fn receive_buffer(s: ReceiverView, bytes: Seq<u8>) -> Seq<u8> {
    match s.pending {
        Some(p) => p + bytes,
        None => bytes,
    }
}

/// A data container's bytes `b` so far: kept as pending while shorter than
/// its length field, otherwise parsed and its payload appended (or dropped,
/// when they do not form a data container).
pub open spec fn data_step(s: ReceiverView, b: Seq<u8>) -> (ReceiverView, ReceiveOutcome) {
    if b.len() < header_length(b) {
        (ReceiverView { pending: Some(b), ..s }, ReceiveOutcome::More)
    } else {
        match parsed_data_container(b) {
            Some((_, _, payload)) => (
                ReceiverView { data: s.data + payload, pending: None, ..s },
                ReceiveOutcome::More,
            ),
            None => (ReceiverView { pending: None, ..s }, ReceiveOutcome::Invalid(data_container_error(b))),
        }
    }
}

/// The receiver after one transfer, and what the transfer leads to: an empty
/// transfer is invalid; the rest of a pending data container is added to
/// it; otherwise the transfer starts a container, which must be a data
/// container or the response to this transaction.
pub open spec fn receiver_step(s: ReceiverView, bytes: Seq<u8>) -> (ReceiverView, ReceiveOutcome) {
    let b = receive_buffer(s, bytes);
    if bytes.len() == 0 {
        (
            s,
            ReceiveOutcome::Invalid(
                if s.pending is Some {
                    "Incomplete data container: device stopped sending"@
                } else {
                    "Empty response"@
                },
            ),
        )
    } else if s.pending is Some {
        data_step(s, b)
    } else {
        match parsed_container_type(b) {
            Some(ContainerType::Data) => data_step(s, b),
            Some(ContainerType::Response) => match parsed_response_container(b) {
                Some((code, tid, params)) => if tid == s.transaction_id {
                    (s, ReceiveOutcome::Response(code, tid, params))
                } else {
                    (s, ReceiveOutcome::Invalid(mismatch_message(s.transaction_id, tid)))
                },
                None => (s, ReceiveOutcome::Invalid(response_container_error(b))),
            },
            Some(t) => (s, ReceiveOutcome::Invalid(unexpected_type_message(t))),
            None => (s, ReceiveOutcome::Invalid(container_type_error(b))),
        }
    }
}

impl DataReceiver {
    /// A receiver for the answer to transaction `transaction_id`.
    pub fn new(transaction_id: u32) -> (r: Self)
        ensures
            r@ == (ReceiverView { transaction_id, data: Seq::empty(), pending: None }),
    {
        DataReceiver { transaction_id, data: Vec::new(), pending: None }
    }

    /// The payload received so far.
    pub fn into_data(self) -> (r: Vec<u8>)
        ensures
            r@ == self@.data,
    {
        self.data
    }

    /// Take one received transfer: `Ok(None)` when more transfers are
    /// needed, `Ok(Some(response))` when the response arrived, or invalid
    /// data (an empty transfer, a malformed or unexpected container, or a
    /// response to another transaction).
    pub fn feed(&mut self, bytes: Vec<u8>) -> (r: Result<Option<ResponseContainer>, Error>)
        requires
            receiver_wf(old(self)@),
        ensures
            match receiver_step(old(self)@, bytes@).1 {
                ReceiveOutcome::More => r matches Ok(None) && final(self)@ == receiver_step(old(self)@, bytes@).0
                    && receiver_wf(final(self)@),
                ReceiveOutcome::Response(code, tid, params) => r matches Ok(Some(resp)) && resp.code == code
                    && resp.transaction_id == tid && resp.params@ == params && final(self)@ == old(self)@,
                ReceiveOutcome::Invalid(message) => r matches Err(e) && is_invalid_data_with(e, message)
                    && final(self)@ == receiver_step(old(self)@, bytes@).0,
            },
    {
        let ghost s = self@;
        if bytes.len() == 0 {
            return match self.pending {
                Some(_) => Err(data_error("Incomplete data container: device stopped sending")),
                None => Err(data_error("Empty response")),
            };
        }
        let was_pending = self.pending.is_some();
        let buf = match self.pending.take() {
            Some(p) => {
                let mut p = p;
                let mut more = bytes;
                p.append(&mut more);
                p
            },
            None => bytes,
        };
        assert(buf@ == receive_buffer(s, bytes@));
        if !was_pending {
            let ct = match container_type(buf.as_slice()) {
                Ok(ct) => ct,
                Err(e) => {
                    self.pending = None;
                    return Err(e);
                },
            };
            match ct {
                ContainerType::Data => {},
                ContainerType::Response => {
                    let response = ResponseContainer::from_bytes(buf.as_slice())?;
                    let response = check_transaction(self.transaction_id, response)?;
                    return Ok(Some(response));
                },
                _ => {
                    return Err(unexpected_type_error(ct));
                },
            }
        }
        let total = match unpack_u32(slice_subrange(buf.as_slice(), 0, 4)) {
            Ok(v) => v,
            Err(e) => return Err(e),
        };
        if (buf.len() as u64) < (total as u64) {
            self.pending = Some(buf);
            return Ok(None);
        }
        let container = DataContainer::from_bytes(buf.as_slice())?;
        let mut payload = container.payload;
        self.data.append(&mut payload);
        Ok(None)
    }
}

// --- Reassembly of a data container ---

/// The transfers one after another.
pub open spec fn concat_all(pieces: Seq<Seq<u8>>) -> Seq<u8>
    decreases pieces.len(),
{
    if pieces.len() == 0 {
        Seq::empty()
    } else {
        concat_all(pieces.drop_last()) + pieces.last()
    }
}

/// The receiver after taking the transfers one after another, as long as
/// each asks for more; `None` once one does not.
pub open spec fn feed_all(s: ReceiverView, pieces: Seq<Seq<u8>>) -> Option<ReceiverView>
    decreases pieces.len(),
{
    if pieces.len() == 0 {
        Some(s)
    } else {
        match feed_all(s, pieces.drop_last()) {
            Some(t) => match receiver_step(t, pieces.last()) {
                (u, ReceiveOutcome::More) => Some(u),
                _ => None,
            },
            None => None,
        }
    }
}

/// The transfers before `j`, run together, begin the run of all of them; with
/// nonempty transfers, each one after `j` adds at least a byte.
proof fn lemma_concat_prefix(pieces: Seq<Seq<u8>>, j: int)
    requires
        0 <= j <= pieces.len(),
        forall|i: int| 0 <= i < pieces.len() ==> (#[trigger] pieces[i]).len() > 0,
    ensures
        concat_all(pieces.subrange(0, j)).len() + (pieces.len() - j) <= concat_all(pieces).len(),
        concat_all(pieces).subrange(0, concat_all(pieces.subrange(0, j)).len() as int) == concat_all(
            pieces.subrange(0, j),
        ),
    decreases pieces.len(),
{
    if j == pieces.len() {
        assert(pieces.subrange(0, j) =~= pieces);
        assert(concat_all(pieces).subrange(0, concat_all(pieces).len() as int) =~= concat_all(pieces));
    } else {
        let d = pieces.drop_last();
        assert forall|i: int| 0 <= i < d.len() implies (#[trigger] d[i]).len() > 0 by {
            assert(d[i] == pieces[i]);
        }
        lemma_concat_prefix(d, j);
        assert(d.subrange(0, j) =~= pieces.subrange(0, j));
        let c = concat_all(pieces.subrange(0, j));
        assert(concat_all(pieces) == concat_all(d) + pieces.last());
        assert(concat_all(pieces).subrange(0, c.len() as int) =~= concat_all(d).subrange(0, c.len() as int));
    }
}

/// Taking one more transfer adds it to the run.
proof fn lemma_concat_step(pieces: Seq<Seq<u8>>, j: int)
    requires
        0 <= j < pieces.len(),
    ensures
        concat_all(pieces.subrange(0, j + 1)) == concat_all(pieces.subrange(0, j)) + pieces[j],
        pieces.subrange(0, j + 1).drop_last() == pieces.subrange(0, j),
        pieces.subrange(0, j + 1).last() == pieces[j],
{
    assert(pieces.subrange(0, j + 1).drop_last() =~= pieces.subrange(0, j));
}

/// A start of a data container's bytes that holds its header has the
/// container's length field and type.
proof fn lemma_header_prefix(b: Seq<u8>, c: Seq<u8>)
    requires
        12 <= c.len() <= b.len(),
        b.subrange(0, c.len() as int) == c,
    ensures
        header_length(c) == header_length(b),
        header_type(c) == header_type(b),
{
    assert(c.subrange(0, 4) =~= b.subrange(0, 4));
    assert(c.subrange(4, 6) =~= b.subrange(4, 6));
}

/// While the run of the first `j` transfers is shorter than the container,
/// the receiver keeps it pending.
#[verifier::spinoff_prover]
#[verifier::rlimit(50)]
proof fn lemma_pending_prefix(s: ReceiverView, pieces: Seq<Seq<u8>>, b: Seq<u8>, j: int)
    requires
        s.pending is None,
        1 <= j < pieces.len(),
        pieces[0].len() >= 12,
        forall|i: int| 0 <= i < pieces.len() ==> (#[trigger] pieces[i]).len() > 0,
        concat_all(pieces) == b,
        header_length(b) == b.len(),
        header_type(b) == 2,
    ensures
        feed_all(s, pieces.subrange(0, j)) == Some(
            ReceiverView { pending: Some(concat_all(pieces.subrange(0, j))), ..s },
        ),
    decreases j,
{
    lemma_concat_step(pieces, j - 1);
    lemma_concat_prefix(pieces, j);
    let c = concat_all(pieces.subrange(0, j));
    lemma_concat_prefix(pieces, 1);
    lemma_concat_step(pieces, 0);
    assert(pieces.subrange(0, 0) =~= Seq::<Seq<u8>>::empty());
    if j == 1 {
        assert(c =~= pieces[0]);
        lemma_header_prefix(b, c);
    } else {
        lemma_pending_prefix(s, pieces, b, j - 1);
        lemma_concat_prefix(pieces, j - 1);
        lemma_concat_step(pieces, 0);
        assert(concat_all(pieces.subrange(0, j - 1)).len() >= pieces[0].len()) by {
            lemma_prefix_len_grows(pieces, j - 1);
        }
        lemma_header_prefix(b, c);
    }
}

/// The run of the first `j >= 1` transfers is at least as long as the first.
proof fn lemma_prefix_len_grows(pieces: Seq<Seq<u8>>, j: int)
    requires
        1 <= j <= pieces.len(),
    ensures
        concat_all(pieces.subrange(0, j)).len() >= pieces[0].len(),
    decreases j,
{
    lemma_concat_step(pieces, j - 1);
    if j == 1 {
        assert(pieces.subrange(0, 0) =~= Seq::<Seq<u8>>::empty());
    } else {
        lemma_prefix_len_grows(pieces, j - 1);
    }
}

/// A data container, spread over any number of nonempty transfers of which
/// the first holds the whole header, is taken in full: every transfer asks
/// for more, and afterwards its payload has been added to the data received
/// and nothing is pending.
#[verifier::spinoff_prover]
#[verifier::rlimit(50)]
pub proof fn lemma_data_container_reassembly(
    s: ReceiverView,
    code: OperationCode,
    transaction_id: u32,
    payload: Seq<u8>,
    pieces: Seq<Seq<u8>>,
)
    requires
        s.pending is None,
        12 + payload.len() < 0x1_0000_0000,
        pieces.len() >= 1,
        pieces[0].len() >= 12,
        forall|i: int| 0 <= i < pieces.len() ==> (#[trigger] pieces[i]).len() > 0,
        concat_all(pieces) == data_bytes(code, transaction_id, payload),
    ensures
        feed_all(s, pieces) == Some(ReceiverView { data: s.data + payload, pending: None, ..s }),
{
    let b = data_bytes(code, transaction_id, payload);
    let n = (12 + payload.len()) as nat;
    let oc = operation_code_to_code(code);
    lemma_header_fields(n, 2, oc, transaction_id, payload);
    assert(b.subrange(12, b.len() as int) =~= payload);
    let k = pieces.len() as int;
    assert(pieces.subrange(0, k) =~= pieces);
    lemma_concat_step(pieces, k - 1);
    if k == 1 {
        assert(pieces.subrange(0, 0) =~= Seq::<Seq<u8>>::empty());
        assert(concat_all(Seq::<Seq<u8>>::empty()) =~= Seq::<u8>::empty());
        assert(pieces[0] =~= b);
    } else {
        lemma_pending_prefix(s, pieces, b, k - 1);
        lemma_concat_prefix(pieces, k - 1);
        lemma_prefix_len_grows(pieces, k - 1);
    }
}

/// The transfers of several groups, group after group.
pub open spec fn join_groups(groups: Seq<Seq<Seq<u8>>>) -> Seq<Seq<u8>>
    decreases groups.len(),
{
    if groups.len() == 0 {
        Seq::empty()
    } else {
        join_groups(groups.drop_last()) + groups.last()
    }
}

/// Whether a group of transfers carries one whole data container with this
/// code, transaction id and payload: the transfers are nonempty, the first
/// holds the whole header, and they run together to the container's bytes.
pub open spec fn carries_data_container(
    group: Seq<Seq<u8>>,
    code: OperationCode,
    transaction_id: u32,
    payload: Seq<u8>,
) -> bool {
    &&& 12 + payload.len() < 0x1_0000_0000
    &&& group.len() >= 1
    &&& group[0].len() >= 12
    &&& forall|j: int| 0 <= j < group.len() ==> (#[trigger] group[j]).len() > 0
    &&& concat_all(group) == data_bytes(code, transaction_id, payload)
}

/// Whether the groups of transfers carry, one group each, the data containers
/// with the codes, transaction ids and payloads of the same index.
pub open spec fn carries_data_containers(
    groups: Seq<Seq<Seq<u8>>>,
    codes: Seq<OperationCode>,
    transaction_ids: Seq<u32>,
    payloads: Seq<Seq<u8>>,
) -> bool {
    &&& codes.len() == groups.len()
    &&& transaction_ids.len() == groups.len()
    &&& payloads.len() == groups.len()
    &&& forall|i: int|
        0 <= i < groups.len() ==> #[trigger] carries_data_container(
            groups[i],
            codes[i],
            transaction_ids[i],
            payloads[i],
        )
}

/// Taking the transfers of `a` and then those of `b` is taking those of
/// `a + b`.
proof fn lemma_feed_all_append(s: ReceiverView, a: Seq<Seq<u8>>, b: Seq<Seq<u8>>)
    ensures
        feed_all(s, a + b) == match feed_all(s, a) {
            Some(t) => feed_all(t, b),
            None => None,
        },
    decreases b.len(),
{
    if b.len() == 0 {
        assert(a + b =~= a);
    } else {
        lemma_feed_all_append(s, a, b.drop_last());
        assert((a + b).drop_last() =~= a + b.drop_last());
        assert((a + b).last() == b.last());
    }
}

/// Several data containers, each spread over its own group of transfers, are
/// taken in full: every transfer asks for more, and afterwards their payloads,
/// one after another, have been added to the data received.
pub proof fn lemma_data_containers_reassembly(
    s: ReceiverView,
    groups: Seq<Seq<Seq<u8>>>,
    codes: Seq<OperationCode>,
    transaction_ids: Seq<u32>,
    payloads: Seq<Seq<u8>>,
)
    requires
        s.pending is None,
        carries_data_containers(groups, codes, transaction_ids, payloads),
    ensures
        feed_all(s, join_groups(groups)) == Some(
            ReceiverView { data: s.data + concat_all(payloads), pending: None, ..s },
        ),
    decreases groups.len(),
{
    if groups.len() == 0 {
        assert(s.data + concat_all(payloads) =~= s.data);
    } else {
        let k = groups.len() - 1;
        let gd = groups.drop_last();
        let cd = codes.drop_last();
        let td = transaction_ids.drop_last();
        let pd = payloads.drop_last();
        assert forall|i: int| 0 <= i < gd.len() implies #[trigger] carries_data_container(
            gd[i],
            cd[i],
            td[i],
            pd[i],
        ) by {
            assert(carries_data_container(groups[i], codes[i], transaction_ids[i], payloads[i]));
        }
        lemma_data_containers_reassembly(s, gd, cd, td, pd);
        lemma_feed_all_append(s, join_groups(gd), groups.last());
        let t = ReceiverView { data: s.data + concat_all(pd), pending: None, ..s };
        assert(carries_data_container(groups[k], codes[k], transaction_ids[k], payloads[k]));
        lemma_data_container_reassembly(t, codes[k], transaction_ids[k], payloads[k], groups[k]);
        assert(t.data + payloads[k] =~= s.data + concat_all(payloads));
    }
}

/// The whole answer to an operation with a data phase: data containers, each
/// spread over its own group of transfers, then the response in a transfer of
/// its own. Every data transfer asks for more, the payloads are received one
/// after another, and the response is handed back when it answers this
/// transaction; a response to another transaction is refused as invalid data.
pub proof fn lemma_receive_answer(
    s: ReceiverView,
    groups: Seq<Seq<Seq<u8>>>,
    codes: Seq<OperationCode>,
    transaction_ids: Seq<u32>,
    payloads: Seq<Seq<u8>>,
    code: ResponseCode,
    transaction_id: u32,
    params: Seq<u32>,
)
    requires
        s.pending is None,
        carries_data_containers(groups, codes, transaction_ids, payloads),
        12 + 4 * params.len() < 0x1_0000_0000,
        code matches ResponseCode::Unknown(c) ==> response_code_from_code(c) is Unknown,
    ensures
        ({
            let t = ReceiverView { data: s.data + concat_all(payloads), pending: None, ..s };
            &&& feed_all(s, join_groups(groups)) == Some(t)
            &&& receiver_step(t, response_bytes(code, transaction_id, params)) == if transaction_id
                == s.transaction_id {
                (t, ReceiveOutcome::Response(code, transaction_id, params))
            } else {
                (t, ReceiveOutcome::Invalid(mismatch_message(s.transaction_id, transaction_id)))
            }
        }),
{
    lemma_data_containers_reassembly(s, groups, codes, transaction_ids, payloads);
    let rb = response_bytes(code, transaction_id, params);
    assert(rb + Seq::<u8>::empty() =~= rb);
    lemma_container_type_of_bytes(
        OperationCode::GetDeviceInfo,
        code,
        EventCode::ObjectAdded,
        transaction_id,
        params,
        Seq::empty(),
        Seq::empty(),
    );
    lemma_response_container_roundtrip(code, transaction_id, params, Seq::empty());
}

// --- Streaming receive ---

/// The state of a streamed receive: the bytes received but not yet handed
/// on, and how far into the current data container the payload has been
/// handed out.
pub struct ReceiveState {
    /// The transaction being answered.
    pub transaction_id: u32,
    /// The operation being answered.
    pub operation: OperationCode,
    /// Bytes received and not yet dropped.
    pub buffer: Vec<u8>,
    /// Total length of the current container (from its header).
    pub container_length: usize,
    /// Payload bytes of the current container already handed out.
    pub payload_yielded: usize,
    /// Whether the current container's header has been read.
    pub header_parsed: bool,
    /// Whether the stream is over.
    pub done: bool,
}

/// What a `ReceiveState` holds.
pub struct ReceiveStateView {
    /// The transaction being answered.
    pub transaction_id: u32,
    /// The operation being answered.
    pub operation: OperationCode,
    /// Bytes received and not yet dropped.
    pub buffer: Seq<u8>,
    /// Total length of the current container.
    pub container_length: nat,
    /// Payload bytes of the current container already handed out.
    pub payload_yielded: nat,
    /// Whether the current container's header has been read.
    pub header_parsed: bool,
    /// Whether the stream is over.
    pub done: bool,
}

impl View for ReceiveState {
    type V = ReceiveStateView;

    open spec fn view(&self) -> ReceiveStateView {
        ReceiveStateView {
            transaction_id: self.transaction_id,
            operation: self.operation,
            buffer: self.buffer@,
            container_length: self.container_length as nat,
            payload_yielded: self.payload_yielded as nat,
            header_parsed: self.header_parsed,
            done: self.done,
        }
    }
}

/// A streamed receive is well formed when, before a header is read, nothing
/// is counted, and after it, the payload handed out lies within the buffer.
pub open spec fn stream_wf(s: ReceiveStateView) -> bool {
    &&& !s.header_parsed ==> s.container_length == 0 && s.payload_yielded == 0
    &&& s.header_parsed ==> 12 + s.payload_yielded <= s.buffer.len()
}

/// The state once the current container is complete: its bytes are
/// dropped and the next container's header is awaited.
pub open spec fn drop_container(s: ReceiveStateView) -> ReceiveStateView {
    ReceiveStateView {
        buffer: s.buffer.subrange(s.container_length as int, s.buffer.len() as int),
        container_length: 0,
        payload_yielded: 0,
        header_parsed: false,
        ..s
    }
}

/// Handing out buffered payload: the payload of the current container that
/// has arrived and was not handed out yet (if any), dropping the container
/// once it is complete.
pub open spec fn buffered_step(s: ReceiveStateView) -> (ReceiveStateView, Option<Seq<u8>>) {
    if !s.header_parsed {
        (s, None)
    } else {
        let start: int = (12 + s.payload_yielded) as int;
        let end = if s.buffer.len() < s.container_length { s.buffer.len() as int } else { s.container_length as int };
        if start < end {
            let chunk = s.buffer.subrange(start, end);
            if s.buffer.len() >= s.container_length {
                (drop_container(s), Some(chunk))
            } else {
                (ReceiveStateView { payload_yielded: (end - 12) as nat, ..s }, Some(chunk))
            }
        } else if s.buffer.len() >= s.container_length {
            (drop_container(s), None)
        } else {
            (s, None)
        }
    }
}

/// What a received transfer leads to in a streamed receive.
pub enum StreamStep {
    /// Go on: hand out buffered payload, or receive more.
    Continue,
    /// The response reported success: the stream is over.
    End,
    /// The stream fails with this error.
    Fail(Error),
}

/// The kind of outcome of a received transfer, for contracts.
pub enum StreamOutcome {
    /// Go on.
    Continue,
    /// The stream is over.
    End,
    /// Invalid data, with this message.
    Invalid(Seq<char>),
    /// The response reported a failure code.
    Refused(ResponseCode),
}

/// A received transfer (one that did not fail): an empty one is invalid;
/// otherwise it is buffered, and when no header has been read yet and the
/// buffer holds one, the header is read: a data container's length is
/// noted, and a response ends the stream, successfully only for this
/// transaction and the success code.
pub open spec fn receive_step(s: ReceiveStateView, bytes: Seq<u8>) -> (ReceiveStateView, StreamOutcome) {
    let b = s.buffer + bytes;
    if bytes.len() == 0 {
        (s, StreamOutcome::Invalid("Empty response from device"@))
    } else if s.header_parsed || b.len() < 12 {
        (ReceiveStateView { buffer: b, ..s }, StreamOutcome::Continue)
    } else {
        match parsed_container_type(b) {
            Some(ContainerType::Data) => (
                ReceiveStateView { buffer: b, container_length: header_length(b) as nat, header_parsed: true, ..s },
                StreamOutcome::Continue,
            ),
            Some(ContainerType::Response) => (
                ReceiveStateView { buffer: b, done: true, ..s },
                match parsed_response_container(b) {
                    Some((code, tid, _)) => if tid != s.transaction_id {
                        StreamOutcome::Invalid(mismatch_message(s.transaction_id, tid))
                    } else if code != ResponseCode::Success {
                        StreamOutcome::Refused(code)
                    } else {
                        StreamOutcome::End
                    },
                    None => StreamOutcome::Invalid(response_container_error(b)),
                },
            ),
            Some(t) => (ReceiveStateView { buffer: b, done: true, ..s }, StreamOutcome::Invalid(unexpected_type_message(t))),
            None => (ReceiveStateView { buffer: b, done: true, ..s }, StreamOutcome::Invalid(container_type_error(b))),
        }
    }
}

impl ReceiveState {
    /// The state of a streamed receive for a command just sent.
    pub fn new(transaction_id: u32, operation: OperationCode) -> (r: Self)
        ensures
            r@ == (ReceiveStateView {
                transaction_id,
                operation,
                buffer: Seq::empty(),
                container_length: 0,
                payload_yielded: 0,
                header_parsed: false,
                done: false,
            }),
    {
        ReceiveState {
            transaction_id,
            operation,
            buffer: Vec::new(),
            container_length: 0,
            payload_yielded: 0,
            header_parsed: false,
            done: false,
        }
    }

    /// Hand out the buffered payload of the current container, if any.
    pub fn take_buffered(&mut self) -> (r: Option<Vec<u8>>)
        requires
            stream_wf(old(self)@),
        ensures
            final(self)@ == buffered_step(old(self)@).0,
            stream_wf(final(self)@),
            match buffered_step(old(self)@).1 {
                Some(c) => r matches Some(v) && v@ == c,
                None => r is None,
            },
    {
        if !self.header_parsed {
            return None;
        }
        let blen = self.buffer.len();
        assert(12 + self.payload_yielded <= blen);
        let start = HEADER_SIZE + self.payload_yielded;
        let end = if self.buffer.len() < self.container_length { self.buffer.len() } else { self.container_length };
        if start < end {
            let chunk = super::pack::bytes_vec(slice_subrange(self.buffer.as_slice(), start, end));
            self.payload_yielded = end - HEADER_SIZE;
            if self.buffer.len() >= self.container_length {
                self.drop_current();
            }
            Some(chunk)
        } else {
            if self.buffer.len() >= self.container_length {
                self.drop_current();
            }
            None
        }
    }

    /// Drop the current (complete) container from the buffer.
    fn drop_current(&mut self)
        requires
            old(self).container_length <= old(self)@.buffer.len(),
        ensures
            final(self)@ == drop_container(old(self)@),
    {
        let rest = super::pack::bytes_vec(slice_subrange(self.buffer.as_slice(), self.container_length, self.buffer.len()));
        self.buffer = rest;
        self.header_parsed = false;
        self.container_length = 0;
        self.payload_yielded = 0;
    }

    /// Take the outcome of a receive: a failed transfer ends the stream with
    /// its error; received bytes are buffered and judged by `receive_step`.
    pub fn on_receive(&mut self, received: Result<Vec<u8>, Error>) -> (r: StreamStep)
        requires
            stream_wf(old(self)@),
        ensures
            stream_wf(final(self)@),
            received is Err ==> r == StreamStep::Fail(received->Err_0)
                && final(self)@ == (ReceiveStateView { done: true, ..old(self)@ }),
            received matches Ok(bytes) ==> ({
                let (t, o) = receive_step(old(self)@, bytes@);
                &&& final(self)@ == t
                &&& match o {
                    StreamOutcome::Continue => r is Continue,
                    StreamOutcome::End => r is End,
                    StreamOutcome::Invalid(message) => r matches StreamStep::Fail(e) && is_invalid_data_with(e, message),
                    StreamOutcome::Refused(code) => r == StreamStep::Fail(
                        Error::Protocol { code, operation: old(self).operation },
                    ),
                }
            }),
    {
        let bytes = match received {
            Ok(b) => b,
            Err(e) => {
                self.done = true;
                return StreamStep::Fail(e);
            },
        };
        if bytes.len() == 0 {
            return StreamStep::Fail(data_error("Empty response from device"));
        }
        let mut more = bytes;
        self.buffer.append(&mut more);
        if self.header_parsed || self.buffer.len() < HEADER_SIZE {
            return StreamStep::Continue;
        }
        let ct = match container_type(self.buffer.as_slice()) {
            Ok(ct) => ct,
            Err(e) => {
                self.done = true;
                return StreamStep::Fail(e);
            },
        };
        match ct {
            ContainerType::Data => {
                let length = match unpack_u32(slice_subrange(self.buffer.as_slice(), 0, 4)) {
                    Ok(l) => l,
                    Err(e) => {
                        self.done = true;
                        return StreamStep::Fail(e);
                    },
                };
                self.container_length = length as usize;
                self.header_parsed = true;
                StreamStep::Continue
            },
            ContainerType::Response => {
                self.done = true;
                let response = match ResponseContainer::from_bytes(self.buffer.as_slice()) {
                    Ok(r) => r,
                    Err(e) => return StreamStep::Fail(e),
                };
                if response.transaction_id != self.transaction_id {
                    return StreamStep::Fail(
                        data_error_counts(
                            "Transaction ID mismatch: expected ",
                            self.transaction_id as u64,
                            ", got ",
                            response.transaction_id as u64,
                        ),
                    );
                }
                if !response.is_ok() {
                    return StreamStep::Fail(Error::Protocol { code: response.code, operation: self.operation });
                }
                StreamStep::End
            },
            _ => {
                self.done = true;
                StreamStep::Fail(unexpected_type_error(ct))
            },
        }
    }
}

/// The bytes a handed-out chunk adds to the output.
pub open spec fn chunk_bytes(c: Option<Seq<u8>>) -> Seq<u8> {
    match c {
        Some(x) => x,
        None => Seq::empty(),
    }
}

/// A streamed receive over transfers: for each, the transfer is taken and
/// then buffered payload is handed out; the state and all payload handed
/// out, as long as every transfer lets the stream go on.
pub open spec fn stream_run(s: ReceiveStateView, pieces: Seq<Seq<u8>>) -> Option<(ReceiveStateView, Seq<u8>)>
    decreases pieces.len(),
{
    if pieces.len() == 0 {
        Some((s, Seq::empty()))
    } else {
        match stream_run(s, pieces.drop_last()) {
            Some((t, out)) => match receive_step(t, pieces.last()) {
                (u, StreamOutcome::Continue) => Some(
                    (buffered_step(u).0, out + chunk_bytes(buffered_step(u).1)),
                ),
                _ => None,
            },
            None => None,
        }
    }
}

/// While the first `j` transfers are shorter than the container, a
/// streamed receive has handed out all their payload and awaits the rest.
#[verifier::spinoff_prover]
#[verifier::rlimit(50)]
proof fn lemma_stream_prefix(s: ReceiveStateView, pieces: Seq<Seq<u8>>, b: Seq<u8>, j: int)
    requires
        s.buffer.len() == 0,
        !s.header_parsed,
        s.container_length == 0,
        s.payload_yielded == 0,
        1 <= j < pieces.len(),
        pieces[0].len() >= 12,
        forall|i: int| 0 <= i < pieces.len() ==> (#[trigger] pieces[i]).len() > 0,
        concat_all(pieces) == b,
        header_length(b) == b.len(),
        header_type(b) == 2,
    ensures
        ({
            let c = concat_all(pieces.subrange(0, j));
            stream_run(s, pieces.subrange(0, j)) == Some(
                (
                    ReceiveStateView {
                        buffer: c,
                        container_length: b.len(),
                        payload_yielded: (c.len() - 12) as nat,
                        header_parsed: true,
                        ..s
                    },
                    c.subrange(12, c.len() as int),
                ),
            )
        }),
    decreases j,
{
    lemma_concat_step(pieces, j - 1);
    lemma_concat_prefix(pieces, j);
    lemma_prefix_len_grows(pieces, j);
    let c = concat_all(pieces.subrange(0, j));
    lemma_header_prefix(b, c);
    if j == 1 {
        assert(pieces.subrange(0, 0) =~= Seq::<Seq<u8>>::empty());
        assert(c =~= pieces[0]);
        assert(s.buffer + pieces[0] =~= c);
        assert(Seq::<u8>::empty() + chunk_bytes(buffered_step(
            ReceiveStateView { buffer: c, container_length: header_length(c) as nat, header_parsed: true, ..s },
        ).1) =~= c.subrange(12, c.len() as int));
    } else {
        lemma_stream_prefix(s, pieces, b, j - 1);
        lemma_prefix_len_grows(pieces, j - 1);
        let p = concat_all(pieces.subrange(0, j - 1));
        assert(c.subrange(12, c.len() as int) =~= p.subrange(12, p.len() as int) + c.subrange(p.len() as int, c.len() as int));
    }
}

/// A data container, spread over any number of nonempty transfers of which
/// the first holds the whole header, streams out exactly its payload: every
/// transfer lets the stream go on, the chunks handed out run together to the
/// payload, and afterwards nothing is buffered and the next header is
/// awaited.
#[verifier::spinoff_prover]
#[verifier::rlimit(50)]
pub proof fn lemma_stream_yields_payload(
    s: ReceiveStateView,
    code: OperationCode,
    transaction_id: u32,
    payload: Seq<u8>,
    pieces: Seq<Seq<u8>>,
)
    requires
        s.buffer.len() == 0,
        !s.header_parsed,
        s.container_length == 0,
        s.payload_yielded == 0,
        12 + payload.len() < 0x1_0000_0000,
        pieces.len() >= 1,
        pieces[0].len() >= 12,
        forall|i: int| 0 <= i < pieces.len() ==> (#[trigger] pieces[i]).len() > 0,
        concat_all(pieces) == data_bytes(code, transaction_id, payload),
    ensures
        stream_run(s, pieces) == Some((s, payload)),
{
    let b = data_bytes(code, transaction_id, payload);
    let n = (12 + payload.len()) as nat;
    let oc = operation_code_to_code(code);
    lemma_header_fields(n, 2, oc, transaction_id, payload);
    assert(b.subrange(12, b.len() as int) =~= payload);
    let k = pieces.len() as int;
    assert(pieces.subrange(0, k) =~= pieces);
    lemma_concat_step(pieces, k - 1);
    assert(b.subrange(b.len() as int, b.len() as int) =~= s.buffer);
    if k == 1 {
        assert(pieces.subrange(0, 0) =~= Seq::<Seq<u8>>::empty());
        assert(pieces[0] =~= b);
        assert(s.buffer + pieces[0] =~= b);
        assert(Seq::<u8>::empty() + chunk_bytes(buffered_step(
            ReceiveStateView { buffer: b, container_length: header_length(b) as nat, header_parsed: true, ..s },
        ).1) =~= payload);
    } else {
        lemma_stream_prefix(s, pieces, b, k - 1);
        lemma_concat_prefix(pieces, k - 1);
        lemma_prefix_len_grows(pieces, k - 1);
        let p = concat_all(pieces.subrange(0, k - 1));
        assert(payload =~= p.subrange(12, p.len() as int) + b.subrange(p.len() as int, b.len() as int));
    }
}

/// Running the transfers of `a` and then those of `b` is running those of
/// `a + b`, with the payload of both runs handed out one after another.
proof fn lemma_stream_run_append(s: ReceiveStateView, a: Seq<Seq<u8>>, b: Seq<Seq<u8>>)
    ensures
        stream_run(s, a + b) == match stream_run(s, a) {
            Some((t, out)) => match stream_run(t, b) {
                Some((u, more)) => Some((u, out + more)),
                None => None,
            },
            None => None,
        },
    decreases b.len(),
{
    if b.len() == 0 {
        assert(a + b =~= a);
        if let Some((t, out)) = stream_run(s, a) {
            assert(out + Seq::<u8>::empty() =~= out);
        }
    } else {
        lemma_stream_run_append(s, a, b.drop_last());
        assert((a + b).drop_last() =~= a + b.drop_last());
        assert((a + b).last() == b.last());
        if let Some((t, out)) = stream_run(s, a) {
            if let Some((u, more)) = stream_run(t, b.drop_last()) {
                let (v, o) = receive_step(u, b.last());
                if o is Continue {
                    assert(out + more + chunk_bytes(buffered_step(v).1) =~= out + (more + chunk_bytes(
                        buffered_step(v).1,
                    )));
                }
            }
        }
    }
}

/// Several data containers, each spread over its own group of transfers,
/// stream out exactly their payloads one after another: every transfer lets
/// the stream go on, and afterwards nothing is buffered and the next header is
/// awaited.
pub proof fn lemma_stream_yields_payloads(
    s: ReceiveStateView,
    groups: Seq<Seq<Seq<u8>>>,
    codes: Seq<OperationCode>,
    transaction_ids: Seq<u32>,
    payloads: Seq<Seq<u8>>,
)
    requires
        s.buffer.len() == 0,
        !s.header_parsed,
        s.container_length == 0,
        s.payload_yielded == 0,
        carries_data_containers(groups, codes, transaction_ids, payloads),
    ensures
        stream_run(s, join_groups(groups)) == Some((s, concat_all(payloads))),
    decreases groups.len(),
{
    if groups.len() == 0 {
    } else {
        let k = groups.len() - 1;
        let gd = groups.drop_last();
        let cd = codes.drop_last();
        let td = transaction_ids.drop_last();
        let pd = payloads.drop_last();
        assert forall|i: int| 0 <= i < gd.len() implies #[trigger] carries_data_container(
            gd[i],
            cd[i],
            td[i],
            pd[i],
        ) by {
            assert(carries_data_container(groups[i], codes[i], transaction_ids[i], payloads[i]));
        }
        lemma_stream_yields_payloads(s, gd, cd, td, pd);
        lemma_stream_run_append(s, join_groups(gd), groups.last());
        assert(carries_data_container(groups[k], codes[k], transaction_ids[k], payloads[k]));
        lemma_stream_yields_payload(s, codes[k], transaction_ids[k], payloads[k], groups[k]);
    }
}

/// The whole streamed answer to an operation with a data phase: data
/// containers, each spread over its own group of transfers, then the response
/// in a transfer of its own. The chunks handed out run together to the
/// payloads, one after another; then the response ends the stream: with
/// success for this transaction and the success code, as the device's refusal
/// for another code, and as invalid data for a response to another
/// transaction.
pub proof fn lemma_stream_answer(
    s: ReceiveStateView,
    groups: Seq<Seq<Seq<u8>>>,
    codes: Seq<OperationCode>,
    transaction_ids: Seq<u32>,
    payloads: Seq<Seq<u8>>,
    code: ResponseCode,
    transaction_id: u32,
    params: Seq<u32>,
)
    requires
        s.buffer.len() == 0,
        !s.header_parsed,
        s.container_length == 0,
        s.payload_yielded == 0,
        carries_data_containers(groups, codes, transaction_ids, payloads),
        12 + 4 * params.len() < 0x1_0000_0000,
        code matches ResponseCode::Unknown(c) ==> response_code_from_code(c) is Unknown,
    ensures
        stream_run(s, join_groups(groups)) == Some((s, concat_all(payloads))),
        ({
            let rb = response_bytes(code, transaction_id, params);
            receive_step(s, rb) == (
                ReceiveStateView { buffer: rb, done: true, ..s },
                if transaction_id != s.transaction_id {
                    StreamOutcome::Invalid(mismatch_message(s.transaction_id, transaction_id))
                } else if code != ResponseCode::Success {
                    StreamOutcome::Refused(code)
                } else {
                    StreamOutcome::End
                },
            )
        }),
{
    lemma_stream_yields_payloads(s, groups, codes, transaction_ids, payloads);
    let rb = response_bytes(code, transaction_id, params);
    assert(rb + Seq::<u8>::empty() =~= rb);
    assert(s.buffer + rb =~= rb);
    lemma_container_type_of_bytes(
        OperationCode::GetDeviceInfo,
        code,
        EventCode::ObjectAdded,
        transaction_id,
        params,
        Seq::empty(),
        Seq::empty(),
    );
    lemma_response_container_roundtrip(code, transaction_id, params, Seq::empty());
}

/// What the next call of a streamed receive does.
pub enum StreamPoll {
    /// The stream is over: nothing more comes.
    Finished,
    /// A chunk of payload to hand out.
    Chunk(Vec<u8>),
    /// Nothing buffered to hand out: receive a transfer and take it with
    /// `on_receive`.
    Receive,
}

impl ReceiveState {
    /// The next call of a streamed receive: once the stream is over, it is
    /// finished, every time; otherwise buffered payload is handed out, or a
    /// transfer is to be received.
    pub fn poll(&mut self) -> (r: StreamPoll)
        requires
            stream_wf(old(self)@),
        ensures
            stream_wf(final(self)@),
            old(self)@.done ==> r is Finished && final(self)@ == old(self)@,
            !old(self)@.done ==> final(self)@ == buffered_step(old(self)@).0 && match buffered_step(
                old(self)@,
            ).1 {
                Some(c) => r matches StreamPoll::Chunk(v) && v@ == c,
                None => r is Receive,
            },
    {
        if self.done {
            return StreamPoll::Finished;
        }
        match self.take_buffered() {
            Some(chunk) => StreamPoll::Chunk(chunk),
            None => StreamPoll::Receive,
        }
    }
}

/// A handed-out chunk is never empty, and handing out keeps the stream's
/// end: a stream that is over stays over.
pub proof fn lemma_buffered_chunks_nonempty(s: ReceiveStateView)
    ensures
        buffered_step(s).1 matches Some(c) ==> c.len() > 0,
        buffered_step(s).0.done == s.done,
{
}

/// A response ends the stream for good: after success, a refusal, or a
/// container that is not data or a response, the stream is over, so every
/// later call is finished.
pub proof fn lemma_stream_end_is_final(s: ReceiveStateView, bytes: Seq<u8>)
    ensures
        receive_step(s, bytes).1 is End ==> receive_step(s, bytes).0.done,
        receive_step(s, bytes).1 is Refused ==> receive_step(s, bytes).0.done,
{
}


} // verus!
