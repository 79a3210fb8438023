//! The driver: protocol operations and the receive path.

use crate::codec::{body_of, decoded, read_header_and_body};
use crate::connection::{
    ConnectionInfo, DisconnectReason, VsockBufferStatus, VsockEvent, VsockEventType,
};
use crate::protocol::{SocketError, VirtioVsockHdr, VirtioVsockOp, VsockAddr};
use crate::transport::{
    DeviceError, Transport, VirtQueue, VirtioVsockConfig, EVENT_QUEUE_IDX, QUEUE_SIZE,
    RX_BUFFER_SIZE, RX_QUEUE_IDX, TX_QUEUE_IDX,
};
use crate::wire::zeroed_rx_buffer;
use vstd::array::array_as_slice;
use vstd::prelude::*;

verus! {

/// The optional protocol features that the driver supports: none.
pub const SUPPORTED_FEATURES: u64 = 0;

/// The feature bits to accept of those that the device offers: the ones
/// that the driver supports too.
pub fn negotiate_features(device_features: u64) -> (accepted: u64)
    ensures
        accepted == device_features & SUPPORTED_FEATURES,
        accepted == 0,
{
    assert(device_features & 0 == 0) by (bit_vector);
    device_features & SUPPORTED_FEATURES
}

/// The context identifier whose low and high halves are given.
pub open spec fn cid_of_halves(low: u32, high: u32) -> u64 {
    (low + high * 0x1_0000_0000) as u64
}

/// Joins the two halves of the context identifier.
pub fn guest_cid_of(config: &VirtioVsockConfig) -> (cid: u64)
    ensures
        cid == cid_of_halves(config.guest_cid_low, config.guest_cid_high),
{
    let low: u32 = config.guest_cid_low;
    let high: u32 = config.guest_cid_high;
    assert((low as u64) | ((high as u64) << 32) == (low as u64) + (high as u64) * 0x1_0000_0000)
        by (bit_vector);
    (low as u64) | ((high as u64) << 32)
}

/// The event that a received header stands for, none for a packet that is
/// dropped, or the reason why the header is refused.
pub open spec fn event_of(header: VirtioVsockHdr) -> Result<Option<VsockEvent>, SocketError> {
    match VirtioVsockOp::of_code(header.op) {
        None => Err(SocketError::InvalidOperation),
        Some(VirtioVsockOp::Invalid) => Err(SocketError::InvalidOperation),
        Some(VirtioVsockOp::Rw) => Ok(
            Some(event_with(header, VsockEventType::Received { length: header.len as usize })),
        ),
        Some(op) => if header.len != 0 {
            Err(SocketError::UnexpectedDataInPacket)
        } else {
            match op {
                VirtioVsockOp::Response => Ok(Some(event_with(header, VsockEventType::Connected))),
                VirtioVsockOp::CreditUpdate => Ok(
                    Some(event_with(header, VsockEventType::CreditUpdate)),
                ),
                VirtioVsockOp::CreditRequest => Ok(
                    Some(event_with(header, VsockEventType::CreditRequest)),
                ),
                VirtioVsockOp::Rst => Ok(
                    Some(
                        event_with(
                            header,
                            VsockEventType::Disconnected { reason: DisconnectReason::Reset },
                        ),
                    ),
                ),
                VirtioVsockOp::Shutdown => Ok(
                    Some(
                        event_with(
                            header,
                            VsockEventType::Disconnected { reason: DisconnectReason::Shutdown },
                        ),
                    ),
                ),
                _ => Ok(None),
            }
        },
    }
}

/// An event of the given kind with the endpoints and the buffer state of
/// `header`.
pub open spec fn event_with(header: VirtioVsockHdr, event_type: VsockEventType) -> VsockEvent {
    VsockEvent {
        source: header.spec_source(),
        destination: header.spec_destination(),
        buffer_status: VsockBufferStatus {
            buffer_allocation: header.buf_alloc,
            forward_count: header.fwd_cnt,
        },
        event_type,
    }
}

/// Whether packets with this operation must have an empty body.
pub open spec fn requires_empty_body(op: VirtioVsockOp) -> bool {
    op != VirtioVsockOp::Rw && op != VirtioVsockOp::Invalid
}

/// Turns the header of a received packet into an event. A connection
/// request gives none: listening is not supported.
pub fn classify(header: &VirtioVsockHdr) -> (r: Result<Option<VsockEvent>, SocketError>)
    ensures
        r == event_of(*header),
{
    let op = match header.op() {
        Ok(op) => op,
        Err(e) => {
            return Err(e);
        },
    };
    let buffer_status = VsockBufferStatus {
        buffer_allocation: header.buf_alloc,
        forward_count: header.fwd_cnt,
    };
    let source = header.source();
    let destination = header.destination();
    match op {
        VirtioVsockOp::Request => {
            match header.check_data_is_empty() {
                Ok(_) => Ok(None),
                Err(e) => Err(e),
            }
        },
        VirtioVsockOp::Response => {
            match header.check_data_is_empty() {
                Ok(_) => Ok(
                    Some(
                        VsockEvent {
                            source,
                            destination,
                            buffer_status,
                            event_type: VsockEventType::Connected,
                        },
                    ),
                ),
                Err(e) => Err(e),
            }
        },
        VirtioVsockOp::CreditUpdate => {
            match header.check_data_is_empty() {
                Ok(_) => Ok(
                    Some(
                        VsockEvent {
                            source,
                            destination,
                            buffer_status,
                            event_type: VsockEventType::CreditUpdate,
                        },
                    ),
                ),
                Err(e) => Err(e),
            }
        },
        VirtioVsockOp::Rst => {
            match header.check_data_is_empty() {
                Ok(_) => Ok(
                    Some(
                        VsockEvent {
                            source,
                            destination,
                            buffer_status,
                            event_type: VsockEventType::Disconnected {
                                reason: DisconnectReason::Reset,
                            },
                        },
                    ),
                ),
                Err(e) => Err(e),
            }
        },
        VirtioVsockOp::Shutdown => {
            match header.check_data_is_empty() {
                Ok(_) => Ok(
                    Some(
                        VsockEvent {
                            source,
                            destination,
                            buffer_status,
                            event_type: VsockEventType::Disconnected {
                                reason: DisconnectReason::Shutdown,
                            },
                        },
                    ),
                ),
                Err(e) => Err(e),
            }
        },
        VirtioVsockOp::Rw => Ok(
            Some(
                VsockEvent {
                    source,
                    destination,
                    buffer_status,
                    event_type: VsockEventType::Received { length: header.len() as usize },
                },
            ),
        ),
        VirtioVsockOp::CreditRequest => {
            match header.check_data_is_empty() {
                Ok(_) => Ok(
                    Some(
                        VsockEvent {
                            source,
                            destination,
                            buffer_status,
                            event_type: VsockEventType::CreditRequest,
                        },
                    ),
                ),
                Err(e) => Err(e),
            }
        },
        VirtioVsockOp::Invalid => Err(SocketError::InvalidOperation),
    }
}

/// A header whose operation requires an empty body and which declares a
/// body gives the body-validation error, never an event.
pub proof fn lemma_unexpected_body_is_refused(header: VirtioVsockHdr, op: VirtioVsockOp)
    requires
        VirtioVsockOp::of_code(header.op) == Some(op),
        requires_empty_body(op),
        header.len != 0,
    ensures
        event_of(header) == Err::<Option<VsockEvent>, SocketError>(
            SocketError::UnexpectedDataInPacket,
        ),
{
}

/// What a completed receive buffer holding `received` comes to, for a
/// caller whose buffer has room for `room` bytes: the decoding error, the
/// classification error, the event, or none for a packet that is dropped.
pub open spec fn completion_event(received: Seq<u8>, room: nat) -> Result<
    Option<VsockEvent>,
    SocketError,
> {
    match decoded(received, room) {
        Ok(header) => event_of(header),
        Err(e) => Err(e),
    }
}

/// The caller's buffer after the body of `received` was copied to its
/// front.
pub open spec fn body_copied(received: Seq<u8>, before: Seq<u8>) -> Seq<u8> {
    body_of(received) + before.subrange(
        VirtioVsockHdr::parse(received).len as int,
        before.len() as int,
    )
}

/// Decodes one completed receive buffer: copies the body into `body` and
/// classifies the header.
pub fn decode_completion(received: &[u8], body: &mut [u8]) -> (r: Result<
    Option<VsockEvent>,
    SocketError,
>)
    ensures
        r == completion_event(received@, old(body)@.len()),
        decoded(received@, old(body)@.len()) is Ok ==> final(body)@ == body_copied(
            received@,
            old(body)@,
        ),
        decoded(received@, old(body)@.len()) is Err ==> final(body)@ == old(body)@,
{
    match read_header_and_body(received, body) {
        Ok(header) => classify(&header),
        Err(e) => Err(e),
    }
}

/// The result is an error that the transport or a queue raised.
pub open spec fn is_device_failure<V>(r: Result<V, SocketError>) -> bool {
    r is Err && r->Err_0 is Device
}

/// The result is a success, or an error that the transport or a queue
/// raised.
pub open spec fn ok_or_device_failure<V>(r: Result<V, SocketError>) -> bool {
    r is Ok || is_device_failure(r)
}

/// A packet without a body.
pub open spec fn control_packet(header: VirtioVsockHdr) -> (Seq<u8>, Seq<u8>) {
    (header.wire(), Seq::<u8>::empty())
}

/// The header of the connection request that the guest `guest_cid` sends
/// from its port `src_port` to `destination`.
pub open spec fn connect_header(guest_cid: u64, destination: VsockAddr, src_port: u32)
    -> VirtioVsockHdr {
    VirtioVsockHdr {
        op: VirtioVsockOp::Request.spec_code(),
        src_cid: guest_cid,
        dst_cid: destination.cid,
        src_port,
        dst_port: destination.port,
        ..VirtioVsockHdr::blank()
    }
}

/// The header of a control packet with operation `op` on a connection.
pub open spec fn control_header(info: ConnectionInfo, guest_cid: u64, op: VirtioVsockOp)
    -> VirtioVsockHdr {
    VirtioVsockHdr { op: op.spec_code(), ..info.spec_new_header(guest_cid) }
}

/// The header of a data packet with `len` bytes of payload on a connection.
pub open spec fn data_header(info: ConnectionInfo, guest_cid: u64, len: u32) -> VirtioVsockHdr {
    VirtioVsockHdr {
        op: VirtioVsockOp::Rw.spec_code(),
        len,
        buf_alloc: 0,
        ..info.spec_new_header(guest_cid)
    }
}

/// The header of the packet that advertises `buffer_size` bytes of local
/// receive space on a connection.
pub open spec fn credit_update_header(info: ConnectionInfo, guest_cid: u64, buffer_size: u32)
    -> VirtioVsockHdr {
    VirtioVsockHdr {
        op: VirtioVsockOp::CreditUpdate.spec_code(),
        buf_alloc: buffer_size,
        ..info.spec_new_header(guest_cid)
    }
}

/// What `send` does when the peer's room is too small for the payload and
/// the driver has not failed. With a request pending it only fails. With
/// none pending it hands one credit request to the transmit queue; if the
/// queue takes it the request is marked as pending and the call fails as
/// insufficient, and if the queue fails the record stays as it was and the
/// queue's error is returned.
pub open spec fn refusal_outcome(
    before: ConnectionInfo,
    after: ConnectionInfo,
    sent_before: Seq<(Seq<u8>, Seq<u8>)>,
    sent_after: Seq<(Seq<u8>, Seq<u8>)>,
    guest_cid: u64,
    r: Result<(), SocketError>,
) -> bool {
    if before.has_pending_credit_request {
        &&& r == Err::<(), SocketError>(SocketError::InsufficientBufferSpaceInPeer)
        &&& after == before
        &&& sent_after == sent_before
    } else {
        &&& sent_after == sent_before.push(
            control_packet(control_header(before, guest_cid, VirtioVsockOp::CreditRequest)),
        )
        &&& if r == Err::<(), SocketError>(SocketError::InsufficientBufferSpaceInPeer) {
            after == (ConnectionInfo { has_pending_credit_request: true, ..before })
        } else {
            is_device_failure(r) && after == before
        }
    }
}

/// What one call of `send` does, for a driver that has not failed:
/// `before` and `after` are the connection record, `sent_before` and
/// `sent_after` the packets handed to the transmit queue. Too little room
/// gives a refusal; a payload that would carry the transmitted counter past
/// its 32 bits is an invalid number; otherwise the counter advances by the
/// payload's length and one data packet is handed to the queue, whose
/// verdict is the result.
pub open spec fn send_outcome(
    before: ConnectionInfo,
    after: ConnectionInfo,
    sent_before: Seq<(Seq<u8>, Seq<u8>)>,
    sent_after: Seq<(Seq<u8>, Seq<u8>)>,
    guest_cid: u64,
    payload: Seq<u8>,
    r: Result<(), SocketError>,
) -> bool {
    if before.spec_peer_free() < payload.len() {
        refusal_outcome(before, after, sent_before, sent_after, guest_cid, r)
    } else if before.tx_cnt + payload.len() > u32::MAX {
        &&& r == Err::<(), SocketError>(SocketError::InvalidNumber)
        &&& after == before
        &&& sent_after == sent_before
    } else {
        &&& ok_or_device_failure(r)
        &&& after == (ConnectionInfo { tx_cnt: (before.tx_cnt + payload.len()) as u32, ..before })
        &&& sent_after == sent_before.push(
            (data_header(before, guest_cid, payload.len() as u32).wire(), payload),
        )
    }
}

/// The bytes in flight on a connection, those sent and not yet reported as
/// consumed by the peer, are no more than the peer's allocation.
pub open spec fn within_allocation(info: ConnectionInfo) -> bool {
    &&& info.peer_fwd_cnt <= info.tx_cnt
    &&& info.tx_cnt - info.peer_fwd_cnt <= info.peer_buf_alloc
}

/// `send` never sends more than the peer has room for. On a record whose
/// bytes in flight are within the peer's allocation they still are after
/// the call; the transmitted counter never goes down, and goes up by no
/// more than the room that the peer had; the forwarded counter and the
/// peer's advertised state stay as they were.
pub proof fn lemma_send_respects_allocation(
    before: ConnectionInfo,
    after: ConnectionInfo,
    sent_before: Seq<(Seq<u8>, Seq<u8>)>,
    sent_after: Seq<(Seq<u8>, Seq<u8>)>,
    guest_cid: u64,
    payload: Seq<u8>,
    r: Result<(), SocketError>,
)
    requires
        within_allocation(before),
        send_outcome(before, after, sent_before, sent_after, guest_cid, payload, r),
    ensures
        within_allocation(after),
        after.tx_cnt >= before.tx_cnt,
        after.tx_cnt - before.tx_cnt <= before.spec_peer_free(),
        r is Ok ==> after.tx_cnt == before.tx_cnt + payload.len(),
        after.fwd_cnt == before.fwd_cnt,
        after.peer_buf_alloc == before.peer_buf_alloc,
        after.peer_fwd_cnt == before.peer_fwd_cnt,
{
}

/// While the peer's room is short, a connection has at most one credit
/// request in flight. A first `send` that finds too little room and no
/// request pending, and whose request the queue takes, hands exactly one
/// credit request to the queue, fails as insufficient and marks the request
/// as pending. A second `send` that again finds too little room, with no
/// credit update taken in between, hands nothing to the queue, fails in the
/// same way and leaves the record as it is.
pub proof fn lemma_single_credit_request(
    first: ConnectionInfo,
    second: ConnectionInfo,
    third: ConnectionInfo,
    sent_first: Seq<(Seq<u8>, Seq<u8>)>,
    sent_second: Seq<(Seq<u8>, Seq<u8>)>,
    sent_third: Seq<(Seq<u8>, Seq<u8>)>,
    guest_cid: u64,
    payload: Seq<u8>,
    next_payload: Seq<u8>,
    r: Result<(), SocketError>,
    next_r: Result<(), SocketError>,
)
    requires
        first.spec_peer_free() < payload.len(),
        !first.has_pending_credit_request,
        send_outcome(first, second, sent_first, sent_second, guest_cid, payload, r),
        !is_device_failure(r),
        second.spec_peer_free() < next_payload.len(),
        send_outcome(second, third, sent_second, sent_third, guest_cid, next_payload, next_r),
    ensures
        r == Err::<(), SocketError>(SocketError::InsufficientBufferSpaceInPeer),
        sent_second == sent_first.push(
            control_packet(control_header(first, guest_cid, VirtioVsockOp::CreditRequest)),
        ),
        second.has_pending_credit_request,
        second.tx_cnt == first.tx_cnt,
        next_r == Err::<(), SocketError>(SocketError::InsufficientBufferSpaceInPeer),
        sent_third == sent_second,
        third == second,
{
}

/// One receive buffer lent to the device: the slot it belongs to, the token
/// that the queue gave for it and the bytes it held when it was lent.
pub struct Lending {
    pub slot: int,
    pub token: u16,
    pub bytes: Seq<u8>,
}

/// A receive buffer as it is first lent: 512 zero bytes.
pub open spec fn zeroed_buffer() -> Seq<u8> {
    Seq::new(RX_BUFFER_SIZE as nat, |i: int| 0u8)
}

/// The lendings right after construction: one zeroed buffer per slot, each
/// under the token that is the slot's index.
pub open spec fn initial_lendings() -> Seq<Lending> {
    Seq::new(
        QUEUE_SIZE as nat,
        |i: int| (Lending { slot: i, token: i as u16, bytes: zeroed_buffer() }),
    )
}

/// What the receive queue answered during one poll.
pub enum RxAnswer {
    /// Nothing had completed.
    Empty,
    /// The completed entry has a token that belongs to no slot.
    Stray { token: u16 },
    /// The queue failed to hand the completed entry back.
    PopFailed { token: u16, code: u32 },
    /// The entry came back holding `received`, but the queue failed to take
    /// the buffer again.
    RelendFailed { token: u16, received: Seq<u8>, code: u32 },
    /// The entry came back holding `received`, and the queue took the buffer
    /// again under `new_token`.
    Relent { token: u16, received: Seq<u8>, new_token: u16 },
}

/// Whether the answer shows that slots and tokens no longer correspond: a
/// token outside the slot table, or a buffer taken again under a token other
/// than the one it came back under.
pub open spec fn breaks_slot_table(answer: RxAnswer) -> bool {
    match answer {
        RxAnswer::Stray { .. } => true,
        RxAnswer::Relent { token, new_token, .. } => new_token != token,
        _ => false,
    }
}

/// The header that one poll of the receive queue gives, for each answer of
/// the queue and a caller with room for `room` bytes: none from an empty
/// queue, the fatal error where the slot table is broken, the queue's own
/// error where it fails, and otherwise what the received bytes decode to.
pub open spec fn header_outcome(answer: RxAnswer, room: nat) -> Result<
    Option<VirtioVsockHdr>,
    SocketError,
> {
    match answer {
        RxAnswer::Empty => Ok(None),
        RxAnswer::Stray { .. } => Err(SocketError::RecycledWrongBuffer),
        RxAnswer::PopFailed { code, .. } => Err(SocketError::Device(code)),
        RxAnswer::RelendFailed { code, .. } => Err(SocketError::Device(code)),
        RxAnswer::Relent { token, received, new_token } => if new_token != token {
            Err(SocketError::RecycledWrongBuffer)
        } else {
            match decoded(received, room) {
                Ok(header) => Ok(Some(header)),
                Err(e) => Err(e),
            }
        },
    }
}

/// The event that one poll of the receive queue gives: that of the header,
/// where there is one.
pub open spec fn poll_outcome(answer: RxAnswer, room: nat) -> Result<
    Option<VsockEvent>,
    SocketError,
> {
    match header_outcome(answer, room) {
        Ok(Some(header)) => event_of(header),
        Ok(None) => Ok(None),
        Err(e) => Err(e),
    }
}

/// The caller's buffer after one poll: where an entry came back and its
/// bytes decode, the body stands at the front, whatever happened to the
/// entry afterwards; in every other case the buffer is as it was.
pub open spec fn body_after(answer: RxAnswer, before: Seq<u8>) -> Seq<u8> {
    match answer {
        RxAnswer::RelendFailed { received, .. } => if decoded(received, before.len()) is Ok {
            body_copied(received, before)
        } else {
            before
        },
        RxAnswer::Relent { received, .. } => if decoded(received, before.len()) is Ok {
            body_copied(received, before)
        } else {
            before
        },
        _ => before,
    }
}

/// The lendings after one poll: an entry that the queue took again is lent
/// once more, with the bytes that it came back with, whether or not they
/// decode.
pub open spec fn lent_after(answer: RxAnswer, before: Seq<Lending>) -> Seq<Lending> {
    match answer {
        RxAnswer::Relent { token, received, new_token } => before.push(
            Lending { slot: token as int, token: new_token, bytes: received },
        ),
        _ => before,
    }
}

/// The driver of one socket device. It owns the transport, the three
/// queues and the receive buffers; connection records stay with the caller.
pub struct VirtIOSocket<T: Transport, Q: VirtQueue<T>> {
    transport: T,
    rx: Q,
    tx: Q,
    event: Q,
    guest_cid: u64,
    /// One buffer per receive slot; the buffer of slot `i` is lent to the
    /// device under the token `i`.
    rx_queue_buffers: Vec<[u8; 512]>,
    /// Set once a buffer came back under a token that is not its slot's.
    failed: bool,
    /// What the receive queue answered during the latest poll.
    last_answer: Ghost<RxAnswer>,
    /// The queues unbound from the device so far, oldest first, each with
    /// the number of receive buffers that the driver held at that moment.
    unbound: Ghost<Seq<(u16, nat)>>,
    /// Every packet handed to the transmit queue, oldest first, each as the
    /// header bytes and the body bytes.
    sent: Ghost<Seq<(Seq<u8>, Seq<u8>)>>,
    /// Every receive buffer lent to the device, oldest first.
    lent: Ghost<Seq<Lending>>,
    /// The configuration space as it was read at construction.
    config: Ghost<VirtioVsockConfig>,
}

impl<T: Transport, Q: VirtQueue<T>> VirtIOSocket<T, Q> {
    /// There is one receive buffer per slot, and unless the driver has
    /// failed every buffer was lent under its slot's index.
    pub closed spec fn wf(&self) -> bool {
        &&& self.rx_queue_buffers@.len() == QUEUE_SIZE
        &&& !self.failed ==> forall|i: int|
            0 <= i < self.lent@.len() ==> (#[trigger] self.lent@[i]).token as int
                == self.lent@[i].slot
    }

    /// The configuration space as the driver read it at construction.
    pub closed spec fn config(&self) -> VirtioVsockConfig {
        self.config@
    }

    /// Every receive buffer lent to the device so far, oldest first.
    pub closed spec fn lent(&self) -> Seq<Lending> {
        self.lent@
    }

    /// In a well-formed driver that has not failed, slots and tokens
    /// correspond one to one: every buffer ever lent went out under the
    /// token that is its slot's index. So a buffer that is given another
    /// token leaves the driver failed.
    pub proof fn lemma_tokens_are_slots(&self, i: int)
        requires
            self.wf(),
            !self.spec_has_failed(),
            0 <= i < self.lent().len(),
        ensures
            self.lent()[i].token as int == self.lent()[i].slot,
    {
    }

    pub closed spec fn spec_guest_cid(&self) -> u64 {
        self.guest_cid
    }

    /// Whether the slot table was found broken; the driver then refuses
    /// every operation.
    pub closed spec fn spec_has_failed(&self) -> bool {
        self.failed
    }

    /// The packets handed to the transmit queue so far, oldest first, each
    /// as the header bytes and the body bytes, whether or not the queue took
    /// them.
    pub closed spec fn sent(&self) -> Seq<(Seq<u8>, Seq<u8>)> {
        self.sent@
    }

    /// What the receive queue answered during the latest poll.
    pub closed spec fn last_answer(&self) -> RxAnswer {
        self.last_answer@
    }

    /// The queues unbound from the device so far, oldest first, each with
    /// the number of receive buffers that the driver held at that moment.
    pub closed spec fn unbound(&self) -> Seq<(u16, nat)> {
        self.unbound@
    }

    /// The number of receive buffers that the driver holds.
    pub closed spec fn buffers_held(&self) -> nat {
        self.rx_queue_buffers@.len()
    }

    /// A well-formed driver holds one receive buffer per slot.
    pub proof fn lemma_holds_all_buffers(&self)
        requires
            self.wf(),
        ensures
            self.buffers_held() == QUEUE_SIZE,
    {
    }

    /// The device state apart from the transmit log is as in `before`.
    pub open spec fn same_identity(&self, before: &Self) -> bool {
        &&& self.wf()
        &&& self.spec_guest_cid() == before.spec_guest_cid()
        &&& self.spec_has_failed() == before.spec_has_failed()
        &&& self.lent() == before.lent()
        &&& self.unbound() == before.unbound()
    }

    /// What a protocol operation that hands `packet` to the transmit queue
    /// does to the driver: a failed driver refuses and sends nothing, any
    /// other sends exactly this packet.
    pub open spec fn transmits(
        &self,
        before: &Self,
        packet: (Seq<u8>, Seq<u8>),
        r: Result<(), SocketError>,
    ) -> bool {
        &&& self.same_identity(before)
        &&& before.spec_has_failed() ==> r == Err::<(), SocketError>(
            SocketError::RecycledWrongBuffer,
        ) && self.sent() == before.sent()
        &&& !before.spec_has_failed() ==> ok_or_device_failure(r)
            && self.sent() == before.sent().push(packet)
    }

    /// Sets the device up: accepts none of the optional features, reads the
    /// guest's context identifier, creates the three queues and lends one
    /// zeroed buffer per receive slot to the device. A buffer that is given
    /// another token than its slot's index is an error.
    pub fn new(mut transport: T) -> (r: Result<Self, SocketError>)
        ensures
            r matches Ok(socket) ==> socket.wf() && !socket.spec_has_failed() && socket.sent()
                == Seq::<(Seq<u8>, Seq<u8>)>::empty() && socket.lent() == initial_lendings()
                && socket.unbound() == Seq::<(u16, nat)>::empty()
                && socket.spec_guest_cid() == cid_of_halves(
                socket.config().guest_cid_low,
                socket.config().guest_cid_high,
            ),
            r matches Err(e) ==> e is Device || e == SocketError::RecycledWrongBuffer,
    {
        let device_features = transport.read_device_features();
        transport.write_driver_features(negotiate_features(device_features));
        let config = match transport.config_space() {
            Ok(config) => config,
            Err(e) => {
                return Err(device_failure(e));
            },
        };
        let guest_cid = guest_cid_of(&config);
        let mut rx = match Q::new(&mut transport, RX_QUEUE_IDX) {
            Ok(queue) => queue,
            Err(e) => {
                return Err(device_failure(e));
            },
        };
        let tx = match Q::new(&mut transport, TX_QUEUE_IDX) {
            Ok(queue) => queue,
            Err(e) => {
                return Err(device_failure(e));
            },
        };
        let event = match Q::new(&mut transport, EVENT_QUEUE_IDX) {
            Ok(queue) => queue,
            Err(e) => {
                return Err(device_failure(e));
            },
        };
        let mut rx_queue_buffers: Vec<[u8; 512]> = Vec::new();
        let mut i: usize = 0;
        while i < QUEUE_SIZE
            invariant
                i <= QUEUE_SIZE,
                rx_queue_buffers@.len() == i,
                forall|k: int| 0 <= k < i ==> (#[trigger] rx_queue_buffers@[k])@ == zeroed_buffer(),
            decreases QUEUE_SIZE - i,
        {
            let buffer = zeroed_rx_buffer();
            assert(buffer@ =~= zeroed_buffer());
            rx_queue_buffers.push(buffer);
            i = i + 1;
        }
        let ghost mut lent: Seq<Lending> = Seq::empty();
        let mut slot: usize = 0;
        while slot < QUEUE_SIZE
            invariant
                slot <= QUEUE_SIZE,
                rx_queue_buffers@.len() == QUEUE_SIZE,
                forall|k: int|
                    slot <= k < QUEUE_SIZE ==> (#[trigger] rx_queue_buffers@[k])@
                        == zeroed_buffer(),
                lent.len() == slot,
                forall|k: int| 0 <= k < slot ==> #[trigger] lent[k] == initial_lendings()[k],
            decreases QUEUE_SIZE - slot,
        {
            let token = match rx.add_recv(&mut rx_queue_buffers[slot]) {
                Ok(token) => token,
                Err(e) => {
                    return Err(device_failure(e));
                },
            };
            if !token_matches_slot(token, slot) {
                return Err(SocketError::RecycledWrongBuffer);
            }
            proof {
                lent = lent.push(Lending { slot: slot as int, token, bytes: zeroed_buffer() });
            }
            slot = slot + 1;
        }
        assert(lent =~= initial_lendings());
        transport.finish_init();
        if rx.should_notify() {
            transport.notify(RX_QUEUE_IDX);
        }
        Ok(
            VirtIOSocket {
                transport,
                rx,
                tx,
                event,
                guest_cid,
                rx_queue_buffers,
                failed: false,
                last_answer: Ghost(RxAnswer::Empty),
                unbound: Ghost(Seq::empty()),
                sent: Ghost(Seq::empty()),
                lent: Ghost(lent),
                config: Ghost(config),
            },
        )
    }

    /// The context identifier that the device assigned to this guest.
    #[verifier::when_used_as_spec(spec_guest_cid)]
    pub fn guest_cid(&self) -> (cid: u64)
        ensures
            cid == self.spec_guest_cid(),
    {
        self.guest_cid
    }

    /// Whether the driver has found its slot table broken.
    #[verifier::when_used_as_spec(spec_has_failed)]
    pub fn has_failed(&self) -> (failed: bool)
        ensures
            failed == self.spec_has_failed(),
    {
        self.failed
    }

    /// Sends a connection request and returns; the peer's answer arrives
    /// later as a `Connected` event.
    pub fn connect(&mut self, destination: VsockAddr, src_port: u32) -> (r: Result<
        (),
        SocketError,
    >)
        requires
            old(self).wf(),
        ensures
            final(self).transmits(
                old(self),
                control_packet(connect_header(old(self).spec_guest_cid(), destination, src_port)),
                r,
            ),
    {
        let mut header = VirtioVsockHdr::new();
        header.op = VirtioVsockOp::Request.code();
        header.src_cid = self.guest_cid;
        header.dst_cid = destination.cid;
        header.src_port = src_port;
        header.dst_port = destination.port;
        let empty: Vec<u8> = Vec::new();
        self.send_packet_to_tx_queue(&header, empty.as_slice())
    }

    /// Asks the peer for a credit update.
    fn request_credit(&mut self, connection_info: &ConnectionInfo) -> (r: Result<(), SocketError>)
        requires
            old(self).wf(),
        ensures
            final(self).transmits(
                old(self),
                control_packet(
                    control_header(
                        *connection_info,
                        old(self).spec_guest_cid(),
                        VirtioVsockOp::CreditRequest,
                    ),
                ),
                r,
            ),
    {
        self.send_control(connection_info, VirtioVsockOp::CreditRequest)
    }

    fn send_control(&mut self, connection_info: &ConnectionInfo, op: VirtioVsockOp) -> (r: Result<
        (),
        SocketError,
    >)
        requires
            old(self).wf(),
        ensures
            final(self).transmits(
                old(self),
                control_packet(control_header(*connection_info, old(self).spec_guest_cid(), op)),
                r,
            ),
    {
        let mut header = connection_info.new_header(self.guest_cid);
        header.op = op.code();
        let empty: Vec<u8> = Vec::new();
        self.send_packet_to_tx_queue(&header, empty.as_slice())
    }

    /// Sends `buffer` on the connection if the peer has room for it. If it
    /// has not, the call fails, and where no credit request is pending one
    /// is sent and marked as pending. A payload that would carry the
    /// transmitted counter past its range is refused as an invalid number.
    pub fn send(&mut self, buffer: &[u8], connection_info: &mut ConnectionInfo) -> (r: Result<
        (),
        SocketError,
    >)
        requires
            old(self).wf(),
        ensures
            final(self).same_identity(old(self)),
            old(self).spec_has_failed() ==> r == Err::<(), SocketError>(
                SocketError::RecycledWrongBuffer,
            ) && final(self).sent() == old(self).sent() && *final(connection_info) == *old(connection_info),
            !old(self).spec_has_failed() ==> send_outcome(
                *old(connection_info),
                *final(connection_info),
                old(self).sent(),
                final(self).sent(),
                old(self).spec_guest_cid(),
                buffer@,
                r,
            ),
    {
        if self.failed {
            return Err(SocketError::RecycledWrongBuffer);
        }
        match self.check_peer_buffer_is_sufficient(connection_info, buffer.len()) {
            Ok(_) => {},
            Err(e) => {
                return Err(e);
            },
        }
        let len: u32 = buffer.len() as u32;
        if len > u32::MAX - connection_info.tx_cnt {
            return Err(SocketError::InvalidNumber);
        }
        let mut header = connection_info.new_header(self.guest_cid);
        header.op = VirtioVsockOp::Rw.code();
        header.len = len;
        header.buf_alloc = 0;
        connection_info.record_transmitted(len);
        self.send_packet_to_tx_queue(&header, buffer)
    }

    /// Succeeds if the peer has room for `buffer_len` bytes. Otherwise fails,
    /// after sending a credit request if none is pending.
    fn check_peer_buffer_is_sufficient(
        &mut self,
        connection_info: &mut ConnectionInfo,
        buffer_len: usize,
    ) -> (r: Result<(), SocketError>)
        requires
            old(self).wf(),
            !old(self).spec_has_failed(),
        ensures
            final(self).same_identity(old(self)),
            old(connection_info).spec_peer_free() >= buffer_len ==> r is Ok && *final(connection_info) == *old(connection_info) && final(self).sent() == old(self).sent(),
            old(connection_info).spec_peer_free() < buffer_len ==> refusal_outcome(
                *old(connection_info),
                *final(connection_info),
                old(self).sent(),
                final(self).sent(),
                old(self).spec_guest_cid(),
                r,
            ),
    {
        if connection_info.peer_free() as usize >= buffer_len {
            Ok(())
        } else {
            if !connection_info.has_pending_credit_request {
                match self.request_credit(connection_info) {
                    Ok(_) => {},
                    Err(e) => {
                        return Err(e);
                    },
                }
                connection_info.record_credit_request();
            }
            Err(SocketError::InsufficientBufferSpaceInPeer)
        }
    }

    /// Tells the peer how much buffer space this side has for the
    /// connection.
    pub fn credit_update(&mut self, connection_info: &ConnectionInfo, buffer_size: u32) -> (r:
        Result<(), SocketError>)
        requires
            old(self).wf(),
        ensures
            final(self).transmits(
                old(self),
                control_packet(
                    credit_update_header(*connection_info, old(self).spec_guest_cid(), buffer_size),
                ),
                r,
            ),
    {
        let mut header = connection_info.new_header(self.guest_cid);
        header.op = VirtioVsockOp::CreditUpdate.code();
        header.buf_alloc = buffer_size;
        let empty: Vec<u8> = Vec::new();
        self.send_packet_to_tx_queue(&header, empty.as_slice())
    }

    /// Asks the peer to close the connection; its answer arrives later as a
    /// `Disconnected` event.
    pub fn shutdown(&mut self, connection_info: &ConnectionInfo) -> (r: Result<(), SocketError>)
        requires
            old(self).wf(),
        ensures
            final(self).transmits(
                old(self),
                control_packet(
                    control_header(
                        *connection_info,
                        old(self).spec_guest_cid(),
                        VirtioVsockOp::Shutdown,
                    ),
                ),
                r,
            ),
    {
        self.send_control(connection_info, VirtioVsockOp::Shutdown)
    }

    /// Resets the connection without waiting for the peer.
    pub fn force_close(&mut self, connection_info: &ConnectionInfo) -> (r: Result<(), SocketError>)
        requires
            old(self).wf(),
        ensures
            final(self).transmits(
                old(self),
                control_packet(
                    control_header(*connection_info, old(self).spec_guest_cid(), VirtioVsockOp::Rst),
                ),
                r,
            ),
    {
        self.send_control(connection_info, VirtioVsockOp::Rst)
    }

    /// Takes at most one completed receive buffer back from the device,
    /// copies the body of its packet into `buffer`, lends the buffer to the
    /// device again and returns the event that the packet stands for. There
    /// is none if nothing has completed, or if the packet is a connection
    /// request. A buffer that comes back, or is taken again, under a token
    /// that is not its slot's makes the driver fail for good. A driver that
    /// has failed refuses and touches nothing.
    pub fn poll_recv(&mut self, buffer: &mut [u8]) -> (r: Result<Option<VsockEvent>, SocketError>)
        requires
            old(self).wf(),
        ensures
            final(self).wf(),
            final(self).spec_guest_cid() == old(self).spec_guest_cid(),
            final(self).sent() == old(self).sent(),
            final(self).unbound() == old(self).unbound(),
            final(buffer)@.len() == old(buffer)@.len(),
            old(self).spec_has_failed() ==> {
                &&& r == Err::<Option<VsockEvent>, SocketError>(SocketError::RecycledWrongBuffer)
                &&& final(self).spec_has_failed()
                &&& final(self).lent() == old(self).lent()
                &&& final(buffer)@ == old(buffer)@
            },
            !old(self).spec_has_failed() ==> {
                &&& r == poll_outcome(final(self).last_answer(), old(buffer)@.len())
                &&& final(buffer)@ == body_after(final(self).last_answer(), old(buffer)@)
                &&& final(self).spec_has_failed() == breaks_slot_table(final(self).last_answer())
                &&& final(self).lent() == lent_after(final(self).last_answer(), old(self).lent())
            },
    {
        if self.failed {
            return Err(SocketError::RecycledWrongBuffer);
        }
        let event = match self.poll_rx_queue(buffer) {
            Ok(event) => event,
            Err(e) => {
                return Err(e);
            },
        };
        if self.rx.should_notify() {
            self.transport.notify(RX_QUEUE_IDX);
        }
        Ok(event)
    }

    /// Takes the next packet from the receive queue, if one has completed,
    /// and classifies it. What comes of it is fixed by what the queue
    /// answers.
    fn poll_rx_queue(&mut self, body: &mut [u8]) -> (r: Result<Option<VsockEvent>, SocketError>)
        requires
            old(self).wf(),
            !old(self).spec_has_failed(),
        ensures
            final(self).wf(),
            final(self).spec_guest_cid() == old(self).spec_guest_cid(),
            final(self).sent() == old(self).sent(),
            final(self).unbound() == old(self).unbound(),
            final(body)@.len() == old(body)@.len(),
            r == poll_outcome(final(self).last_answer(), old(body)@.len()),
            final(body)@ == body_after(final(self).last_answer(), old(body)@),
            final(self).spec_has_failed() == breaks_slot_table(final(self).last_answer()),
            final(self).lent() == lent_after(final(self).last_answer(), old(self).lent()),
    {
        let header = match self.pop_packet_from_rx_queue(body) {
            Ok(Some(header)) => header,
            Ok(None) => {
                return Ok(None);
            },
            Err(e) => {
                return Err(e);
            },
        };
        classify(&header)
    }

    /// Takes one completed buffer back, reads header and body from it and
    /// lends it to the device again, whether or not the packet was well
    /// formed. What comes of it is fixed by what the queue answers: the
    /// header, the body in `body`, whether the driver fails, and the new
    /// lending.
    fn pop_packet_from_rx_queue(&mut self, body: &mut [u8]) -> (r: Result<
        Option<VirtioVsockHdr>,
        SocketError,
    >)
        requires
            old(self).wf(),
            !old(self).spec_has_failed(),
        ensures
            final(self).wf(),
            final(self).spec_guest_cid() == old(self).spec_guest_cid(),
            final(self).sent() == old(self).sent(),
            final(self).unbound() == old(self).unbound(),
            final(body)@.len() == old(body)@.len(),
            r == header_outcome(final(self).last_answer(), old(body)@.len()),
            final(body)@ == body_after(final(self).last_answer(), old(body)@),
            final(self).spec_has_failed() == breaks_slot_table(final(self).last_answer()),
            final(self).lent() == lent_after(final(self).last_answer(), old(self).lent()),
    {
        let token = match self.rx.peek_used() {
            Some(token) => token,
            None => {
                self.last_answer = Ghost(RxAnswer::Empty);
                return Ok(None);
            },
        };
        let slot: usize = token as usize;
        if slot >= self.rx_queue_buffers.len() {
            self.last_answer = Ghost(RxAnswer::Stray { token });
            self.failed = true;
            return Err(SocketError::RecycledWrongBuffer);
        }
        match self.rx.pop_used(token, &mut self.rx_queue_buffers[slot]) {
            Ok(_) => {},
            Err(e) => {
                self.last_answer = Ghost(RxAnswer::PopFailed { token, code: e.code });
                return Err(device_failure(e));
            },
        }
        let ghost received = self.rx_queue_buffers@[slot as int]@;
        let header_result = read_header_and_body(
            array_as_slice(&self.rx_queue_buffers[slot]),
            body,
        );
        let new_token = match self.rx.add_recv(&mut self.rx_queue_buffers[slot]) {
            Ok(new_token) => new_token,
            Err(e) => {
                self.last_answer = Ghost(RxAnswer::RelendFailed { token, received, code: e.code });
                return Err(device_failure(e));
            },
        };
        self.last_answer = Ghost(RxAnswer::Relent { token, received, new_token });
        self.lent = Ghost(
            self.lent@.push(Lending { slot: slot as int, token: new_token, bytes: received }),
        );
        if !token_matches_slot(new_token, slot) {
            self.failed = true;
            return Err(SocketError::RecycledWrongBuffer);
        }
        match header_result {
            Ok(header) => Ok(Some(header)),
            Err(e) => Err(e),
        }
    }

    /// Takes the driver apart: unbinds the receive, transmit and event
    /// queues from the device, in this order, and only then releases the
    /// receive buffers, so that the device never writes into memory that is
    /// gone. Every buffer that the driver held is released. The driver is
    /// not well formed afterwards and must not be used again.
    pub fn teardown(&mut self)
        ensures
            final(self).unbound() == old(self).unbound().push(
                (RX_QUEUE_IDX, old(self).buffers_held()),
            ).push((TX_QUEUE_IDX, old(self).buffers_held())).push(
                (EVENT_QUEUE_IDX, old(self).buffers_held()),
            ),
            final(self).buffers_held() == 0,
            final(self).spec_guest_cid() == old(self).spec_guest_cid(),
            final(self).spec_has_failed() == old(self).spec_has_failed(),
            final(self).sent() == old(self).sent(),
            final(self).lent() == old(self).lent(),
    {
        self.unbound = Ghost(self.unbound@.push((RX_QUEUE_IDX, self.rx_queue_buffers@.len())));
        self.transport.queue_unset(RX_QUEUE_IDX);
        self.unbound = Ghost(self.unbound@.push((TX_QUEUE_IDX, self.rx_queue_buffers@.len())));
        self.transport.queue_unset(TX_QUEUE_IDX);
        self.unbound = Ghost(self.unbound@.push((EVENT_QUEUE_IDX, self.rx_queue_buffers@.len())));
        self.transport.queue_unset(EVENT_QUEUE_IDX);
        self.rx_queue_buffers.clear();
    }

    /// Hands one packet to the transmit queue and waits until the device
    /// has taken it.
    fn send_packet_to_tx_queue(&mut self, header: &VirtioVsockHdr, buffer: &[u8]) -> (r: Result<
        (),
        SocketError,
    >)
        requires
            old(self).wf(),
        ensures
            final(self).transmits(
                old(self),
                (header.wire(), buffer@),
                r,
            ),
    {
        if self.failed {
            return Err(SocketError::RecycledWrongBuffer);
        }
        let bytes = header.as_bytes();
        self.sent = Ghost(self.sent@.push((bytes@, buffer@)));
        match self.tx.add_notify_wait_pop(bytes.as_slice(), buffer, &mut self.transport) {
            Ok(_) => Ok(()),
            Err(e) => Err(device_failure(e)),
        }
    }
}

/// The error that reports a failure of the transport or of a queue.
pub fn device_failure(error: DeviceError) -> (e: SocketError)
    ensures
        e == SocketError::Device(error.code),
{
    SocketError::Device(error.code)
}

/// Whether a buffer that belongs to the receive slot `slot` was given the
/// token that the slot table expects for it: the slot's own index.
pub fn token_matches_slot(token: u16, slot: usize) -> (r: bool)
    ensures
        r == (token as int == slot as int),
{
    token as usize == slot
}

} // verus!
