//! Per-connection credit accounting and the events a connection receives.

use crate::protocol::{VirtioVsockHdr, VsockAddr, SOCKET_TYPE_STREAM};
use vstd::prelude::*;

verus! {

/// The peer's buffer state, as the latest packet from it reports.
#[derive(Copy, Clone, Debug, PartialEq, Eq, Structural)]
pub struct VsockBufferStatus {
    pub buffer_allocation: u32,
    pub forward_count: u32,
}

/// Why a connection was closed.
#[derive(Copy, Clone, Debug, PartialEq, Eq, Structural)]
pub enum DisconnectReason {
    /// The peer reset the connection, on its own or in answer to a shutdown.
    Reset,
    /// The peer asked to shut the connection down.
    Shutdown,
}

/// What an event reports.
#[derive(Copy, Clone, Debug, PartialEq, Eq, Structural)]
pub enum VsockEventType {
    /// The peer accepted the connection.
    Connected,
    /// The connection was closed.
    Disconnected { reason: DisconnectReason },
    /// Payload arrived; `length` bytes of it were copied out.
    Received { length: usize },
    /// The peer asks for a credit update.
    CreditRequest,
    /// The peer sent its buffer state and nothing else.
    CreditUpdate,
}

/// One decoded receive completion.
#[derive(Copy, Clone, Debug, PartialEq, Eq, Structural)]
pub struct VsockEvent {
    /// The peer that sent the packet.
    pub source: VsockAddr,
    /// The endpoint on this side.
    pub destination: VsockAddr,
    pub buffer_status: VsockBufferStatus,
    pub event_type: VsockEventType,
}

impl VsockEvent {
    pub open spec fn spec_matches_connection(
        &self,
        connection_info: &ConnectionInfo,
        guest_cid: u64,
    ) -> bool {
        &&& self.source == connection_info.dst
        &&& self.destination.cid == guest_cid
        &&& self.destination.port == connection_info.src_port
    }

    /// Whether the event belongs to the given connection of the guest
    /// `guest_cid`: it comes from the connection's peer and is addressed to
    /// the connection's local port.
    #[verifier::when_used_as_spec(spec_matches_connection)]
    pub fn matches_connection(&self, connection_info: &ConnectionInfo, guest_cid: u64) -> (r: bool)
        ensures
            r == self.spec_matches_connection(connection_info, guest_cid),
    {
        self.source.cid == connection_info.dst.cid && self.source.port == connection_info.dst.port
            && self.destination.cid == guest_cid && self.destination.port
            == connection_info.src_port
    }
}

/// The flow-control state of one connection, held by the caller.
#[derive(Copy, Clone, Debug, Default, PartialEq, Eq, Structural)]
pub struct ConnectionInfo {
    pub dst: VsockAddr,
    pub src_port: u32,
    /// The buffer allocation that the peer advertised last.
    pub peer_buf_alloc: u32,
    /// The forward count that the peer advertised last.
    pub peer_fwd_cnt: u32,
    /// Bytes of packet bodies sent to the peer.
    pub tx_cnt: u32,
    /// Bytes received from the peer and handed on to the client.
    pub fwd_cnt: u32,
    /// Whether a credit request is outstanding: set when one is sent,
    /// cleared when a credit update arrives.
    pub has_pending_credit_request: bool,
}

/// Bytes that may still be sent to a peer that advertised `allocation` bytes
/// of buffer and has consumed `peer_forwarded` of the `transmitted` bytes
/// sent so far. Bytes in flight are `transmitted - peer_forwarded`, taken as
/// zero where the peer reports more than was sent; the free space is the
/// allocation less the bytes in flight, taken as zero where they exceed it.
pub open spec fn credit(allocation: u32, transmitted: u32, peer_forwarded: u32) -> u32 {
    let in_flight: int = if transmitted >= peer_forwarded {
        transmitted - peer_forwarded
    } else {
        0
    };
    if allocation >= in_flight {
        (allocation - in_flight) as u32
    } else {
        0
    }
}

impl ConnectionInfo {
    pub open spec fn spec_peer_free(&self) -> u32 {
        credit(self.peer_buf_alloc, self.tx_cnt, self.peer_fwd_cnt)
    }

    /// The header of a packet on this connection sent by the guest `src_cid`:
    /// both endpoints and the local forward count, all else as in a blank
    /// header.
    pub open spec fn spec_new_header(&self, src_cid: u64) -> VirtioVsockHdr {
        VirtioVsockHdr {
            src_cid,
            dst_cid: self.dst.cid,
            src_port: self.src_port,
            dst_port: self.dst.port,
            fwd_cnt: self.fwd_cnt,
            ..VirtioVsockHdr::blank()
        }
    }

    /// A record for a connection to `destination` from the local port
    /// `src_port`, with all counters at zero and no request pending.
    pub fn new(destination: VsockAddr, src_port: u32) -> (info: ConnectionInfo)
        ensures
            info.dst == destination,
            info.src_port == src_port,
            info.peer_buf_alloc == 0,
            info.peer_fwd_cnt == 0,
            info.tx_cnt == 0,
            info.fwd_cnt == 0,
            !info.has_pending_credit_request,
    {
        ConnectionInfo {
            dst: destination,
            src_port,
            peer_buf_alloc: 0,
            peer_fwd_cnt: 0,
            tx_cnt: 0,
            fwd_cnt: 0,
            has_pending_credit_request: false,
        }
    }

    /// The record after `event` was taken in.
    pub open spec fn after_event(self, event: VsockEvent) -> ConnectionInfo {
        ConnectionInfo {
            peer_buf_alloc: event.buffer_status.buffer_allocation,
            peer_fwd_cnt: event.buffer_status.forward_count,
            has_pending_credit_request: self.has_pending_credit_request && event.event_type
                != VsockEventType::CreditUpdate,
            ..self
        }
    }

    /// The record after `length` more bytes were handed to the client.
    pub open spec fn after_forwarding(self, length: usize) -> ConnectionInfo
        recommends
            self.fwd_cnt + length <= u32::MAX,
    {
        ConnectionInfo { fwd_cnt: (self.fwd_cnt + length) as u32, ..self }
    }

    /// Takes the peer's buffer state from an event, whatever its kind. A
    /// credit update also clears the pending credit request.
    pub fn update_for_event(&mut self, event: &VsockEvent)
        ensures
            *final(self) == old(self).after_event(*event),
    {
        self.peer_buf_alloc = event.buffer_status.buffer_allocation;
        self.peer_fwd_cnt = event.buffer_status.forward_count;
        if let VsockEventType::CreditUpdate = event.event_type {
            self.has_pending_credit_request = false;
        }
    }

    /// Records that `length` more received bytes were handed to the client,
    /// so that there is room for as many again. The forwarded counter must
    /// stay within its range.
    pub fn done_forwarding(&mut self, length: usize)
        requires
            old(self).fwd_cnt + length <= u32::MAX,
        ensures
            *final(self) == old(self).after_forwarding(length),
    {
        self.fwd_cnt = self.fwd_cnt + (length as u32);
    }

    /// Bytes that the peer can still take.
    #[verifier::when_used_as_spec(spec_peer_free)]
    pub fn peer_free(&self) -> (free: u32)
        ensures
            free == self.spec_peer_free(),
    {
        let in_flight: u32 = if self.tx_cnt >= self.peer_fwd_cnt {
            self.tx_cnt - self.peer_fwd_cnt
        } else {
            0
        };
        if self.peer_buf_alloc >= in_flight {
            self.peer_buf_alloc - in_flight
        } else {
            0
        }
    }

    /// Builds the header of a packet on this connection.
    #[verifier::when_used_as_spec(spec_new_header)]
    pub fn new_header(&self, src_cid: u64) -> (header: VirtioVsockHdr)
        ensures
            header == self.spec_new_header(src_cid),
    {
        VirtioVsockHdr {
            src_cid,
            dst_cid: self.dst.cid,
            src_port: self.src_port,
            dst_port: self.dst.port,
            len: 0,
            socket_type: SOCKET_TYPE_STREAM,
            op: 0,
            flags: 0,
            buf_alloc: 0,
            fwd_cnt: self.fwd_cnt,
        }
    }

    /// Records that `length` more bytes were handed to the transmit queue.
    pub(crate) fn record_transmitted(&mut self, length: u32)
        requires
            old(self).tx_cnt + length <= u32::MAX,
        ensures
            *final(self) == (ConnectionInfo {
                tx_cnt: (old(self).tx_cnt + length) as u32,
                ..*old(self)
            }),
    {
        self.tx_cnt = self.tx_cnt + length;
    }

    /// Records that a credit request was handed to the transmit queue.
    pub(crate) fn record_credit_request(&mut self)
        ensures
            *final(self) == (ConnectionInfo { has_pending_credit_request: true, ..*old(self) }),
    {
        self.has_pending_credit_request = true;
    }
}

/// Every event refreshes the peer's buffer state in the record, and
/// leaves the local counters alone. After a credit update no credit request
/// is pending, whether or not one was before; any other event leaves the
/// flag as it was.
pub proof fn lemma_event_refreshes_credit(before: ConnectionInfo, event: VsockEvent)
    ensures
        before.after_event(event).peer_buf_alloc == event.buffer_status.buffer_allocation,
        before.after_event(event).peer_fwd_cnt == event.buffer_status.forward_count,
        before.after_event(event).tx_cnt == before.tx_cnt,
        before.after_event(event).fwd_cnt == before.fwd_cnt,
        event.event_type == VsockEventType::CreditUpdate ==> !before.after_event(
            event,
        ).has_pending_credit_request,
        event.event_type != VsockEventType::CreditUpdate ==> before.after_event(
            event,
        ).has_pending_credit_request == before.has_pending_credit_request,
{
}

/// Acknowledging `length` consumed bytes raises the forwarded counter by
/// exactly `length`, never lowers it, and changes nothing else.
pub proof fn lemma_forwarding_advances(before: ConnectionInfo, length: usize)
    requires
        before.fwd_cnt + length <= u32::MAX,
    ensures
        before.after_forwarding(length).fwd_cnt == before.fwd_cnt + length,
        before.after_forwarding(length).fwd_cnt >= before.fwd_cnt,
        before.after_forwarding(length).tx_cnt == before.tx_cnt,
        before.after_forwarding(length).spec_peer_free() == before.spec_peer_free(),
        before.after_forwarding(length).has_pending_credit_request
            == before.has_pending_credit_request,
{
}

/// The free space never exceeds the peer's allocation, and is all of it
/// when the peer has consumed everything that was sent.
pub proof fn lemma_credit_bounds(allocation: u32, transmitted: u32, peer_forwarded: u32)
    ensures
        credit(allocation, transmitted, peer_forwarded) <= allocation,
        transmitted <= peer_forwarded ==> credit(allocation, transmitted, peer_forwarded)
            == allocation,
        peer_forwarded <= transmitted && transmitted - peer_forwarded <= allocation ==> credit(
            allocation,
            transmitted,
            peer_forwarded,
        ) == allocation - (transmitted - peer_forwarded),
{
}

} // verus!
