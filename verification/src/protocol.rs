//! Endpoint addresses, operation codes, errors and the fixed packet header.

use crate::wire::{read_u16_le, read_u32_le, read_u64_le, u16_le_bytes, u32_le_bytes, u64_le_bytes};
use vstd::bytes::*;
use vstd::prelude::*;
use vstd::slice::slice_subrange;

verus! {

/// Size in bytes of the packet header on the wire.
pub const HEADER_SIZE: usize = 44;

/// Socket type carried by every header: a byte stream.
pub const SOCKET_TYPE_STREAM: u16 = 1;

/// One side of a connection.
#[derive(Copy, Clone, Debug, Default, PartialEq, Eq, Structural)]
pub struct VsockAddr {
    /// Context identifier of the guest or host.
    pub cid: u64,
    /// Port number.
    pub port: u32,
}

/// Why an operation of this library failed.
#[derive(Copy, Clone, Debug, PartialEq, Eq, Structural)]
pub enum SocketError {
    /// The received bytes end before the header or the declared body does.
    BufferTooShort,
    /// The caller's buffer cannot hold the body, whose length is carried.
    OutputBufferTooShort(usize),
    /// A length computation does not fit the machine word.
    InvalidNumber,
    /// The operation code is none that the protocol knows.
    InvalidOperation,
    /// A packet that must have no body declares one.
    UnexpectedDataInPacket,
    /// The peer has not advertised room for the payload.
    InsufficientBufferSpaceInPeer,
    /// A receive buffer came back under another token than its slot's. The
    /// slot table can no longer be relied on and the driver refuses further
    /// work.
    RecycledWrongBuffer,
    /// The queue or the transport failed; its code is carried unchanged.
    Device(u32),
}

/// Operation carried by a packet.
#[derive(Copy, Clone, Debug, PartialEq, Eq, Structural)]
pub enum VirtioVsockOp {
    Invalid,
    /// Connection request.
    Request,
    /// Connection accepted.
    Response,
    /// Connection reset.
    Rst,
    /// Graceful close.
    Shutdown,
    /// Payload.
    Rw,
    /// The sender advertises its buffer state.
    CreditUpdate,
    /// The sender asks for the receiver's buffer state.
    CreditRequest,
}

impl VirtioVsockOp {
    /// The operation that a wire code stands for, if any.
    pub open spec fn of_code(code: u16) -> Option<VirtioVsockOp> {
        if code == 0 {
            Some(VirtioVsockOp::Invalid)
        } else if code == 1 {
            Some(VirtioVsockOp::Request)
        } else if code == 2 {
            Some(VirtioVsockOp::Response)
        } else if code == 3 {
            Some(VirtioVsockOp::Rst)
        } else if code == 4 {
            Some(VirtioVsockOp::Shutdown)
        } else if code == 5 {
            Some(VirtioVsockOp::Rw)
        } else if code == 6 {
            Some(VirtioVsockOp::CreditUpdate)
        } else if code == 7 {
            Some(VirtioVsockOp::CreditRequest)
        } else {
            None
        }
    }

    /// The wire code of an operation.
    pub open spec fn spec_code(self) -> u16 {
        match self {
            VirtioVsockOp::Invalid => 0,
            VirtioVsockOp::Request => 1,
            VirtioVsockOp::Response => 2,
            VirtioVsockOp::Rst => 3,
            VirtioVsockOp::Shutdown => 4,
            VirtioVsockOp::Rw => 5,
            VirtioVsockOp::CreditUpdate => 6,
            VirtioVsockOp::CreditRequest => 7,
        }
    }

    #[verifier::when_used_as_spec(spec_code)]
    pub fn code(self) -> (code: u16)
        ensures
            code == self.spec_code(),
            Self::of_code(code) == Some(self),
    {
        match self {
            VirtioVsockOp::Invalid => 0,
            VirtioVsockOp::Request => 1,
            VirtioVsockOp::Response => 2,
            VirtioVsockOp::Rst => 3,
            VirtioVsockOp::Shutdown => 4,
            VirtioVsockOp::Rw => 5,
            VirtioVsockOp::CreditUpdate => 6,
            VirtioVsockOp::CreditRequest => 7,
        }
    }

    /// Reads a wire code. Codes above seven stand for no operation.
    pub fn from_code(code: u16) -> (op: Option<VirtioVsockOp>)
        ensures
            op == Self::of_code(code),
    {
        if code == 0 {
            Some(VirtioVsockOp::Invalid)
        } else if code == 1 {
            Some(VirtioVsockOp::Request)
        } else if code == 2 {
            Some(VirtioVsockOp::Response)
        } else if code == 3 {
            Some(VirtioVsockOp::Rst)
        } else if code == 4 {
            Some(VirtioVsockOp::Shutdown)
        } else if code == 5 {
            Some(VirtioVsockOp::Rw)
        } else if code == 6 {
            Some(VirtioVsockOp::CreditUpdate)
        } else if code == 7 {
            Some(VirtioVsockOp::CreditRequest)
        } else {
            None
        }
    }
}

/// The fixed header that starts every packet.
#[derive(Copy, Clone, Debug, PartialEq, Eq, Structural)]
pub struct VirtioVsockHdr {
    pub src_cid: u64,
    pub dst_cid: u64,
    pub src_port: u32,
    pub dst_port: u32,
    /// Declared length of the body that follows the header.
    pub len: u32,
    pub socket_type: u16,
    pub op: u16,
    pub flags: u32,
    /// Receive space that the sender has set aside, in bytes.
    pub buf_alloc: u32,
    /// Bytes of the other side's data that the sender has consumed so far.
    pub fwd_cnt: u32,
}

impl VirtioVsockHdr {
    /// A header with every field zero but the socket type, a stream.
    pub open spec fn blank() -> VirtioVsockHdr {
        VirtioVsockHdr {
            src_cid: 0,
            dst_cid: 0,
            src_port: 0,
            dst_port: 0,
            len: 0,
            socket_type: SOCKET_TYPE_STREAM,
            op: 0,
            flags: 0,
            buf_alloc: 0,
            fwd_cnt: 0,
        }
    }

    /// The header as it stands on the wire: its fields in order, each
    /// little-endian, with no padding.
    pub open spec fn wire(self) -> Seq<u8> {
        spec_u64_to_le_bytes(self.src_cid) + spec_u64_to_le_bytes(self.dst_cid)
            + spec_u32_to_le_bytes(self.src_port) + spec_u32_to_le_bytes(self.dst_port)
            + spec_u32_to_le_bytes(self.len) + spec_u16_to_le_bytes(self.socket_type)
            + spec_u16_to_le_bytes(self.op) + spec_u32_to_le_bytes(self.flags)
            + spec_u32_to_le_bytes(self.buf_alloc) + spec_u32_to_le_bytes(self.fwd_cnt)
    }

    /// The header that the first 44 bytes of `bytes` encode.
    pub open spec fn parse(bytes: Seq<u8>) -> VirtioVsockHdr
        recommends
            bytes.len() >= HEADER_SIZE,
    {
        VirtioVsockHdr {
            src_cid: spec_u64_from_le_bytes(bytes.subrange(0, 8)),
            dst_cid: spec_u64_from_le_bytes(bytes.subrange(8, 16)),
            src_port: spec_u32_from_le_bytes(bytes.subrange(16, 20)),
            dst_port: spec_u32_from_le_bytes(bytes.subrange(20, 24)),
            len: spec_u32_from_le_bytes(bytes.subrange(24, 28)),
            socket_type: spec_u16_from_le_bytes(bytes.subrange(28, 30)),
            op: spec_u16_from_le_bytes(bytes.subrange(30, 32)),
            flags: spec_u32_from_le_bytes(bytes.subrange(32, 36)),
            buf_alloc: spec_u32_from_le_bytes(bytes.subrange(36, 40)),
            fwd_cnt: spec_u32_from_le_bytes(bytes.subrange(40, 44)),
        }
    }

    /// The endpoint that sent the packet.
    pub open spec fn spec_source(&self) -> VsockAddr {
        VsockAddr { cid: self.src_cid, port: self.src_port }
    }

    /// The endpoint that the packet is addressed to.
    pub open spec fn spec_destination(&self) -> VsockAddr {
        VsockAddr { cid: self.dst_cid, port: self.dst_port }
    }

    pub fn new() -> (header: VirtioVsockHdr)
        ensures
            header == Self::blank(),
    {
        VirtioVsockHdr {
            src_cid: 0,
            dst_cid: 0,
            src_port: 0,
            dst_port: 0,
            len: 0,
            socket_type: SOCKET_TYPE_STREAM,
            op: 0,
            flags: 0,
            buf_alloc: 0,
            fwd_cnt: 0,
        }
    }

    /// Declared body length.
    pub fn len(&self) -> (len: u32)
        ensures
            len == self.len,
    {
        self.len
    }

    /// The operation, or the invalid-operation error for a code that the
    /// protocol does not know.
    pub fn op(&self) -> (op: Result<VirtioVsockOp, SocketError>)
        ensures
            op == match VirtioVsockOp::of_code(self.op) {
                Some(known) => Ok::<VirtioVsockOp, SocketError>(known),
                None => Err::<VirtioVsockOp, SocketError>(SocketError::InvalidOperation),
            },
    {
        match VirtioVsockOp::from_code(self.op) {
            Some(known) => Ok(known),
            None => Err(SocketError::InvalidOperation),
        }
    }

    #[verifier::when_used_as_spec(spec_source)]
    pub fn source(&self) -> (addr: VsockAddr)
        ensures
            addr == self.spec_source(),
    {
        VsockAddr { cid: self.src_cid, port: self.src_port }
    }

    #[verifier::when_used_as_spec(spec_destination)]
    pub fn destination(&self) -> (addr: VsockAddr)
        ensures
            addr == self.spec_destination(),
    {
        VsockAddr { cid: self.dst_cid, port: self.dst_port }
    }

    /// Succeeds exactly when the header declares no body.
    pub fn check_data_is_empty(&self) -> (r: Result<(), SocketError>)
        ensures
            self.len == 0 ==> r == Ok::<(), SocketError>(()),
            self.len != 0 ==> r == Err::<(), SocketError>(SocketError::UnexpectedDataInPacket),
    {
        if self.len == 0 {
            Ok(())
        } else {
            Err(SocketError::UnexpectedDataInPacket)
        }
    }

    /// Encodes the header.
    pub fn as_bytes(&self) -> (bytes: Vec<u8>)
        ensures
            bytes@ == self.wire(),
            bytes@.len() == HEADER_SIZE,
    {
        proof {
            lemma_auto_spec_u16_to_from_le_bytes();
            lemma_auto_spec_u32_to_from_le_bytes();
            lemma_auto_spec_u64_to_from_le_bytes();
        }
        let mut bytes = u64_le_bytes(self.src_cid);
        let mut part = u64_le_bytes(self.dst_cid);
        bytes.append(&mut part);
        let mut part = u32_le_bytes(self.src_port);
        bytes.append(&mut part);
        let mut part = u32_le_bytes(self.dst_port);
        bytes.append(&mut part);
        let mut part = u32_le_bytes(self.len);
        bytes.append(&mut part);
        let mut part = u16_le_bytes(self.socket_type);
        bytes.append(&mut part);
        let mut part = u16_le_bytes(self.op);
        bytes.append(&mut part);
        let mut part = u32_le_bytes(self.flags);
        bytes.append(&mut part);
        let mut part = u32_le_bytes(self.buf_alloc);
        bytes.append(&mut part);
        let mut part = u32_le_bytes(self.fwd_cnt);
        bytes.append(&mut part);
        bytes
    }

    /// Decodes the header at the front of `bytes`, if all of it is there.
    pub fn read_from_prefix(bytes: &[u8]) -> (header: Option<VirtioVsockHdr>)
        ensures
            bytes@.len() < HEADER_SIZE ==> header is None,
            bytes@.len() >= HEADER_SIZE ==> header == Some(Self::parse(bytes@)),
    {
        if bytes.len() < HEADER_SIZE {
            return None;
        }
        let src_cid = field_u64(bytes, 0);
        let dst_cid = field_u64(bytes, 8);
        let src_port = field_u32(bytes, 16);
        let dst_port = field_u32(bytes, 20);
        let len = field_u32(bytes, 24);
        let socket_type = field_u16(bytes, 28);
        let op = field_u16(bytes, 30);
        let flags = field_u32(bytes, 32);
        let buf_alloc = field_u32(bytes, 36);
        let fwd_cnt = field_u32(bytes, 40);
        Some(
            VirtioVsockHdr {
                src_cid,
                dst_cid,
                src_port,
                dst_port,
                len,
                socket_type,
                op,
                flags,
                buf_alloc,
                fwd_cnt,
            },
        )
    }
}

fn field_u16(bytes: &[u8], at: usize) -> (value: u16)
    requires
        at + 2 <= bytes@.len(),
    ensures
        value == spec_u16_from_le_bytes(bytes@.subrange(at as int, at + 2)),
{
    let tail = slice_subrange(bytes, at, bytes.len());
    assert(tail@.subrange(0, 2) =~= bytes@.subrange(at as int, at + 2));
    match read_u16_le(tail) {
        Some(value) => value,
        None => 0,
    }
}

fn field_u32(bytes: &[u8], at: usize) -> (value: u32)
    requires
        at + 4 <= bytes@.len(),
    ensures
        value == spec_u32_from_le_bytes(bytes@.subrange(at as int, at + 4)),
{
    let tail = slice_subrange(bytes, at, bytes.len());
    assert(tail@.subrange(0, 4) =~= bytes@.subrange(at as int, at + 4));
    match read_u32_le(tail) {
        Some(value) => value,
        None => 0,
    }
}

fn field_u64(bytes: &[u8], at: usize) -> (value: u64)
    requires
        at + 8 <= bytes@.len(),
    ensures
        value == spec_u64_from_le_bytes(bytes@.subrange(at as int, at + 8)),
{
    let tail = slice_subrange(bytes, at, bytes.len());
    assert(tail@.subrange(0, 8) =~= bytes@.subrange(at as int, at + 8));
    match read_u64_le(tail) {
        Some(value) => value,
        None => 0,
    }
}

/// Decoding an encoded header gives the header back.
pub proof fn lemma_parse_wire(header: VirtioVsockHdr)
    ensures
        header.wire().len() == HEADER_SIZE,
        VirtioVsockHdr::parse(header.wire()) == header,
{
    lemma_auto_spec_u16_to_from_le_bytes();
    lemma_auto_spec_u32_to_from_le_bytes();
    lemma_auto_spec_u64_to_from_le_bytes();
    let w = header.wire();
    assert(w.subrange(0, 8) =~= spec_u64_to_le_bytes(header.src_cid));
    assert(w.subrange(8, 16) =~= spec_u64_to_le_bytes(header.dst_cid));
    assert(w.subrange(16, 20) =~= spec_u32_to_le_bytes(header.src_port));
    assert(w.subrange(20, 24) =~= spec_u32_to_le_bytes(header.dst_port));
    assert(w.subrange(24, 28) =~= spec_u32_to_le_bytes(header.len));
    assert(w.subrange(28, 30) =~= spec_u16_to_le_bytes(header.socket_type));
    assert(w.subrange(30, 32) =~= spec_u16_to_le_bytes(header.op));
    assert(w.subrange(32, 36) =~= spec_u32_to_le_bytes(header.flags));
    assert(w.subrange(36, 40) =~= spec_u32_to_le_bytes(header.buf_alloc));
    assert(w.subrange(40, 44) =~= spec_u32_to_le_bytes(header.fwd_cnt));
}

} // verus!
