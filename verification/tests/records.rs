use virtio_vsock::codec::read_header_and_body;
use virtio_vsock::connection::{
    ConnectionInfo, DisconnectReason, VsockBufferStatus, VsockEvent, VsockEventType,
};
use virtio_vsock::driver::{
    classify, decode_completion, device_failure, guest_cid_of, negotiate_features,
    token_matches_slot,
};
use virtio_vsock::protocol::{SocketError, VirtioVsockHdr, VirtioVsockOp, VsockAddr};
use virtio_vsock::transport::{DeviceError, VirtioVsockConfig};

fn sample_header() -> VirtioVsockHdr {
    VirtioVsockHdr {
        src_cid: 0x0807_0605_0403_0201,
        dst_cid: 66,
        src_port: 0x0a0b_0c0d,
        dst_port: 5000,
        len: 3,
        socket_type: 1,
        op: 5,
        flags: 0,
        buf_alloc: 0x0001_0000,
        fwd_cnt: 258,
    }
}

fn event(event_type: VsockEventType, allocation: u32, forwarded: u32) -> VsockEvent {
    VsockEvent {
        source: VsockAddr { cid: 2, port: 1234 },
        destination: VsockAddr { cid: 66, port: 5000 },
        buffer_status: VsockBufferStatus {
            buffer_allocation: allocation,
            forward_count: forwarded,
        },
        event_type,
    }
}

#[test]
fn peer_free_is_allocation_less_bytes_in_flight() {
    let mut info = ConnectionInfo::new(VsockAddr { cid: 2, port: 1234 }, 5000);
    info.peer_buf_alloc = 100;
    info.tx_cnt = 30;
    info.peer_fwd_cnt = 10;
    assert_eq!(info.peer_free(), 80);
}

#[test]
fn peer_free_is_zero_before_any_credit() {
    let mut info = ConnectionInfo::new(VsockAddr { cid: 2, port: 1234 }, 5000);
    assert_eq!(info.peer_free(), 0);
    info.tx_cnt = 30;
    assert_eq!(info.peer_free(), 0);
    info.peer_buf_alloc = 20;
    assert_eq!(info.peer_free(), 0);
    info.peer_fwd_cnt = 40;
    assert_eq!(info.peer_free(), 20);
}

#[test]
fn new_record_starts_at_zero() {
    let info = ConnectionInfo::new(VsockAddr { cid: 2, port: 1234 }, 5000);
    assert_eq!(info.dst, VsockAddr { cid: 2, port: 1234 });
    assert_eq!(info.src_port, 5000);
    assert_eq!(info.peer_buf_alloc, 0);
    assert_eq!(info.peer_fwd_cnt, 0);
    assert_eq!(info.tx_cnt, 0);
    assert_eq!(info.fwd_cnt, 0);
    assert!(!info.has_pending_credit_request);
}

#[test]
fn credit_update_clears_the_pending_request() {
    for pending in [false, true] {
        let mut info = ConnectionInfo::new(VsockAddr { cid: 2, port: 1234 }, 5000);
        info.has_pending_credit_request = pending;
        info.update_for_event(&event(VsockEventType::CreditUpdate, 300, 20));
        assert!(!info.has_pending_credit_request);
        assert_eq!(info.peer_buf_alloc, 300);
        assert_eq!(info.peer_fwd_cnt, 20);
    }
}

#[test]
fn other_events_refresh_credit_and_keep_the_flag() {
    let kinds = [
        VsockEventType::Connected,
        VsockEventType::Disconnected { reason: DisconnectReason::Reset },
        VsockEventType::Received { length: 4 },
        VsockEventType::CreditRequest,
    ];
    for kind in kinds {
        let mut info = ConnectionInfo::new(VsockAddr { cid: 2, port: 1234 }, 5000);
        info.has_pending_credit_request = true;
        info.tx_cnt = 5;
        info.update_for_event(&event(kind, 64, 3));
        assert!(info.has_pending_credit_request);
        assert_eq!(info.peer_buf_alloc, 64);
        assert_eq!(info.peer_fwd_cnt, 3);
        assert_eq!(info.tx_cnt, 5);
    }
}

#[test]
fn done_forwarding_adds_exactly() {
    let mut info = ConnectionInfo::new(VsockAddr { cid: 2, port: 1234 }, 5000);
    info.done_forwarding(7);
    assert_eq!(info.fwd_cnt, 7);
    info.done_forwarding(0);
    assert_eq!(info.fwd_cnt, 7);
    info.done_forwarding(35);
    assert_eq!(info.fwd_cnt, 42);
}

#[test]
fn event_matches_its_connection_only() {
    let info = ConnectionInfo::new(VsockAddr { cid: 2, port: 1234 }, 5000);
    let e = event(VsockEventType::Connected, 0, 0);
    assert!(e.matches_connection(&info, 66));
    assert!(!e.matches_connection(&info, 67));
    let other_port = ConnectionInfo::new(VsockAddr { cid: 2, port: 1234 }, 5001);
    assert!(!e.matches_connection(&other_port, 66));
    let other_peer = ConnectionInfo::new(VsockAddr { cid: 3, port: 1234 }, 5000);
    assert!(!e.matches_connection(&other_peer, 66));
}

#[test]
fn new_header_carries_endpoints_and_forward_count() {
    let mut info = ConnectionInfo::new(VsockAddr { cid: 2, port: 1234 }, 5000);
    info.fwd_cnt = 12;
    let header = info.new_header(66);
    assert_eq!(
        header,
        VirtioVsockHdr {
            src_cid: 66,
            dst_cid: 2,
            src_port: 5000,
            dst_port: 1234,
            len: 0,
            socket_type: 1,
            op: 0,
            flags: 0,
            buf_alloc: 0,
            fwd_cnt: 12,
        }
    );
}

#[test]
fn header_bytes_are_little_endian() {
    let bytes = sample_header().as_bytes();
    let expected: Vec<u8> = vec![
        1, 2, 3, 4, 5, 6, 7, 8, // source context
        66, 0, 0, 0, 0, 0, 0, 0, // destination context
        0x0d, 0x0c, 0x0b, 0x0a, // source port
        0x88, 0x13, 0, 0, // destination port
        3, 0, 0, 0, // length
        1, 0, // socket type
        5, 0, // operation
        0, 0, 0, 0, // flags
        0, 0, 1, 0, // buffer allocation
        2, 1, 0, 0, // forward count
    ];
    assert_eq!(bytes, expected);
    assert_eq!(bytes.len(), 44);
}

#[test]
fn header_round_trip() {
    let header = sample_header();
    let mut bytes = header.as_bytes();
    bytes.extend_from_slice(&[1, 2, 3]);
    assert_eq!(VirtioVsockHdr::read_from_prefix(&bytes), Some(header));
    assert_eq!(VirtioVsockHdr::read_from_prefix(&bytes[..43]), None);
    assert_eq!(VirtioVsockHdr::read_from_prefix(&[]), None);
}

#[test]
fn operation_codes() {
    let ops = [
        VirtioVsockOp::Invalid,
        VirtioVsockOp::Request,
        VirtioVsockOp::Response,
        VirtioVsockOp::Rst,
        VirtioVsockOp::Shutdown,
        VirtioVsockOp::Rw,
        VirtioVsockOp::CreditUpdate,
        VirtioVsockOp::CreditRequest,
    ];
    for (code, op) in ops.iter().enumerate() {
        assert_eq!(op.code(), code as u16);
        assert_eq!(VirtioVsockOp::from_code(code as u16), Some(*op));
    }
    assert_eq!(VirtioVsockOp::from_code(8), None);
    assert_eq!(VirtioVsockOp::from_code(u16::MAX), None);
}

#[test]
fn read_header_and_body_copies_the_body() {
    let mut bytes = sample_header().as_bytes();
    bytes.extend_from_slice(&[10, 20, 30, 40]);
    let mut body = [0xffu8; 5];
    assert_eq!(read_header_and_body(&bytes, &mut body), Ok(sample_header()));
    assert_eq!(body, [10, 20, 30, 0xff, 0xff]);
}

#[test]
fn read_header_and_body_truncated_body() {
    let mut bytes = sample_header().as_bytes();
    bytes.extend_from_slice(&[10, 20]);
    let mut body = [0xffu8; 5];
    assert_eq!(read_header_and_body(&bytes, &mut body), Err(SocketError::BufferTooShort));
    assert_eq!(body, [0xffu8; 5]);
}

#[test]
fn read_header_and_body_truncated_header() {
    let bytes = sample_header().as_bytes();
    let mut body = [0u8; 5];
    assert_eq!(read_header_and_body(&bytes[..40], &mut body), Err(SocketError::BufferTooShort));
}

#[test]
fn read_header_and_body_undersized_output() {
    let mut bytes = sample_header().as_bytes();
    bytes.extend_from_slice(&[10, 20, 30]);
    let mut body = [0xffu8; 2];
    assert_eq!(
        read_header_and_body(&bytes, &mut body),
        Err(SocketError::OutputBufferTooShort(3))
    );
    assert_eq!(body, [0xffu8; 2]);
}

#[test]
fn read_header_and_body_empty_body() {
    let mut header = sample_header();
    header.len = 0;
    let bytes = header.as_bytes();
    let mut body: [u8; 0] = [];
    assert_eq!(read_header_and_body(&bytes, &mut body), Ok(header));
}

#[test]
fn classify_data_packet() {
    let header = sample_header();
    let event = classify(&header).unwrap().unwrap();
    assert_eq!(event.event_type, VsockEventType::Received { length: 3 });
    assert_eq!(event.source, VsockAddr { cid: 0x0807_0605_0403_0201, port: 0x0a0b_0c0d });
    assert_eq!(event.destination, VsockAddr { cid: 66, port: 5000 });
    assert_eq!(
        event.buffer_status,
        VsockBufferStatus { buffer_allocation: 0x0001_0000, forward_count: 258 }
    );
}

#[test]
fn classify_refuses_bodies_on_control_packets() {
    for code in [1u16, 2, 3, 4, 6, 7] {
        let mut header = sample_header();
        header.op = code;
        header.len = 1;
        assert_eq!(classify(&header), Err(SocketError::UnexpectedDataInPacket));
    }
}

#[test]
fn classify_drops_connection_requests() {
    let mut header = sample_header();
    header.op = 1;
    header.len = 0;
    assert_eq!(classify(&header), Ok(None));
}

#[test]
fn classify_refuses_invalid_codes() {
    for code in [0u16, 8, 1000] {
        let mut header = sample_header();
        header.op = code;
        header.len = 0;
        assert_eq!(classify(&header), Err(SocketError::InvalidOperation));
    }
}

#[test]
fn decode_completion_decodes_then_classifies() {
    let mut bytes = sample_header().as_bytes();
    bytes.extend_from_slice(&[10, 20, 30]);
    bytes.resize(512, 0);
    let mut body = [0u8; 4];
    let event = decode_completion(&bytes, &mut body).unwrap().unwrap();
    assert_eq!(event.event_type, VsockEventType::Received { length: 3 });
    assert_eq!(body, [10, 20, 30, 0]);
    let mut small = [0u8; 1];
    assert_eq!(decode_completion(&bytes, &mut small), Err(SocketError::OutputBufferTooShort(3)));
    assert_eq!(decode_completion(&bytes[..20], &mut body), Err(SocketError::BufferTooShort));
}

#[test]
fn small_decisions() {
    assert_eq!(negotiate_features(u64::MAX), 0);
    assert_eq!(negotiate_features(0), 0);
    assert_eq!(guest_cid_of(&VirtioVsockConfig { guest_cid_low: 66, guest_cid_high: 0 }), 66);
    assert_eq!(
        guest_cid_of(&VirtioVsockConfig { guest_cid_low: 1, guest_cid_high: 2 }),
        0x2_0000_0001
    );
    assert!(token_matches_slot(3, 3));
    assert!(!token_matches_slot(3, 4));
    assert_eq!(device_failure(DeviceError { code: 12 }), SocketError::Device(12));
}
