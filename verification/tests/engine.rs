use tunfwd::engine::{
    device_read_failure, device_write_done, device_write_failure, take_prefix,
    transport_recv_failure, transport_send_done, transport_send_failure, Action, Engine, Event,
    PeerAddr, Status, StopReason, MTU,
};
use tunfwd::errors::{classify_os_error, IoErrorClass, EAGAIN, EBADF, EINTR, ENODEV, ENXIO};

fn peer_9091() -> PeerAddr {
    PeerAddr { addr: 0x7f00_0001, port: 9091 }
}

fn ipv4_packet_32() -> Vec<u8> {
    // A minimal well-formed IPv4 header (version 4, IHL 5, total length 32)
    // followed by 12 payload bytes.
    let mut p = vec![
        0x45, 0x00, 0x00, 0x20, 0x00, 0x01, 0x00, 0x00, 0x40, 0x11, 0x00, 0x00, 0x0a, 0x00, 0x05,
        0x01, 0x0a, 0x00, 0x05, 0x02,
    ];
    p.extend_from_slice(&[1, 2, 3, 4, 5, 6, 7, 8, 9, 10, 11, 12]);
    assert_eq!(p.len(), 32);
    p
}

#[test]
fn device_packet_forwarded_byte_for_byte_to_peer() {
    let mut eng = Engine::new(Some(peer_9091()));
    let packet = ipv4_packet_32();
    let act = eng.step(Event::DeviceRead(packet.clone()));
    match act {
        Action::Send { payload, dest } => {
            assert_eq!(payload, packet);
            assert_eq!(dest, peer_9091());
        }
        other => panic!("expected Send, got {:?}", other),
    }
    // The send succeeds: one forwarded-packet event, engine keeps waiting.
    let act = eng.step(Event::SendDone { ok: true, fatal: false });
    assert!(matches!(act, Action::Wait));
    assert_eq!(eng.status, Status::Running);
    assert_eq!(eng.forwarded_to_transport, 1);
    assert_eq!(eng.dropped_packets, 0);
}

#[test]
fn empty_device_read_is_not_ready() {
    let mut eng = Engine::new(Some(peer_9091()));
    let act = eng.step(Event::DeviceRead(Vec::new()));
    assert!(matches!(act, Action::Wait));
    assert_eq!(eng.status, Status::Running);
    assert_eq!(eng.forwarded_to_transport, 0);
    assert_eq!(eng.dropped_packets, 0);
}

#[test]
fn device_packets_forwarded_in_read_order() {
    let mut eng = Engine::new(Some(peer_9091()));
    let first = vec![1u8, 2, 3];
    let second = vec![9u8, 8, 7, 6];
    let act_a = eng.step(Event::DeviceRead(first.clone()));
    let act_b = eng.step(Event::DeviceRead(second.clone()));
    match (act_a, act_b) {
        (Action::Send { payload: a, .. }, Action::Send { payload: b, .. }) => {
            assert_eq!(a, first);
            assert_eq!(b, second);
        }
        other => panic!("expected two Sends, got {:?}", other),
    }
}

#[test]
fn datagram_written_byte_for_byte_to_device() {
    let mut eng = Engine::new(Some(peer_9091()));
    let datagram = vec![0xde, 0xad, 0xbe, 0xef];
    let act = eng.step(Event::TransportRecv {
        payload: datagram.clone(),
        source: Some(peer_9091()),
    });
    match act {
        Action::Write { payload } => assert_eq!(payload, datagram),
        other => panic!("expected Write, got {:?}", other),
    }
    let act = eng.step(Event::WriteDone { ok: true, fatal: false });
    assert!(matches!(act, Action::Wait));
    assert_eq!(eng.forwarded_to_device, 1);
}

#[test]
fn sender_becomes_active_peer_when_none_configured() {
    let mut eng = Engine::new(None);
    let src = PeerAddr { addr: 0x0a00_0502, port: 4242 };
    let act = eng.step(Event::TransportRecv { payload: vec![5u8], source: Some(src) });
    assert!(matches!(act, Action::Write { .. }));
    // A device packet now goes to the learned sender.
    let act = eng.step(Event::DeviceRead(vec![7u8, 7]));
    match act {
        Action::Send { dest, .. } => assert_eq!(dest, src),
        other => panic!("expected Send, got {:?}", other),
    }
}

#[test]
fn device_packet_dropped_when_no_peer_known() {
    let mut eng = Engine::new(None);
    let act = eng.step(Event::DeviceRead(vec![1u8, 2]));
    assert!(matches!(act, Action::Wait));
    assert_eq!(eng.dropped_packets, 1);
    assert_eq!(eng.status, Status::Running);
}

#[test]
fn empty_datagram_with_no_sender_stops_engine() {
    let mut eng = Engine::new(Some(peer_9091()));
    let act = eng.step(Event::TransportRecv { payload: Vec::new(), source: None });
    assert!(matches!(act, Action::Stop));
    assert_eq!(eng.status, Status::Stopped);
    assert_eq!(eng.stop_reason, Some(StopReason::EndOfInput));
    // The resources are released exactly once: no further Stop is asked for.
    let act = eng.step(Event::TransportRecv { payload: Vec::new(), source: None });
    assert!(matches!(act, Action::Wait));
    let act = eng.step(Event::Cancel);
    assert!(matches!(act, Action::Wait));
    assert_eq!(eng.stop_reason, Some(StopReason::EndOfInput));
}

#[test]
fn empty_datagram_with_sender_is_not_ready() {
    let mut eng = Engine::new(Some(peer_9091()));
    let act = eng.step(Event::TransportRecv { payload: Vec::new(), source: Some(peer_9091()) });
    assert!(matches!(act, Action::Wait));
    assert_eq!(eng.status, Status::Running);
}

#[test]
fn transient_write_failure_drops_packet_and_keeps_running() {
    let mut eng = Engine::new(Some(peer_9091()));
    let act = eng.step(Event::TransportRecv { payload: vec![3u8, 1, 4], source: None });
    assert!(matches!(act, Action::Write { .. }));
    // The device write fails with a permission-style (transient) error.
    let act = eng.step(Event::WriteDone { ok: false, fatal: false });
    assert!(matches!(act, Action::Wait));
    assert_eq!(eng.status, Status::Running);
    assert_eq!(eng.dropped_packets, 1);
    // Both directions still serve the next readiness wait.
    let act = eng.step(Event::DeviceRead(vec![9u8]));
    assert!(matches!(act, Action::Send { .. }));
    let act = eng.step(Event::TransportRecv { payload: vec![8u8], source: None });
    assert!(matches!(act, Action::Write { .. }));
}

#[test]
fn transient_send_failure_drops_packet_and_keeps_running() {
    let mut eng = Engine::new(Some(peer_9091()));
    let act = eng.step(Event::DeviceRead(vec![1u8, 2, 3]));
    assert!(matches!(act, Action::Send { .. }));
    let act = eng.step(Event::SendDone { ok: false, fatal: false });
    assert!(matches!(act, Action::Wait));
    assert_eq!(eng.status, Status::Running);
    assert_eq!(eng.dropped_packets, 1);
    assert_eq!(eng.forwarded_to_transport, 0);
}

#[test]
fn fatal_errors_stop_engine() {
    let mut eng = Engine::new(Some(peer_9091()));
    let act = eng.step(Event::DeviceError { fatal: true });
    assert!(matches!(act, Action::Stop));
    assert_eq!(eng.status, Status::Stopped);
    assert_eq!(eng.stop_reason, Some(StopReason::DeviceFailed));

    let mut eng = Engine::new(Some(peer_9091()));
    let act = eng.step(Event::TransportError { fatal: true });
    assert!(matches!(act, Action::Stop));
    assert_eq!(eng.stop_reason, Some(StopReason::TransportFailed));

    let mut eng = Engine::new(Some(peer_9091()));
    eng.step(Event::DeviceRead(vec![1u8]));
    let act = eng.step(Event::SendDone { ok: false, fatal: true });
    assert!(matches!(act, Action::Stop));
    assert_eq!(eng.stop_reason, Some(StopReason::TransportFailed));
}

#[test]
fn transient_read_errors_are_counted_not_fatal() {
    let mut eng = Engine::new(Some(peer_9091()));
    let act = eng.step(Event::DeviceError { fatal: false });
    assert!(matches!(act, Action::Wait));
    let act = eng.step(Event::TransportError { fatal: false });
    assert!(matches!(act, Action::Wait));
    assert_eq!(eng.io_errors, 2);
    assert_eq!(eng.status, Status::Running);
}

#[test]
fn cancel_stops_once_and_is_idempotent() {
    let mut eng = Engine::new(Some(peer_9091()));
    let act = eng.step(Event::Cancel);
    assert!(matches!(act, Action::Stop));
    assert_eq!(eng.status, Status::Stopped);
    assert_eq!(eng.stop_reason, Some(StopReason::Cancelled));
    // Cancelling again changes nothing and releases nothing twice.
    let before_forwarded = eng.forwarded_to_transport;
    let act = eng.step(Event::Cancel);
    assert!(matches!(act, Action::Wait));
    assert_eq!(eng.status, Status::Stopped);
    assert_eq!(eng.stop_reason, Some(StopReason::Cancelled));
    assert_eq!(eng.forwarded_to_transport, before_forwarded);
    // Once stopped, packets are no longer relayed.
    let act = eng.step(Event::DeviceRead(vec![1u8, 2]));
    assert!(matches!(act, Action::Wait));
}

#[test]
fn take_prefix_extracts_exact_read_range() {
    let mut buf = vec![0u8; MTU];
    buf[0] = 0x45;
    buf[1] = 0xab;
    buf[2] = 0xcd;
    let packet = take_prefix(&buf, 3);
    assert_eq!(packet, vec![0x45, 0xab, 0xcd]);
    assert_eq!(take_prefix(&buf, 0), Vec::<u8>::new());
}

#[test]
fn not_ready_leaves_engine_untouched() {
    let mut eng = Engine::new(Some(peer_9091()));
    let act = eng.step(Event::NotReady);
    assert!(matches!(act, Action::Wait));
    assert_eq!(eng.status, Status::Running);
    assert_eq!(eng.io_errors, 0);
}

#[test]
fn failure_events_follow_error_class() {
    // Would-block reads are not-ready signals, not errors.
    assert!(matches!(device_read_failure(EAGAIN), Event::NotReady));
    assert!(matches!(transport_recv_failure(EINTR), Event::NotReady));
    // A permission-style failure is transient.
    assert!(matches!(device_read_failure(13), Event::DeviceError { fatal: false }));
    assert!(matches!(transport_recv_failure(13), Event::TransportError { fatal: false }));
    // A dead descriptor is fatal.
    assert!(matches!(device_read_failure(EBADF), Event::DeviceError { fatal: true }));
    assert!(matches!(transport_recv_failure(EBADF), Event::TransportError { fatal: true }));
    assert!(matches!(device_write_failure(EBADF), Event::WriteDone { ok: false, fatal: true }));
    assert!(matches!(device_write_failure(13), Event::WriteDone { ok: false, fatal: false }));
    assert!(matches!(transport_send_failure(ENODEV), Event::SendDone { ok: false, fatal: true }));
    assert!(matches!(transport_send_failure(13), Event::SendDone { ok: false, fatal: false }));
}

#[test]
fn partial_device_write_is_fatal_whole_write_is_not() {
    assert!(matches!(device_write_done(32, 32), Event::WriteDone { ok: true, fatal: false }));
    assert!(matches!(device_write_done(10, 32), Event::WriteDone { ok: false, fatal: true }));
    assert!(matches!(transport_send_done(32, 32), Event::SendDone { ok: true, fatal: false }));
    assert!(matches!(transport_send_done(10, 32), Event::SendDone { ok: false, fatal: false }));
}

#[test]
fn os_error_classification() {
    assert_eq!(classify_os_error(EAGAIN), IoErrorClass::NotReady);
    assert_eq!(classify_os_error(EINTR), IoErrorClass::NotReady);
    assert_eq!(classify_os_error(EBADF), IoErrorClass::Fatal);
    assert_eq!(classify_os_error(ENXIO), IoErrorClass::Fatal);
    assert_eq!(classify_os_error(ENODEV), IoErrorClass::Fatal);
    // A permission-style failure is transient: one packet lost, loop intact.
    assert_eq!(classify_os_error(13), IoErrorClass::Transient);
    assert_eq!(classify_os_error(5), IoErrorClass::Transient);
}
