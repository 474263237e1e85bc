use alagappa_tools::codec::encode;
use alagappa_tools::error::ProtocolError;
use alagappa_tools::session::{ProtocolSession, SessionState};

fn ack(session_field: u16, command: u16) -> Vec<u8> {
    vec![
        0x50,
        0x50,
        (session_field & 0xff) as u8,
        (session_field >> 8) as u8,
        (command & 0xff) as u8,
        (command >> 8) as u8,
        0,
        0,
    ]
}

#[test]
fn fresh_session_has_zero_ids() {
    let s = ProtocolSession::new();
    assert_eq!(s.session_id(), 0);
    assert_eq!(s.reply_id(), 0);
    assert_eq!(s.state(), SessionState::Connecting);
}

#[test]
fn handshake_request_is_connect_frame_with_reply_id_zero() {
    let s = ProtocolSession::new();
    assert_eq!(s.handshake_request(), encode(0, 1000, 0, &[]));
    assert_eq!(s.handshake_request(), vec![0x50, 0x50, 0, 0, 0xe8, 0x03, 0, 0, 0x8b, 0x01]);
}

#[test]
fn successful_handshake_sets_reply_id_one_and_session_id_from_response() {
    let mut s = ProtocolSession::new();
    s.record_sent();
    let response = ack(0x1234, 5000);
    assert_eq!(s.complete_handshake(&response), Ok(()));
    assert_eq!(s.reply_id(), 1);
    // The session id is the session field of the response, header bytes 2..4.
    assert_eq!(s.session_id(), u16::from_le_bytes([response[2], response[3]]));
    assert_eq!(s.session_id(), 0x1234);
    assert_eq!(s.state(), SessionState::Established);
}

#[test]
fn handshake_fails_on_other_command() {
    let mut s = ProtocolSession::new();
    s.record_sent();
    assert_eq!(s.complete_handshake(&ack(7, 5001)), Err(ProtocolError::HandshakeFailed));
    assert_eq!(s.session_id(), 0);
    assert_eq!(s.reply_id(), 1);
    assert_eq!(s.state(), SessionState::Connecting);
    assert_eq!(s.complete_handshake(&ack(7, 5005)), Err(ProtocolError::HandshakeFailed));
    assert_eq!(s.complete_handshake(&ack(7, 0)), Err(ProtocolError::HandshakeFailed));
}

#[test]
fn handshake_fails_on_short_response() {
    let mut s = ProtocolSession::new();
    assert_eq!(s.complete_handshake(&[]), Err(ProtocolError::HandshakeFailed));
    assert_eq!(
        s.complete_handshake(&[0x50, 0x50, 0, 0, 0x88, 0x13, 0]),
        Err(ProtocolError::HandshakeFailed)
    );
    assert_eq!(s.session_id(), 0);
    assert_eq!(s.state(), SessionState::Connecting);
}

#[test]
fn handshake_resets_reply_id_to_one() {
    let mut s = ProtocolSession::new();
    for _ in 0..5 {
        s.record_sent();
    }
    assert_eq!(s.reply_id(), 5);
    assert_eq!(s.complete_handshake(&ack(0, 5000)), Ok(()));
    assert_eq!(s.reply_id(), 1);
}

#[test]
fn reply_id_counts_frames_sent() {
    let mut s = ProtocolSession::new();
    for n in 1..=1000u32 {
        s.record_sent();
        assert_eq!(s.reply_id() as u32, n);
    }
    assert_eq!(s.session_id(), 0);
}

#[test]
fn reply_id_wraps_at_sixteen_bits() {
    let mut s = ProtocolSession::new();
    for _ in 0..65535u32 {
        s.record_sent();
    }
    assert_eq!(s.reply_id(), 65535);
    s.record_sent();
    assert_eq!(s.reply_id(), 0);
    s.record_sent();
    assert_eq!(s.reply_id(), 1);
}

#[test]
fn reply_id_after_handshake_and_sends() {
    let mut s = ProtocolSession::new();
    let _ = s.handshake_request();
    s.record_sent();
    assert_eq!(s.complete_handshake(&ack(0, 5000)), Ok(()));
    for _ in 0..9 {
        s.record_sent();
    }
    // ten frames went out in all
    assert_eq!(s.reply_id(), 10);
}

#[test]
fn build_command_uses_current_ids_and_leaves_them() {
    let mut s = ProtocolSession::new();
    s.record_sent();
    assert_eq!(s.complete_handshake(&ack(0xbeef, 5000)), Ok(()));
    s.record_sent();
    let frame = s.build_command(8, &[]);
    assert_eq!(frame, encode(0xbeef, 8, 2, &[]));
    assert_eq!(s.reply_id(), 2);
    let frame = s.build_command(13, &[1, 2]);
    assert_eq!(frame, encode(0xbeef, 13, 2, &[1, 2]));
}

#[test]
fn close_gives_exit_frame() {
    let mut s = ProtocolSession::new();
    s.record_sent();
    assert_eq!(s.complete_handshake(&ack(77, 5000)), Ok(()));
    s.record_sent();
    s.record_sent();
    assert_eq!(s.close(), encode(77, 1001, 3, &[]));
}

#[test]
fn session_id_may_be_any_value_the_device_assigns() {
    for id in [0u16, 1, 5000, 0x00ff, 0xff00, 0xffff] {
        let mut s = ProtocolSession::new();
        s.record_sent();
        assert_eq!(s.complete_handshake(&ack(id, 5000)), Ok(()));
        assert_eq!(s.session_id(), id);
        assert_eq!(s.reply_id(), 1);
    }
}
