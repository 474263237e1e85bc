use alagappa_tools::clock::CivilTime;
use alagappa_tools::records::{event_label, unknown_user, AttendanceRecord, RawAttendance, User};

fn user_payload(name: &[u8], len: usize) -> Vec<u8> {
    let mut p = vec![0xaau8; len];
    for i in 8..40 {
        p[i] = 0;
    }
    p[8..8 + name.len()].copy_from_slice(name);
    p
}

#[test]
fn user_record_needs_seventy_two_bytes() {
    assert_eq!(User::parse(&[], 1), None);
    assert_eq!(User::parse(&user_payload(b"Alice", 71), 1), None);
    assert!(User::parse(&user_payload(b"Alice", 72), 1).is_some());
    assert!(User::parse(&user_payload(b"Alice", 100), 1).is_some());
}

#[test]
fn user_name_is_trimmed_of_padding() {
    let u = User::parse(&user_payload(b"Alice", 72), 4).unwrap();
    assert_eq!(u.uid, 4);
    assert_eq!(u.name, "Alice");
    assert_eq!(u.external_id, "4");
}

#[test]
fn user_name_may_fill_the_field() {
    let name = b"ABCDEFGHIJKLMNOPQRSTUVWXYZ012345";
    let u = User::parse(&user_payload(name, 72), 1).unwrap();
    assert_eq!(u.name, "ABCDEFGHIJKLMNOPQRSTUVWXYZ012345");
}

#[test]
fn user_name_keeps_inner_nuls() {
    let u = User::parse(&user_payload(b"Al\0ice", 72), 1).unwrap();
    assert_eq!(u.name, "Al\0ice");
}

#[test]
fn empty_user_name_stays_empty() {
    let u = User::parse(&user_payload(b"", 72), 12).unwrap();
    assert_eq!(u.name, "");
    assert_eq!(u.external_id, "12");
    assert_eq!(u.uid, 12);
}

#[test]
fn invalid_utf8_in_name_is_replaced() {
    let u = User::parse(&user_payload(&[b'A', 0xff, b'B'], 72), 1).unwrap();
    assert_eq!(u.name, "A\u{fffd}B");
    let u = User::parse(&user_payload("Zoë".as_bytes(), 72), 1).unwrap();
    assert_eq!(u.name, "Zoë");
}

#[test]
fn user_from_decoded_name() {
    let u = User::from_decoded_name("Bob\0\0", 2);
    assert_eq!(u, User { uid: 2, name: "Bob".to_string(), external_id: "2".to_string() });
    let u = User::from_decoded_name("\0\0\0", 4000000000);
    assert_eq!(u.name, "");
    assert_eq!(u.external_id, "4000000000");
}

#[test]
fn attendance_record_needs_sixteen_bytes() {
    assert_eq!(RawAttendance::parse(&[0u8; 15]), None);
    assert_eq!(RawAttendance::parse(&[]), None);
    assert!(RawAttendance::parse(&[0u8; 16]).is_some());
}

#[test]
fn attendance_fields_are_read_at_their_offsets() {
    let payload = [
        0x39, 0x30, 0x00, 0x00, // user id 12345
        0x00, 0x5e, 0x0b, 0x65, // 0x650b5e00
        2, 1, 0xee, 0xee, 0xee, 0xee, 0xee, 0xee, 0xee,
    ];
    let raw = RawAttendance::parse(&payload).unwrap();
    assert_eq!(
        raw,
        RawAttendance { user_id: 12345, timestamp: 0x650b5e00, status: 2, punch: 1 }
    );
    let raw = RawAttendance::parse(&[0xff; 16]).unwrap();
    assert_eq!(
        raw,
        RawAttendance { user_id: u32::MAX, timestamp: u32::MAX, status: 255, punch: 255 }
    );
}

#[test]
fn status_codes_map_to_labels() {
    assert_eq!(event_label(0), "Check In");
    assert_eq!(event_label(1), "Check Out");
    assert_eq!(event_label(2), "Break Out");
    assert_eq!(event_label(3), "Break In");
    assert_eq!(event_label(4), "OT In");
    assert_eq!(event_label(5), "OT Out");
}

#[test]
fn other_status_codes_are_unknown() {
    for status in 6..=255u8 {
        assert_eq!(event_label(status), "Unknown");
    }
}

#[test]
fn unknown_user_quotes_the_id() {
    assert_eq!(unknown_user(7), "Unknown (ID: 7)");
    assert_eq!(unknown_user(0), "Unknown (ID: 0)");
    assert_eq!(unknown_user(4294967295), "Unknown (ID: 4294967295)");
}

#[test]
fn assemble_puts_record_together() {
    let raw = RawAttendance { user_id: 9, timestamp: 1700000000, status: 4, punch: 3 };
    let when = CivilTime {
        timestamp: "2023-11-14T22:13:20+00:00".to_string(),
        date: "2023-11-14".to_string(),
        time: "22:13:20".to_string(),
    };
    let r = AttendanceRecord::assemble(raw, "Carol".to_string(), when);
    assert_eq!(
        r,
        AttendanceRecord {
            user_id: 9,
            user_name: "Carol".to_string(),
            timestamp: "2023-11-14T22:13:20+00:00".to_string(),
            status: 4,
            punch: 3,
            date: "2023-11-14".to_string(),
            time: "22:13:20".to_string(),
            event: "OT In".to_string(),
        }
    );
}
