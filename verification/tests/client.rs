use alagappa_tools::client::{
    classify, get_attendance, list_users, AttendanceListing, Flow, UserDirectory, UserListing,
};
use alagappa_tools::codec::encode;
use alagappa_tools::error::ProtocolError;
use alagappa_tools::records::User;
use alagappa_tools::session::ProtocolSession;
use chrono::{Local, TimeZone, Utc};

const DATA: u16 = 5002;
const ACK_OK: u16 = 5000;
const ACK_ERROR: u16 = 5001;

fn user_payload(name: &[u8]) -> Vec<u8> {
    let mut p = vec![0u8; 72];
    p[8..8 + name.len()].copy_from_slice(name);
    p
}

fn punch_payload(user_id: u32, secs: u32, status: u8, punch: u8) -> Vec<u8> {
    let mut p = Vec::new();
    p.extend_from_slice(&user_id.to_le_bytes());
    p.extend_from_slice(&secs.to_le_bytes());
    p.push(status);
    p.push(punch);
    p.extend_from_slice(&[0u8; 6]);
    p
}

fn user(uid: u32, name: &str) -> User {
    User { uid, name: name.to_string(), external_id: uid.to_string() }
}

#[test]
fn two_user_frames_then_ack_yield_two_users() {
    let replies = vec![
        (DATA, user_payload(b"Alice")),
        (DATA, user_payload(b"Bob")),
        (ACK_OK, vec![]),
    ];
    let users = list_users(&replies).unwrap();
    assert_eq!(users.len(), 2);
    assert_eq!(users[0].uid, 1);
    assert_eq!(users[1].uid, 2);
    assert_eq!(users[0], user(1, "Alice"));
    assert_eq!(users[1], user(2, "Bob"));
}

#[test]
fn list_users_of_bare_ack_is_empty() {
    assert_eq!(list_users(&[(ACK_OK, vec![])]), Ok(vec![]));
}

#[test]
fn list_users_fails_on_error_ack_without_partial_data() {
    let replies = vec![
        (DATA, user_payload(b"Alice")),
        (DATA, user_payload(b"Bob")),
        (ACK_ERROR, vec![]),
    ];
    assert_eq!(list_users(&replies), Err(ProtocolError::DeviceError));
    assert_eq!(list_users(&[(ACK_ERROR, vec![])]), Err(ProtocolError::DeviceError));
}

#[test]
fn list_users_ignores_other_commands() {
    let replies = vec![
        (1500, vec![1, 2, 3, 4]),
        (DATA, user_payload(b"Alice")),
        (1501, user_payload(b"Ghost")),
        (5003, vec![]),
        (4242, vec![0; 80]),
        (DATA, user_payload(b"Bob")),
        (ACK_OK, vec![]),
    ];
    assert_eq!(list_users(&replies), Ok(vec![user(1, "Alice"), user(2, "Bob")]));
}

#[test]
fn list_users_skips_short_data_frames_without_using_a_rank() {
    let replies = vec![
        (DATA, vec![0u8; 71]),
        (DATA, user_payload(b"Alice")),
        (DATA, vec![]),
        (DATA, user_payload(b"")),
        (ACK_OK, vec![]),
    ];
    assert_eq!(list_users(&replies), Ok(vec![user(1, "Alice"), user(2, "")]));
}

#[test]
fn list_users_stops_at_first_ack() {
    let replies = vec![
        (DATA, user_payload(b"Alice")),
        (ACK_OK, vec![]),
        (DATA, user_payload(b"Bob")),
        (ACK_ERROR, vec![]),
    ];
    assert_eq!(list_users(&replies), Ok(vec![user(1, "Alice")]));
    let replies = vec![(ACK_ERROR, vec![]), (DATA, user_payload(b"Bob")), (ACK_OK, vec![])];
    assert_eq!(list_users(&replies), Err(ProtocolError::DeviceError));
}

#[test]
fn list_users_without_ack_is_io_error() {
    assert_eq!(list_users(&[]), Err(ProtocolError::IoError));
    let replies = vec![(DATA, user_payload(b"Alice")), (DATA, user_payload(b"Bob"))];
    assert_eq!(list_users(&replies), Err(ProtocolError::IoError));
}

#[test]
fn classify_tells_the_kinds_of_frames() {
    assert_eq!(classify(ACK_OK), Ok(Flow::Finished));
    assert_eq!(classify(ACK_ERROR), Err(ProtocolError::DeviceError));
    assert_eq!(classify(DATA), Ok(Flow::Continue));
    assert_eq!(classify(1501), Ok(Flow::Continue));
    assert_eq!(classify(5005), Ok(Flow::Continue));
    assert_eq!(classify(0), Ok(Flow::Continue));
}

#[test]
fn user_listing_takes_frames_one_by_one() {
    let mut listing = UserListing::new();
    assert_eq!(listing.len(), 0);
    assert_eq!(listing.accept(DATA, &user_payload(b"Alice")), Ok(Flow::Continue));
    assert_eq!(listing.len(), 1);
    assert_eq!(listing.accept(1500, &[0u8; 100]), Ok(Flow::Continue));
    assert_eq!(listing.len(), 1);
    assert_eq!(listing.accept(DATA, &[0u8; 10]), Ok(Flow::Continue));
    assert_eq!(listing.len(), 1);
    assert_eq!(listing.accept(DATA, &user_payload(b"Bob")), Ok(Flow::Continue));
    assert_eq!(listing.accept(ACK_OK, &[]), Ok(Flow::Finished));
    assert_eq!(listing.into_users(), vec![user(1, "Alice"), user(2, "Bob")]);
}

#[test]
fn user_listing_reports_device_error() {
    let mut listing = UserListing::new();
    assert_eq!(listing.accept(DATA, &user_payload(b"Alice")), Ok(Flow::Continue));
    assert_eq!(listing.accept(ACK_ERROR, &[]), Err(ProtocolError::DeviceError));
}

#[test]
fn requests_are_framed_under_the_session() {
    let s = ProtocolSession::new();
    assert_eq!(UserListing::request(&s), encode(0, 8, 0, &[]));
    assert_eq!(AttendanceListing::request(&s), encode(0, 13, 0, &[]));
}

#[test]
fn directory_resolves_names_and_falls_back() {
    let users = vec![user(1, "Alice"), user(2, "Bob")];
    let d = UserDirectory::from_users(&users);
    assert_eq!(d.resolve(1), "Alice");
    assert_eq!(d.resolve(2), "Bob");
    assert_eq!(d.resolve(3), "Unknown (ID: 3)");
    assert_eq!(d.resolve(0), "Unknown (ID: 0)");
    let d = UserDirectory::from_users(&[]);
    assert_eq!(d.resolve(1), "Unknown (ID: 1)");
}

#[test]
fn directory_takes_the_last_of_equal_ids() {
    let users = vec![user(1, "Alice"), user(2, "Bob"), user(1, "Alicia")];
    let d = UserDirectory::from_users(&users);
    assert_eq!(d.resolve(1), "Alicia");
    assert_eq!(d.resolve(2), "Bob");
}

#[test]
fn attendance_records_come_in_arrival_order_with_names() {
    let users = vec![user(1, "Alice"), user(2, "Bob")];
    let replies = vec![
        (DATA, punch_payload(2, 1700000000, 0, 1)),
        (5003, vec![0u8; 16]),
        (DATA, punch_payload(1, 1600000000, 5, 0)),
        (DATA, vec![0u8; 15]),
        (DATA, punch_payload(77, 0, 9, 2)),
        (ACK_OK, vec![]),
        (DATA, punch_payload(1, 1, 1, 1)),
    ];
    let records = get_attendance(&replies, &users).unwrap();
    assert_eq!(records.len(), 3);
    assert_eq!(records[0].user_id, 2);
    assert_eq!(records[0].user_name, "Bob");
    assert_eq!(records[0].status, 0);
    assert_eq!(records[0].punch, 1);
    assert_eq!(records[0].event, "Check In");
    assert_eq!(records[1].user_id, 1);
    assert_eq!(records[1].user_name, "Alice");
    assert_eq!(records[1].status, 5);
    assert_eq!(records[1].punch, 0);
    assert_eq!(records[1].event, "OT Out");
    assert_eq!(records[2].user_id, 77);
    assert_eq!(records[2].user_name, "Unknown (ID: 77)");
    assert_eq!(records[2].status, 9);
    assert_eq!(records[2].punch, 2);
    assert_eq!(records[2].event, "Unknown");
}

#[test]
fn attendance_times_are_local_civil_time() {
    for secs in [0u32, 1, 86399, 1600000000, 1700000000, 2147483647, u32::MAX] {
        let replies = vec![(DATA, punch_payload(1, secs, 0, 0)), (ACK_OK, vec![])];
        let records = get_attendance(&replies, &[]).unwrap();
        let expected = Utc.timestamp_opt(secs as i64, 0).single().unwrap().with_timezone(&Local);
        assert_eq!(records[0].timestamp, expected.to_rfc3339());
        assert_eq!(records[0].date, expected.format("%Y-%m-%d").to_string());
        assert_eq!(records[0].time, expected.format("%H:%M:%S").to_string());
        assert_eq!(records[0].date.len(), 10);
        assert_eq!(records[0].time.len(), 8);
        assert!(records[0].timestamp.starts_with(&format!("{}T{}", records[0].date, records[0].time)));
    }
}

#[test]
fn get_attendance_fails_on_error_ack_without_partial_data() {
    let replies = vec![(DATA, punch_payload(1, 5, 0, 0)), (ACK_ERROR, vec![])];
    assert_eq!(get_attendance(&replies, &[]), Err(ProtocolError::DeviceError));
}

#[test]
fn get_attendance_without_ack_is_io_error() {
    assert_eq!(get_attendance(&[], &[]), Err(ProtocolError::IoError));
    let replies = vec![(DATA, punch_payload(1, 5, 0, 0))];
    assert_eq!(get_attendance(&replies, &[]), Err(ProtocolError::IoError));
}

#[test]
fn get_attendance_of_bare_ack_is_empty() {
    assert_eq!(get_attendance(&[(ACK_OK, vec![])], &[user(1, "Alice")]), Ok(vec![]));
}

#[test]
fn attendance_listing_takes_frames_one_by_one() {
    let users = vec![user(3, "Carol")];
    let mut listing = AttendanceListing::new(&users);
    assert_eq!(listing.len(), 0);
    assert_eq!(listing.accept(DATA, &punch_payload(3, 1000, 1, 0)), Ok(Flow::Continue));
    assert_eq!(listing.accept(DATA, &[1, 2, 3]), Ok(Flow::Continue));
    assert_eq!(listing.accept(8, &punch_payload(3, 1000, 1, 0)), Ok(Flow::Continue));
    assert_eq!(listing.len(), 1);
    assert_eq!(listing.accept(ACK_OK, &[]), Ok(Flow::Finished));
    let records = listing.into_records();
    assert_eq!(records.len(), 1);
    assert_eq!(records[0].user_name, "Carol");
    assert_eq!(records[0].event, "Check Out");
}

#[test]
fn users_listed_feed_the_attendance_log() {
    let listed = list_users(&[
        (DATA, user_payload(b"Alice")),
        (DATA, user_payload(b"Bob")),
        (ACK_OK, vec![]),
    ])
    .unwrap();
    let records = get_attendance(
        &[(DATA, punch_payload(2, 10, 3, 0)), (DATA, punch_payload(3, 10, 3, 0)), (ACK_OK, vec![])],
        &listed,
    )
    .unwrap();
    assert_eq!(records[0].user_name, "Bob");
    assert_eq!(records[0].event, "Break In");
    assert_eq!(records[1].user_name, "Unknown (ID: 3)");
}
