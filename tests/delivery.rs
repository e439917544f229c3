use safe_chat::engine::{
    authorize_status, new_message_row, parse_status_command, send_deliveries, status_deliveries, SendError,
    StatusError,
};
use safe_chat::events::{SendMessageData, UpdateStatusData, WSEvent};
use safe_chat::server::ChatServer;
use safe_chat::status::MessageStatus;
use safe_chat::store::response_of;

const A: &str = "11111111-1111-1111-1111-111111111111";
const B: &str = "22222222-2222-2222-2222-222222222222";
const C: &str = "44444444-4444-4444-4444-444444444444";
const M: &str = "33333333-3333-3333-3333-333333333333";
const A_ID: u128 = 0x11111111_1111_1111_1111_111111111111;
const B_ID: u128 = 0x22222222_2222_2222_2222_222222222222;
const C_ID: u128 = 0x44444444_4444_4444_4444_444444444444;
const M_ID: u128 = 0x33333333_3333_3333_3333_333333333333;
const NOW: i64 = 1_700_000_000_000;

fn send_data(receiver: &str, id: &str, content: &str, iv: &str) -> SendMessageData {
    SendMessageData {
        message_id: id.to_string(),
        receiver_id: receiver.to_string(),
        kind: "text".to_string(),
        encrypted_content: content.to_string(),
        iv: iv.to_string(),
    }
}

fn status_data(id: &str, status: &str) -> UpdateStatusData {
    UpdateStatusData { message_id: id.to_string(), status: status.to_string() }
}

/// Takes every pending event of a session.
fn drain(server: &mut ChatServer, user: u128, session: u64) -> Vec<WSEvent> {
    let mut out = Vec::new();
    while let Some(e) = server.registry.take(user, session) {
        out.push(e);
    }
    out
}

fn connected_pair() -> ChatServer {
    let mut server = ChatServer::new();
    server.connect(A_ID, 1);
    server.connect(B_ID, 2);
    drain(&mut server, A_ID, 1);
    drain(&mut server, B_ID, 2);
    server
}

fn status_of(e: &WSEvent) -> (String, String, String) {
    match e {
        WSEvent::StatusUpdate(u) => (u.message_id.clone(), u.status.clone(), u.updated_by.clone()),
        other => panic!("expected a status update, got {:?}", other),
    }
}

#[test]
fn send_stores_row_and_notifies_receiver_then_sender() {
    let mut server = connected_pair();
    assert_eq!(server.send(A_ID, &send_data(B, M, "aGVsbG8=", "AAAAAAAAAAAAAAAA"), NOW), Ok(()));
    let rows = server.store.fetch_between(A_ID, B_ID);
    assert_eq!(rows.len(), 1);
    assert_eq!(rows[0].status, "SENT");
    assert_eq!(rows[0].id, M);
    let to_b = drain(&mut server, B_ID, 2);
    assert_eq!(to_b.len(), 1);
    match &to_b[0] {
        WSEvent::NewMessage(n) => {
            assert_eq!(n.id, M);
            assert_eq!(n.sender_id, A);
            assert_eq!(n.receiver_id, B);
            assert_eq!(n.timestamp, "1700000000000");
            assert_eq!(n.status, "SENT");
            assert_eq!(n.kind, "text");
            assert_eq!(n.encrypted_content, "aGVsbG8=");
        }
        other => panic!("expected a new message, got {:?}", other),
    }
    let to_a = drain(&mut server, A_ID, 1);
    assert_eq!(to_a.len(), 1);
    assert_eq!(status_of(&to_a[0]), (M.to_string(), "SENT".to_string(), "server".to_string()));
}

#[test]
fn send_to_offline_receiver_still_stores() {
    let mut server = ChatServer::new();
    server.connect(A_ID, 1);
    drain(&mut server, A_ID, 1);
    assert_eq!(server.send(A_ID, &send_data(B, M, "aGVsbG8=", "AAAAAAAAAAAAAAAA"), NOW), Ok(()));
    assert_eq!(server.store.fetch_between(B_ID, A_ID).len(), 1);
    assert_eq!(drain(&mut server, A_ID, 1).len(), 1);
}

#[test]
fn send_validation_errors() {
    let mut server = connected_pair();
    assert_eq!(server.send(A_ID, &send_data("bob", M, "aGVsbG8=", "AAAA"), NOW), Err(SendError::InvalidReceiverId));
    assert_eq!(server.send(A_ID, &send_data(B, "m-1", "aGVsbG8=", "AAAA"), NOW), Err(SendError::InvalidMessageId));
    assert_eq!(server.send(A_ID, &send_data(B, M, "aGVsbG8", "AAAA"), NOW), Err(SendError::InvalidContent));
    assert_eq!(server.send(A_ID, &send_data(B, M, "aGVsbG8=", "A!AA"), NOW), Err(SendError::InvalidIv));
    assert_eq!(server.store.fetch_between(A_ID, B_ID).len(), 0);
    assert!(drain(&mut server, A_ID, 1).is_empty());
    assert!(drain(&mut server, B_ID, 2).is_empty());
}

#[test]
fn duplicate_message_id_is_refused() {
    let mut server = connected_pair();
    assert_eq!(server.send(A_ID, &send_data(B, M, "aGVsbG8=", "AAAA"), NOW), Ok(()));
    drain(&mut server, A_ID, 1);
    drain(&mut server, B_ID, 2);
    assert_eq!(server.send(A_ID, &send_data(B, M, "AQID", "AAAA"), NOW), Err(SendError::StoreRejected));
    assert_eq!(server.store.fetch_between(A_ID, B_ID).len(), 1);
    assert!(drain(&mut server, B_ID, 2).is_empty());
}

#[test]
fn only_receiver_may_mark_read() {
    let mut server = connected_pair();
    server.send(A_ID, &send_data(B, M, "aGVsbG8=", "AAAA"), NOW).unwrap();
    drain(&mut server, A_ID, 1);
    drain(&mut server, B_ID, 2);
    assert_eq!(server.update_status(A_ID, &status_data(M, "READ"), NOW), Err(StatusError::NotReceiver));
    assert_eq!(server.update_status(C_ID, &status_data(M, "read"), NOW), Err(StatusError::NotReceiver));
    assert_eq!(server.store.fetch_between(A_ID, B_ID)[0].status, "SENT");
    assert!(drain(&mut server, A_ID, 1).is_empty());
    assert!(server.pending.is_empty());
    // any other status may be set by either party, or even a third user
    assert_eq!(server.update_status(C_ID, &status_data(M, "failed"), NOW), Ok(()));
    assert_eq!(server.store.fetch_between(A_ID, B_ID)[0].status, "FAILED");
}

#[test]
fn status_update_reaches_sender_and_receiver_once() {
    let mut server = connected_pair();
    server.send(A_ID, &send_data(B, M, "aGVsbG8=", "AAAA"), NOW).unwrap();
    drain(&mut server, A_ID, 1);
    drain(&mut server, B_ID, 2);
    assert_eq!(server.update_status(B_ID, &status_data(M, " Delivered "), NOW), Ok(()));
    let expected = (M.to_string(), "DELIVERED".to_string(), B.to_string());
    let to_a = drain(&mut server, A_ID, 1);
    let to_b = drain(&mut server, B_ID, 2);
    assert_eq!(to_a.len(), 1);
    assert_eq!(to_b.len(), 1);
    assert_eq!(status_of(&to_a[0]), expected);
    assert_eq!(status_of(&to_b[0]), expected);
    assert!(server.pending.is_empty());
}

#[test]
fn status_update_errors() {
    let mut server = connected_pair();
    assert_eq!(server.update_status(B_ID, &status_data("nope", "READ"), NOW), Err(StatusError::InvalidMessageId));
    assert_eq!(server.update_status(B_ID, &status_data(M, "SEEN"), NOW), Err(StatusError::InvalidStatus));
    assert_eq!(server.update_status(B_ID, &status_data(M, "READ"), NOW), Err(StatusError::NotFound));
}

#[test]
fn read_message_is_deleted_after_grace_period_even_after_disconnect() {
    let mut server = connected_pair();
    server.send(A_ID, &send_data(B, M, "aGVsbG8=", "AAAA"), NOW).unwrap();
    assert_eq!(server.update_status(B_ID, &status_data(M, "READ"), NOW + 10), Ok(()));
    server.disconnect(B_ID);
    server.run_due_deletions(NOW + 10 + 4_999);
    assert_eq!(server.store.fetch_between(A_ID, B_ID).len(), 1);
    assert_eq!(server.pending.len(), 1);
    server.run_due_deletions(NOW + 10 + 5_000);
    assert_eq!(server.store.fetch_between(A_ID, B_ID).len(), 0);
    assert!(server.pending.is_empty());
}

#[test]
fn deletion_ignores_later_status_changes() {
    let mut server = connected_pair();
    server.send(A_ID, &send_data(B, M, "aGVsbG8=", "AAAA"), NOW).unwrap();
    server.update_status(B_ID, &status_data(M, "READ"), NOW).unwrap();
    server.update_status(A_ID, &status_data(M, "FAILED"), NOW + 1).unwrap();
    server.run_due_deletions(NOW + 6_000);
    assert!(server.store.fetch_between(A_ID, B_ID).is_empty());
}

#[test]
fn payload_and_iv_round_trip_through_store() {
    let mut server = connected_pair();
    let payload = "3q2+7w==";
    let iv = "AAECAwQFBgcICQoL";
    server.send(A_ID, &send_data(B, M, payload, iv), NOW).unwrap();
    let rows = server.store.fetch_between(B_ID, A_ID);
    assert_eq!(rows.len(), 1);
    assert_eq!(rows[0].encrypted_content, payload);
    assert_eq!(rows[0].iv, iv);
}

#[test]
fn conversation_fetch_keeps_order_and_excludes_others() {
    let mut server = ChatServer::new();
    let m2 = "55555555-5555-5555-5555-555555555555";
    let m3 = "66666666-6666-6666-6666-666666666666";
    server.send(A_ID, &send_data(B, M, "AQID", "AAAA"), NOW).unwrap();
    server.send(A_ID, &send_data(C, m2, "AQID", "AAAA"), NOW + 1).unwrap();
    server.send(B_ID, &send_data(A, m3, "AQID", "AAAA"), NOW + 2).unwrap();
    let rows = server.store.fetch_between(A_ID, B_ID);
    assert_eq!(rows.len(), 2);
    assert_eq!(rows[0].id, M);
    assert_eq!(rows[1].id, m3);
    assert_eq!(rows[1].sender_id, B);
    assert_eq!(rows[1].timestamp, "1700000000002");
}

#[test]
fn end_to_end_scenario() {
    let mut server = connected_pair();
    server.send(A_ID, &send_data(B, M, "aGVsbG8=", "AAAAAAAAAAAAAAAA"), NOW).unwrap();
    let to_b = drain(&mut server, B_ID, 2);
    assert!(matches!(&to_b[0], WSEvent::NewMessage(n) if n.id == M));
    drain(&mut server, A_ID, 1);

    server.update_status(B_ID, &status_data(M, "DELIVERED"), NOW + 100).unwrap();
    let delivered = (M.to_string(), "DELIVERED".to_string(), B.to_string());
    assert_eq!(status_of(&drain(&mut server, A_ID, 1)[0]), delivered);
    assert_eq!(status_of(&drain(&mut server, B_ID, 2)[0]), delivered);

    server.update_status(B_ID, &status_data(M, "READ"), NOW + 200).unwrap();
    let read = (M.to_string(), "READ".to_string(), B.to_string());
    assert_eq!(status_of(&drain(&mut server, A_ID, 1)[0]), read);
    assert_eq!(status_of(&drain(&mut server, B_ID, 2)[0]), read);

    server.run_due_deletions(NOW + 200 + 5_000);
    assert!(server.store.fetch_between(A_ID, B_ID).is_empty());
}

#[test]
fn presence_is_announced_on_connect_and_disconnect() {
    let mut server = ChatServer::new();
    server.connect(A_ID, 1);
    match &drain(&mut server, A_ID, 1)[..] {
        [WSEvent::UserOnline(u)] => assert_eq!(u, A),
        other => panic!("unexpected {:?}", other),
    }
    server.connect(B_ID, 2);
    server.disconnect(B_ID);
    match &drain(&mut server, A_ID, 1)[..] {
        [WSEvent::UserOnline(u), WSEvent::UserOffline(v)] => {
            assert_eq!(u, B);
            assert_eq!(v, B);
        }
        other => panic!("unexpected {:?}", other),
    }
    assert_eq!(server.registry.lookup(B_ID), None);
}

#[test]
fn step_functions_agree_with_server() {
    let row = new_message_row(A_ID, &send_data(B, M, "AQID", "AAAA"), -5).unwrap();
    assert_eq!(row.id, M_ID);
    assert_eq!(row.receiver_id, B_ID);
    assert_eq!(row.encrypted_content, vec![1u8, 2, 3]);
    assert_eq!(row.iv, vec![0u8, 0, 0]);
    assert_eq!(row.status, MessageStatus::Sent);
    assert_eq!(response_of(&row).timestamp, "-5");
    let ds = send_deliveries(&row);
    assert_eq!(ds.len(), 2);
    assert_eq!(ds[0].user, B_ID);
    assert_eq!(ds[1].user, A_ID);
    assert_eq!(parse_status_command(&status_data(M, "read")), Ok((M_ID, MessageStatus::Read)));
    assert_eq!(authorize_status(A_ID, MessageStatus::Read, B_ID), Err(StatusError::NotReceiver));
    assert_eq!(authorize_status(B_ID, MessageStatus::Read, B_ID), Ok(()));
    let sd = status_deliveries(M_ID, MessageStatus::Delivered, B_ID, A_ID, B_ID);
    assert_eq!(ds.len(), sd.len());
    assert_eq!(sd[0].user, A_ID);
    assert_eq!(status_of(&sd[1].event), (M.to_string(), "DELIVERED".to_string(), B.to_string()));
    assert_eq!(sd[1].event.message_type(), "status_update");
}
