use reality::doc::Doc;
use reality::protocol::handshake_msg;
use reality::room::RecvOutcome;
use reality::room::Room;

#[test]
fn room_persistence_round_trip() {
    // Create a room, splice in "hello", serialize, rebuild, materialize.
    let room = Room::new("");
    let bytes = {
        let mut doc = room.doc.blocking_lock();
        doc.splice_text(0, 0, "hello");
        doc.save()
    };
    let restored = Room::from_bytes(&bytes).expect("snapshot must load");
    let doc = restored.doc.blocking_lock();
    assert_eq!(doc.get_text(), "hello");
}

#[test]
fn room_from_malformed_bytes_fails() {
    assert!(Room::from_bytes(b"junk").is_none());
}

#[test]
fn handshake_carries_existing_content() {
    // A new connection to a document holding "draft" gets one message with
    // the server sentinel, the text, and a loadable full snapshot.
    let room = Room::new("draft");
    let mut doc = room.doc.blocking_lock();
    let msg = handshake_msg(&mut doc);
    assert_eq!(msg.sender_id, "server");
    assert_eq!(msg.text, "draft");
    let replica = Doc::load_from_bytes(&msg.full_doc).expect("handshake snapshot must load");
    assert_eq!(replica.get_text(), "draft");
}

#[test]
fn publish_without_subscribers_reports_nobody() {
    let room = Room::new("");
    assert!(room.publish("m".to_string()).is_none());
}

#[test]
fn subscriber_sees_messages_in_publish_order() {
    let room = Room::new("");
    let mut rx = room.subscribe();
    assert_eq!(room.publish("first".to_string()), Some(1));
    assert_eq!(room.publish("second".to_string()), Some(1));
    assert!(matches!(Room::poll_subscription(&mut rx), RecvOutcome::Message(m) if m == "first"));
    assert!(matches!(Room::poll_subscription(&mut rx), RecvOutcome::Message(m) if m == "second"));
    assert!(matches!(Room::poll_subscription(&mut rx), RecvOutcome::Empty));
}

#[test]
fn poll_after_room_dropped_reports_closed() {
    let room = Room::new("");
    let mut rx = room.subscribe();
    drop(room);
    assert!(matches!(Room::poll_subscription(&mut rx), RecvOutcome::Closed));
}

#[test]
fn lagged_subscriber_is_told_not_silently_skipped() {
    // The channel keeps 64 messages; a subscriber 10 over capacity must see
    // a lagged condition naming the miss count, then resume at the oldest
    // retained message.
    let room = Room::new("");
    let mut rx = room.subscribe();
    for i in 0..74 {
        room.publish(format!("m{}", i)).expect("one subscriber listens");
    }
    assert!(matches!(Room::poll_subscription(&mut rx), RecvOutcome::Lagged(10)));
    assert!(matches!(Room::poll_subscription(&mut rx), RecvOutcome::Message(m) if m == "m10"));
}
