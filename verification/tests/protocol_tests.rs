use reality::doc::Doc;
use reality::protocol::ConnAction;
use reality::protocol::ConnEvent;
use reality::protocol::ConnState;
use reality::protocol::InboundAction;
use reality::protocol::InboundFrame;
use reality::protocol::MergeOutcome;
use reality::protocol::RemoteAction;
use reality::protocol::apply_client_change;
use reality::protocol::apply_remote_update;
use reality::protocol::classify_remote;
use reality::protocol::conn_step;
use reality::protocol::push_local_snapshot;
use reality::protocol::route_frame;
use reality::protocol::ws_url;

#[test]
fn client_change_is_merged_and_broadcast() {
    let mut server = Doc::new();
    server.splice_text(0, 0, "ab");
    let snapshot = server.save();

    let mut client = Doc::load_from_bytes(&snapshot).unwrap();
    let change = push_local_snapshot(&mut client, "aXb").unwrap();

    match apply_client_change(&mut server, "client-1".to_string(), &change) {
        MergeOutcome::Broadcast(msg) => {
            assert_eq!(msg.sender_id, "client-1");
            assert_eq!(msg.text, "aXb");
            let replica = Doc::load_from_bytes(&msg.full_doc).unwrap();
            assert_eq!(replica.get_text(), "aXb");
        }
        MergeOutcome::Rejected => panic!("a well-formed change must merge"),
    }
    assert_eq!(server.get_text(), "aXb");
}

#[test]
fn malformed_change_is_rejected_without_broadcast() {
    let mut server = Doc::new();
    server.splice_text(0, 0, "keep");
    match apply_client_change(&mut server, "client-1".to_string(), b"junk") {
        MergeOutcome::Rejected => {}
        MergeOutcome::Broadcast(_) => panic!("malformed bytes must not broadcast"),
    }
    assert_eq!(server.get_text(), "keep");
}

#[test]
fn repeated_change_is_still_accepted_and_idempotent() {
    let mut server = Doc::new();
    server.splice_text(0, 0, "ab");
    let snapshot = server.save();

    let mut client = Doc::load_from_bytes(&snapshot).unwrap();
    let change = push_local_snapshot(&mut client, "aXb").unwrap();

    for _ in 0..2 {
        match apply_client_change(&mut server, "client-1".to_string(), &change) {
            MergeOutcome::Broadcast(msg) => assert_eq!(msg.text, "aXb"),
            MergeOutcome::Rejected => panic!("a change the server already holds is accepted"),
        }
    }
    assert_eq!(server.get_text(), "aXb");
}

#[test]
fn remote_update_merges_the_snapshot() {
    let mut base = Doc::new();
    base.splice_text(0, 0, "ab");
    let snapshot = base.save();

    let mut local = Doc::load_from_bytes(&snapshot).unwrap();
    let mut remote = Doc::load_from_bytes(&snapshot).unwrap();
    remote.splice_text(1, 0, "X");
    let remote_full = remote.save();

    let shown = apply_remote_update(&mut local, &remote_full, "carried".to_string());
    assert_eq!(shown, "aXb");
    assert_eq!(local.get_text(), "aXb");
}

#[test]
fn remote_update_falls_back_to_the_carried_text() {
    let mut local = Doc::new();
    local.splice_text(0, 0, "keep");
    let shown = apply_remote_update(&mut local, b"junk", "carried".to_string());
    assert_eq!(shown, "carried");
    assert_eq!(local.get_text(), "keep");
}

#[test]
fn frames_are_routed_like_the_socket_loop() {
    assert!(matches!(
        route_frame(InboundFrame::TextFrame(vec![1, 2])),
        InboundAction::Process(p) if p == vec![1, 2]
    ));
    assert!(matches!(
        route_frame(InboundFrame::BinaryFrame(vec![3])),
        InboundAction::Process(p) if p == vec![3]
    ));
    assert!(matches!(route_frame(InboundFrame::CloseFrame), InboundAction::Stop));
    assert!(matches!(route_frame(InboundFrame::OtherFrame), InboundAction::Ignore));
}

#[test]
fn connection_walks_its_states() {
    let (s, a) = conn_step(ConnState::Connecting, ConnEvent::Upgraded);
    assert!(matches!(s, ConnState::Handshake));
    assert!(matches!(a, ConnAction::SendSnapshot));

    let (s, a) = conn_step(s, ConnEvent::SnapshotSent);
    assert!(matches!(s, ConnState::Streaming));
    assert!(matches!(a, ConnAction::StartStreaming));

    let (s, a) = conn_step(s, ConnEvent::PeerClosed);
    assert!(matches!(s, ConnState::Closed));
    assert!(matches!(a, ConnAction::CancelSibling));

    let (s, a) = conn_step(s, ConnEvent::SiblingEnded);
    assert!(matches!(s, ConnState::Closed));
    assert!(matches!(a, ConnAction::Idle));
}

#[test]
fn either_duty_ending_closes_the_connection() {
    let (s, a) = conn_step(ConnState::Streaming, ConnEvent::TransportFailed);
    assert!(matches!(s, ConnState::Closed));
    assert!(matches!(a, ConnAction::CancelSibling));

    let (s, a) = conn_step(ConnState::Streaming, ConnEvent::SiblingEnded);
    assert!(matches!(s, ConnState::Closed));
    assert!(matches!(a, ConnAction::CancelSibling));
}

#[test]
fn broadcasts_are_classified_by_sender() {
    assert!(matches!(classify_remote("server", "me"), RemoteAction::AdoptSnapshot));
    assert!(matches!(classify_remote("me", "me"), RemoteAction::IgnoreOwn));
    assert!(matches!(classify_remote("peer", "me"), RemoteAction::MergeRemote));
}

#[test]
fn ws_url_matches_page_scheme() {
    assert_eq!(ws_url("https:", "example.com", "doc1"), "wss://example.com/ws/doc1");
    assert_eq!(ws_url("http:", "localhost:3001", "d"), "ws://localhost:3001/ws/d");
}
