use reality::doc::Doc;
use reality::protocol::push_local_snapshot;

#[test]
fn new_doc_is_empty() {
    let doc = Doc::new();
    assert_eq!(doc.get_text(), "");
}

#[test]
fn splice_inserts_and_deletes() {
    let mut doc = Doc::new();
    assert_eq!(doc.splice_text(0, 0, "hello world"), "hello world");
    assert_eq!(doc.splice_text(5, 6, "!"), "hello!");
}

#[test]
fn persistence_round_trip() {
    let mut doc = Doc::new();
    doc.splice_text(0, 0, "hello");
    let bytes = doc.save();
    let restored = Doc::load_from_bytes(&bytes).expect("snapshot must load");
    assert_eq!(restored.get_text(), "hello");
}

#[test]
fn load_rejects_malformed_bytes() {
    assert!(Doc::load_from_bytes(b"not an automerge doc").is_none());
    assert!(Doc::load_from_bytes(&[]).is_none());
}

#[test]
fn merge_of_malformed_bytes_is_noop() {
    let mut doc = Doc::new();
    doc.splice_text(0, 0, "keep");
    assert_eq!(doc.merge_changes(b"garbage"), "keep");
    assert!(doc.merge_from_bytes(b"garbage").is_none());
    assert_eq!(doc.get_text(), "keep");
}

#[test]
fn merge_is_idempotent() {
    let mut base = Doc::new();
    base.splice_text(0, 0, "ab");
    let snapshot = base.save();

    let mut a = Doc::load_from_bytes(&snapshot).unwrap();
    let mut b = Doc::load_from_bytes(&snapshot).unwrap();
    a.splice_text(1, 0, "X");
    let change = a.save();

    let once = b.merge_changes(&change);
    let twice = b.merge_changes(&change);
    assert_eq!(once, "aXb");
    assert_eq!(twice, once);
}

#[test]
fn concurrent_inserts_converge() {
    // Base text "ab"; replica A inserts "X" at 1, replica B inserts "Y" at 0.
    let mut base = Doc::new();
    base.splice_text(0, 0, "ab");
    let snapshot = base.save();

    let mut a = Doc::load_from_bytes(&snapshot).unwrap();
    let mut b = Doc::load_from_bytes(&snapshot).unwrap();
    assert_eq!(a.splice_text(1, 0, "X"), "aXb");
    assert_eq!(b.splice_text(0, 0, "Y"), "Yab");

    let from_a = a.save();
    let from_b = b.save();
    let text_a = a.merge_changes(&from_b);
    let text_b = b.merge_changes(&from_a);

    assert_eq!(text_a, text_b);
    assert_eq!(text_a, "YaXb");
}

#[test]
fn convergence_under_interleaved_merges() {
    let mut base = Doc::new();
    base.splice_text(0, 0, "base");
    let snapshot = base.save();

    let mut a = Doc::load_from_bytes(&snapshot).unwrap();
    let mut b = Doc::load_from_bytes(&snapshot).unwrap();
    let mut c = Doc::load_from_bytes(&snapshot).unwrap();
    a.splice_text(4, 0, " from a");
    b.splice_text(0, 0, "b says ");
    c.splice_text(0, 4, "c");

    let sa = a.save();
    let sb = b.save();
    let sc = c.save();

    // a sees b then c; b sees c then a; c sees a then b.
    a.merge_changes(&sb);
    let ta = a.merge_changes(&sc);
    b.merge_changes(&sc);
    let tb = b.merge_changes(&sa);
    c.merge_changes(&sa);
    let tc = c.merge_changes(&sb);

    assert_eq!(ta, tb);
    assert_eq!(tb, tc);
}

#[test]
fn save_changes_does_not_resend() {
    let mut doc = Doc::new();
    doc.splice_text(0, 0, "abc");
    let first = doc.save_changes();
    assert!(!first.is_empty());
    let second = doc.save_changes();
    assert!(second.is_empty());
}

#[test]
fn push_local_snapshot_produces_mergeable_change() {
    let mut server = Doc::new();
    server.splice_text(0, 0, "ab");
    let snapshot = server.save();

    let mut client = Doc::load_from_bytes(&snapshot).unwrap();
    let change = push_local_snapshot(&mut client, "aXb").expect("a real edit yields bytes");
    assert_eq!(client.get_text(), "aXb");
    assert_eq!(server.merge_changes(&change), "aXb");
}

#[test]
fn push_local_snapshot_skips_noop() {
    let mut doc = Doc::new();
    doc.splice_text(0, 0, "same");
    assert!(push_local_snapshot(&mut doc, "same").is_none());
    assert_eq!(doc.get_text(), "same");
}
