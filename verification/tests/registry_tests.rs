use reality::doc::Doc;
use reality::registry::AppState;
use reality::registry::ScanEntry;

fn snapshot_of(text: &str) -> Vec<u8> {
    let mut doc = Doc::new();
    if !text.is_empty() {
        doc.splice_text(0, 0, text);
    }
    doc.save()
}

fn room_text(state: &mut AppState, id: &str) -> String {
    let room = state.get_or_create_room(id);
    let doc = room.doc.blocking_lock();
    doc.get_text()
}

#[test]
fn get_or_create_returns_the_same_room() {
    let mut state = AppState::new();
    let first = state.get_or_create_room("d");
    {
        let mut doc = first.doc.blocking_lock();
        doc.splice_text(0, 0, "shared");
    }
    // A second call must see the same underlying document.
    assert_eq!(room_text(&mut state, "d"), "shared");
    // A different identifier gets a fresh empty room.
    assert_eq!(room_text(&mut state, "other"), "");
}

#[test]
fn warm_load_binary_snapshot_wins_over_legacy() {
    // Legacy first, binary later: the binary snapshot replaces it.
    let mut state = AppState::new();
    let entries = vec![
        ScanEntry::Legacy { stem: "a".to_string(), text: "legacy".to_string() },
        ScanEntry::Binary { stem: "a".to_string(), bytes: snapshot_of("binary") },
    ];
    state.warm_load(&entries);
    assert_eq!(room_text(&mut state, "a"), "binary");

    // Binary first, legacy later: the legacy mirror is ignored.
    let mut state = AppState::new();
    let entries = vec![
        ScanEntry::Binary { stem: "b".to_string(), bytes: snapshot_of("binary") },
        ScanEntry::Legacy { stem: "b".to_string(), text: "legacy".to_string() },
    ];
    state.warm_load(&entries);
    assert_eq!(room_text(&mut state, "b"), "binary");
}

#[test]
fn warm_load_uses_legacy_when_no_binary() {
    let mut state = AppState::new();
    let entries = vec![ScanEntry::Legacy { stem: "only".to_string(), text: "text".to_string() }];
    state.warm_load(&entries);
    assert_eq!(room_text(&mut state, "only"), "text");
}

#[test]
fn warm_load_skips_corrupt_snapshot_and_continues() {
    // One bad file must not abort the scan; a legacy mirror of the same
    // identifier still loads, and so do other documents.
    let mut state = AppState::new();
    let entries = vec![
        ScanEntry::Binary { stem: "bad".to_string(), bytes: vec![1, 2, 3] },
        ScanEntry::Legacy { stem: "bad".to_string(), text: "fallback".to_string() },
        ScanEntry::Binary { stem: "good".to_string(), bytes: snapshot_of("fine") },
    ];
    state.warm_load(&entries);
    assert_eq!(room_text(&mut state, "bad"), "fallback");
    assert_eq!(room_text(&mut state, "good"), "fine");
}
