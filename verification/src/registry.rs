//! The session registry: maps document identifiers to rooms. Populated once
//! at startup from whatever durable storage yielded, then grown lazily as
//! connections name new identifiers. Keys are only ever added, never
//! removed, and every caller naming one identifier shares one room.

use vstd::prelude::*;

use crate::doc::bytes_has_text;
use crate::doc::bytes_ops;
use crate::doc::bytes_root;
use crate::doc::bytes_wf;
use crate::doc::doc_text;
use crate::doc::text_at;
use crate::room::ROOM_CHANNEL_CAPACITY;
use crate::room::Room;
use crate::room::chan_cap;
use crate::room::lock_doc;

verus! {

/// One artifact found in durable storage for a document identifier.
pub enum ScanEntry {
    /// A full binary snapshot: authoritative when present.
    Binary { stem: String, bytes: Vec<u8> },
    /// A legacy plain-text mirror: used only when no binary snapshot loaded
    /// for the same identifier.
    Legacy { stem: String, text: String },
}

/// The registry of rooms, shared by every connection of the process.
#[verifier::external_body]
pub struct AppState {
    rooms: dashmap::DashMap<String, Room>,
}

/// The rooms currently registered, by document identifier.
pub uninterp spec fn state_map(s: AppState) -> Map<Seq<char>, Room>;

/// The text a room's document materializes.
pub open spec fn room_text(r: Room) -> Seq<char> {
    doc_text(lock_doc(*r.doc))
}

/// The registered rooms reduced to their texts.
pub open spec fn texts_of(m: Map<Seq<char>, Room>) -> Map<Seq<char>, Seq<char>> {
    Map::new(|k: Seq<char>| m.dom().contains(k), |k: Seq<char>| room_text(m[k]))
}

/// The registered texts after one storage artifact is applied: a binary
/// snapshot that loads registers its document's text under its identifier,
/// replacing whatever was there; one that does not load is skipped; a
/// legacy mirror registers its text only where the identifier has no room
/// yet. So a binary snapshot wins over a legacy mirror in either scan
/// order.
pub open spec fn scan_step(t: Map<Seq<char>, Seq<char>>, e: ScanEntry) -> Map<
    Seq<char>,
    Seq<char>,
> {
    match e {
        ScanEntry::Binary { stem, bytes } => if bytes_wf(bytes@) && bytes_has_text(bytes@) {
            t.insert(stem@, text_at(bytes_root(bytes@), bytes_ops(bytes@)))
        } else {
            t
        },
        ScanEntry::Legacy { stem, text } => if t.dom().contains(stem@) {
            t
        } else {
            t.insert(stem@, text@)
        },
    }
}

/// The registered texts after a whole storage scan is applied, in scan
/// order.
pub open spec fn scan_texts(t: Map<Seq<char>, Seq<char>>, entries: Seq<ScanEntry>) -> Map<
    Seq<char>,
    Seq<char>,
>
    decreases entries.len(),
{
    if entries.len() == 0 {
        t
    } else {
        scan_texts(scan_step(t, entries[0]), entries.skip(1))
    }
}

impl AppState {
    /// Relies on dashmap::DashMap::new: an empty registry.
    #[verifier::external_body]
    pub fn new() -> (s: AppState)
        ensures
            state_map(s).dom() == Set::<Seq<char>>::empty(),
    {
        AppState { rooms: dashmap::DashMap::new() }
    }

    /// Relies on dashmap::DashMap::contains_key.
    #[verifier::external_body]
    fn contains(&self, doc_id: &str) -> (b: bool)
        ensures
            b == state_map(*self).dom().contains(doc_id@),
    {
        self.rooms.contains_key(doc_id)
    }

    /// Relies on dashmap::DashMap::insert: registers the room under the
    /// identifier, replacing a previously registered one.
    #[verifier::external_body]
    fn insert_room(&mut self, doc_id: &str, room: Room)
        ensures
            state_map(*final(self)) == state_map(*old(self)).insert(doc_id@, room),
    {
        self.rooms.insert(doc_id.to_string(), room);
    }

    /// Relies on dashmap's Entry::or_insert: atomically returns the room
    /// already registered under the identifier, or registers `fresh` and
    /// returns it; when calls race on one identifier, exactly one room wins
    /// and every caller gets a handle to that one.
    #[verifier::external_body]
    fn room_entry(&mut self, doc_id: &str, fresh: Room) -> (r: Room)
        ensures
            state_map(*final(self)) == (if state_map(*old(self)).dom().contains(doc_id@) {
                state_map(*old(self))
            } else {
                state_map(*old(self)).insert(doc_id@, fresh)
            }),
            r == state_map(*final(self))[doc_id@],
    {
        self.rooms.entry(doc_id.to_string()).or_insert(fresh).clone()
    }

    /// The room registered under `doc_id`, creating and registering an
    /// empty one on the first reference; every caller shares the one
    /// registered room.
    pub fn get_or_create_room(&mut self, doc_id: &str) -> (r: Room)
        ensures
            state_map(*final(self)).dom() == state_map(*old(self)).dom().insert(doc_id@),
            state_map(*old(self)).dom().contains(doc_id@) ==> state_map(*final(self)) == state_map(
                *old(self),
            ),
            r == state_map(*final(self))[doc_id@],
            !state_map(*old(self)).dom().contains(doc_id@) ==> (room_text(r)
                == Seq::<char>::empty() && chan_cap(r.tx) == ROOM_CHANNEL_CAPACITY as int),
    {
        let fresh = Room::new("");
        proof {
            reveal_strlit("");
        }
        let r = self.room_entry(doc_id, fresh);
        proof {
            if state_map(*old(self)).dom().contains(doc_id@) {
                assert(state_map(*self).dom().insert(doc_id@) =~= state_map(*old(self)).dom());
                assert(state_map(*self).dom() =~= state_map(*old(self)).dom().insert(doc_id@));
            }
        }
        r
    }

    /// Rehydrates rooms from a storage scan, entry by entry in scan order:
    /// every binary snapshot that loads registers a room holding its
    /// document (replacing any room a legacy mirror of the same identifier
    /// created earlier in the scan); a snapshot that fails to load is
    /// skipped without aborting the scan; a legacy mirror registers a room
    /// holding its text only if its identifier has no room yet, so a binary
    /// snapshot seen first wins.
    pub fn warm_load(&mut self, entries: &Vec<ScanEntry>)
        ensures
            texts_of(state_map(*final(self))) == scan_texts(
                texts_of(state_map(*old(self))),
                entries@,
            ),
    {
        let ghost t0 = texts_of(state_map(*self));
        proof {
            assert(entries@.skip(0) =~= entries@);
        }
        let mut i: usize = 0;
        while i < entries.len()
            invariant
                i <= entries.len(),
                scan_texts(texts_of(state_map(*self)), entries@.skip(i as int)) == scan_texts(
                    t0,
                    entries@,
                ),
            decreases entries.len() - i,
        {
            let ghost pre = texts_of(state_map(*self));
            let ghost rest = entries@.skip(i as int);
            match &entries[i] {
                ScanEntry::Binary { stem, bytes } => {
                    match Room::from_bytes(bytes.as_slice()) {
                        Some(room) => {
                            proof {
                                assert(room_text(room) == text_at(
                                    bytes_root(bytes@),
                                    bytes_ops(bytes@),
                                ));
                            }
                            self.insert_room(stem.as_str(), room);
                            proof {
                                assert(texts_of(state_map(*self)) =~= pre.insert(
                                    stem@,
                                    text_at(bytes_root(bytes@), bytes_ops(bytes@)),
                                ));
                            }
                        },
                        None => {},
                    }
                },
                ScanEntry::Legacy { stem, text } => {
                    if !self.contains(stem.as_str()) {
                        let room = Room::new(text.as_str());
                        self.insert_room(stem.as_str(), room);
                        proof {
                            assert(texts_of(state_map(*self)) =~= pre.insert(stem@, text@));
                        }
                    }
                },
            }
            proof {
                assert(rest[0] == entries@[i as int]);
                assert(rest.skip(1) =~= entries@.skip(i as int + 1));
                assert(texts_of(state_map(*self)) == scan_step(pre, entries@[i as int]));
            }
            i = i + 1;
        }
        proof {
            assert(entries@.skip(entries@.len() as int) =~= Seq::<ScanEntry>::empty());
        }
    }
}

} // verus!
