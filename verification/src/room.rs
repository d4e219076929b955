//! A room: the live session of one document. It owns the shared replicated
//! document (behind an exclusive-access lock, since every connection of the
//! room reads and edits it) and the broadcast channel that fans merged
//! updates out to every subscriber.

use std::sync::Arc;
use vstd::prelude::*;
use vstd::string::StrSliceExecFns;

use crate::doc::Doc;
use crate::doc::bytes_has_text;
use crate::doc::bytes_ops;
use crate::doc::bytes_root;
use crate::doc::bytes_wf;
use crate::doc::doc_bound;
use crate::doc::doc_ops;
use crate::doc::doc_root;
use crate::doc::doc_text;
use crate::text::splice_seq;

verus! {

/// How many published messages a slow subscriber may fall behind before the
/// channel reports it as lagged.
pub const ROOM_CHANNEL_CAPACITY: usize = 64;

#[verifier::external_type_specification]
#[verifier::external_body]
#[verifier::reject_recursive_types(T)]
pub struct ExTokioMutex<T: ?Sized>(tokio::sync::Mutex<T>);

#[verifier::external_type_specification]
#[verifier::external_body]
#[verifier::reject_recursive_types(T)]
pub struct ExBroadcastSender<T>(tokio::sync::broadcast::Sender<T>);

#[verifier::external_type_specification]
#[verifier::external_body]
#[verifier::reject_recursive_types(T)]
pub struct ExBroadcastReceiver<T>(tokio::sync::broadcast::Receiver<T>);

/// The document a fresh lock guards: what the lock was created around.
pub uninterp spec fn lock_doc(m: tokio::sync::Mutex<Doc>) -> Doc;

/// The capacity a broadcast channel was created with; fixed for the life of
/// the channel.
pub uninterp spec fn chan_cap(tx: tokio::sync::broadcast::Sender<String>) -> int;

/// One attempt to take a message off a subscription without waiting.
pub enum RecvOutcome {
    /// The next message, in publish order.
    Message(String),
    /// Nothing pending right now.
    Empty,
    /// The subscriber fell more than the channel's capacity behind and
    /// missed this many messages; its view must be treated as stale.
    Lagged(u64),
    /// Every sender is gone.
    Closed,
}

/// Relies on tokio::sync::broadcast::channel: a channel that keeps up to
/// `capacity` pending messages per subscriber (it panics on a capacity of
/// zero or above usize::MAX / 2, so those are excluded here).
#[verifier::external_body]
fn channel_new(capacity: usize) -> (r: tokio::sync::broadcast::Sender<String>)
    requires
        1 <= capacity <= usize::MAX / 2,
    ensures
        chan_cap(r) == capacity as int,
{
    let (tx, _) = tokio::sync::broadcast::channel(capacity);
    tx
}

/// Relies on tokio::sync::broadcast::Sender::subscribe: a new receiver that
/// sees every message published after this call.
#[verifier::external_body]
fn channel_subscribe(tx: &tokio::sync::broadcast::Sender<String>) -> tokio::sync::broadcast::Receiver<
    String,
> {
    tx.subscribe()
}

/// Relies on tokio::sync::broadcast::Sender::send: queues the message for
/// every active receiver; reports to how many it was sent, or nothing when
/// no receiver exists (tokio then returns the message as an error).
#[verifier::external_body]
fn channel_send(tx: &tokio::sync::broadcast::Sender<String>, msg: String) -> (r: Option<usize>)
    ensures
        r is Some ==> r->Some_0 >= 1,
{
    tx.send(msg).ok()
}

/// Relies on tokio::sync::broadcast::Receiver::try_recv: the next pending
/// message in publish order, or why there is none; a lagged receiver is told
/// how many messages it missed rather than silently skipping them.
#[verifier::external_body]
fn channel_try_recv(rx: &mut tokio::sync::broadcast::Receiver<String>) -> RecvOutcome {
    match rx.try_recv() {
        Ok(msg) => RecvOutcome::Message(msg),
        Err(tokio::sync::broadcast::error::TryRecvError::Empty) => RecvOutcome::Empty,
        Err(tokio::sync::broadcast::error::TryRecvError::Lagged(n)) => RecvOutcome::Lagged(n),
        Err(tokio::sync::broadcast::error::TryRecvError::Closed) => RecvOutcome::Closed,
    }
}

/// Relies on tokio::sync::Mutex::new: wraps the document in an
/// exclusive-access lock for sharing across connections.
#[verifier::external_body]
fn lock_new(d: Doc) -> (m: tokio::sync::Mutex<Doc>)
    ensures
        lock_doc(m) == d,
{
    tokio::sync::Mutex::new(d)
}

/// Relies on tokio::sync::broadcast::Sender::clone: a sender connected to
/// the same channel, which the abstraction identifies it with.
#[verifier::external_body]
fn sender_clone(tx: &tokio::sync::broadcast::Sender<String>) -> (r: tokio::sync::broadcast::Sender<
    String,
>)
    ensures
        r == *tx,
{
    tx.clone()
}

/// Relies on alloc::sync::Arc::clone: a handle to the same shared lock.
#[verifier::external_body]
fn doc_handle_clone(doc: &Arc<tokio::sync::Mutex<Doc>>) -> (r: Arc<tokio::sync::Mutex<Doc>>)
    ensures
        r == *doc,
{
    doc.clone()
}

/// The live session of one document identifier.
pub struct Room {
    /// The authoritative replicated document, under exclusive access.
    pub doc: Arc<tokio::sync::Mutex<Doc>>,
    /// The fan-out channel every connection of the room subscribes to.
    pub tx: tokio::sync::broadcast::Sender<String>,
}

impl Clone for Room {
    /// Another handle to the same session: the same document, the same
    /// channel.
    fn clone(&self) -> (r: Room)
        ensures
            r == *self,
    {
        Room { doc: doc_handle_clone(&self.doc), tx: sender_clone(&self.tx) }
    }
}

impl Room {
    /// A fresh room holding `initial_text`, with a broadcast channel of the
    /// default capacity and the document's text object freshly bound.
    pub fn new(initial_text: &str) -> (r: Room)
        ensures
            doc_text(lock_doc(*r.doc)) == initial_text@,
            doc_bound(lock_doc(*r.doc)),
            chan_cap(r.tx) == ROOM_CHANNEL_CAPACITY as int,
    {
        let (tx, mut doc) = (channel_new(ROOM_CHANNEL_CAPACITY), Doc::new());
        if initial_text.unicode_len() != 0 {
            doc.splice_text(0, 0, initial_text);
            proof {
                assert(splice_seq(Seq::<char>::empty(), 0, 0, initial_text@) =~= initial_text@);
            }
        } else {
            proof {
                assert(doc_text(doc) =~= initial_text@);
            }
        }
        Room { doc: Arc::new(lock_new(doc)), tx }
    }

    /// A room rehydrated from a full serialized snapshot, holding exactly
    /// the document the snapshot encodes; nothing when the snapshot is
    /// rejected or carries no text.
    pub fn from_bytes(bytes: &[u8]) -> (r: Option<Room>)
        ensures
            r is Some <==> (bytes_wf(bytes@) && bytes_has_text(bytes@)),
            r matches Some(room) ==> (doc_ops(lock_doc(*room.doc)) == bytes_ops(bytes@) && doc_root(
                lock_doc(*room.doc),
            ) == bytes_root(bytes@) && doc_bound(lock_doc(*room.doc)) && chan_cap(room.tx)
                == ROOM_CHANNEL_CAPACITY as int),
    {
        let tx = channel_new(ROOM_CHANNEL_CAPACITY);
        match Doc::load_from_bytes(bytes) {
            Some(doc) => Some(Room { doc: Arc::new(lock_new(doc)), tx }),
            None => None,
        }
    }

    /// Joins the room's broadcast: the receiver sees, in publish order,
    /// every message published from now on.
    pub fn subscribe(&self) -> tokio::sync::broadcast::Receiver<String> {
        channel_subscribe(&self.tx)
    }

    /// Publishes a message to every current subscriber; reports to how many
    /// it went, or nothing when the room has no subscriber.
    pub fn publish(&self, msg: String) -> (r: Option<usize>)
        ensures
            r is Some ==> r->Some_0 >= 1,
    {
        channel_send(&self.tx, msg)
    }

    /// Takes the next pending broadcast message off a subscription without
    /// waiting.
    pub fn poll_subscription(rx: &mut tokio::sync::broadcast::Receiver<String>) -> RecvOutcome {
        channel_try_recv(rx)
    }
}

} // verus!
