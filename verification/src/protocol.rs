//! The synchronization protocol: the wire message shapes, the handshake a
//! new connection receives, the merge-and-broadcast step for a client
//! submission, the per-connection state machine, and the client-side
//! decisions (what to do with a broadcast, how to turn a new snapshot of
//! the edit surface into a change to send).

use vstd::prelude::*;
use vstd::string::StrSliceExecFns;
use vstd::string::StringExecFns;

use crate::diff::diff;
use crate::doc::ChangeSet;
use crate::doc::Doc;
use crate::doc::bytes_ops;
use crate::doc::bytes_wf;
use crate::doc::doc_ops;
use crate::doc::doc_root;
use crate::doc::doc_text;
use crate::doc::merge_accepts;
use crate::doc::merge_applied;
use crate::doc::merge_post;
use crate::text::splice_seq;
use crate::text::str_eq;

verus! {

/// What a client sends the server: who is editing, and the serialized
/// replicated-document state carrying the edit.
pub struct ClientMsg {
    pub client_id: String,
    pub changes: Vec<u8>,
}

/// What the server sends every subscriber: who caused the update (the
/// sentinel `"server"` for the initial handshake), the merged text, and a
/// full snapshot any client can resynchronize from.
pub struct ServerMsg {
    pub sender_id: String,
    pub text: String,
    pub full_doc: Vec<u8>,
}

/// The one message a connection receives on upgrade, before any client
/// edit is broadcast to it: the sentinel sender, the current text, and a
/// full snapshot. Reading and saving change nothing the document holds.
pub fn handshake_msg(doc: &mut Doc) -> (m: ServerMsg)
    ensures
        doc_root(*final(doc)) == doc_root(*old(doc)),
        doc_ops(*final(doc)) == doc_ops(*old(doc)),
        m.sender_id@ == "server"@,
        m.text@ == doc_text(*old(doc)),
        bytes_wf(m.full_doc@),
        bytes_ops(m.full_doc@) == doc_ops(*old(doc)),
{
    let text = doc.get_text();
    let full_doc = doc.save();
    ServerMsg { sender_id: "server".to_owned(), text, full_doc }
}

/// What became of one client submission.
pub enum MergeOutcome {
    /// The change merged: publish this message to every subscriber of the
    /// room and persist its text and snapshot.
    Broadcast(ServerMsg),
    /// The change was malformed or rejected: the document is unchanged and
    /// no broadcast is owed for this message.
    Rejected,
}

/// The inbound step for one client submission: merge the serialized change
/// into the room's document and produce the broadcast message, or reject
/// the submission leaving the document untouched. A broadcast is owed
/// exactly when the bytes are well formed and automerge accepts them.
pub fn apply_client_change(doc: &mut Doc, client_id: String, changes: &[u8]) -> (r: MergeOutcome)
    ensures
        doc_root(*final(doc)) == doc_root(*old(doc)),
        r is Broadcast <==> (bytes_wf(changes@) && merge_accepts(
            doc_ops(*old(doc)),
            bytes_ops(changes@),
        )),
        r is Rejected ==> doc_ops(*final(doc)) == doc_ops(*old(doc)),
        r matches MergeOutcome::Broadcast(m) ==> (merge_applied(*old(doc), changes@, *final(doc))
            && m.sender_id@ == client_id@ && m.text@ == doc_text(*final(doc)) && bytes_wf(
            m.full_doc@,
        ) && bytes_ops(m.full_doc@) == doc_ops(*final(doc))),
{
    match ChangeSet::load(changes) {
        Some(mut other) => {
            if doc.merge_doc(&mut other) {
                let text = doc.get_text();
                let full_doc = doc.save();
                MergeOutcome::Broadcast(ServerMsg { sender_id: client_id, text, full_doc })
            } else {
                MergeOutcome::Rejected
            }
        },
        None => MergeOutcome::Rejected,
    }
}

/// One frame arriving on a connection's socket.
pub enum InboundFrame {
    /// A text frame, as its bytes.
    TextFrame(Vec<u8>),
    /// A binary frame.
    BinaryFrame(Vec<u8>),
    /// The peer closed the connection.
    CloseFrame,
    /// Anything else (ping, pong).
    OtherFrame,
}

/// What the inbound loop does with a frame.
pub enum InboundAction {
    /// Parse and handle this payload.
    Process(Vec<u8>),
    /// Skip the frame and keep listening.
    Ignore,
    /// End the inbound loop.
    Stop,
}

/// Routes one socket frame: text and binary frames carry payloads, a close
/// frame ends the loop, anything else is skipped.
pub fn route_frame(f: InboundFrame) -> (a: InboundAction)
    ensures
        a == match f {
            InboundFrame::TextFrame(p) => InboundAction::Process(p),
            InboundFrame::BinaryFrame(p) => InboundAction::Process(p),
            InboundFrame::CloseFrame => InboundAction::Stop,
            InboundFrame::OtherFrame => InboundAction::Ignore,
        },
{
    match f {
        InboundFrame::TextFrame(p) => InboundAction::Process(p),
        InboundFrame::BinaryFrame(p) => InboundAction::Process(p),
        InboundFrame::CloseFrame => InboundAction::Stop,
        InboundFrame::OtherFrame => InboundAction::Ignore,
    }
}

/// The life of one connection.
pub enum ConnState {
    /// The socket is being upgraded.
    Connecting,
    /// Upgraded; the initial snapshot is owed.
    Handshake,
    /// Snapshot sent; the inbound and outbound duties run.
    Streaming,
    /// Over; nothing more is processed for this connection.
    Closed,
}

/// What happens to one connection.
pub enum ConnEvent {
    /// The upgrade completed.
    Upgraded,
    /// The initial snapshot went out.
    SnapshotSent,
    /// The peer closed the socket or the inbound side failed.
    PeerClosed,
    /// The outbound transport failed.
    TransportFailed,
    /// The sibling duty of this connection ended.
    SiblingEnded,
}

/// What the runtime must do after a step.
pub enum ConnAction {
    /// Send the initial snapshot message.
    SendSnapshot,
    /// Start the inbound and outbound duties.
    StartStreaming,
    /// Cancel the sibling duty immediately.
    CancelSibling,
    /// Nothing.
    Idle,
}

/// The transition table of a connection: upgrade leads to the handshake,
/// the handshake to streaming, and the first ending duty (peer close,
/// transport failure, sibling end) closes the connection and cancels its
/// sibling at once. A closed connection absorbs every further event.
pub open spec fn conn_next(s: ConnState, e: ConnEvent) -> (ConnState, ConnAction) {
    match (s, e) {
        (ConnState::Connecting, ConnEvent::Upgraded) => (
            ConnState::Handshake,
            ConnAction::SendSnapshot,
        ),
        (ConnState::Handshake, ConnEvent::SnapshotSent) => (
            ConnState::Streaming,
            ConnAction::StartStreaming,
        ),
        (ConnState::Closed, _) => (ConnState::Closed, ConnAction::Idle),
        _ => (ConnState::Closed, ConnAction::CancelSibling),
    }
}

/// Advances a connection by one event.
pub fn conn_step(s: ConnState, e: ConnEvent) -> (r: (ConnState, ConnAction))
    ensures
        r == conn_next(s, e),
{
    match (s, e) {
        (ConnState::Connecting, ConnEvent::Upgraded) => (
            ConnState::Handshake,
            ConnAction::SendSnapshot,
        ),
        (ConnState::Handshake, ConnEvent::SnapshotSent) => (
            ConnState::Streaming,
            ConnAction::StartStreaming,
        ),
        (ConnState::Closed, _) => (ConnState::Closed, ConnAction::Idle),
        _ => (ConnState::Closed, ConnAction::CancelSibling),
    }
}

/// What a client does with one broadcast message.
pub enum RemoteAction {
    /// The handshake snapshot: replace the local replica with it.
    AdoptSnapshot,
    /// Someone else's edit: merge it and patch the edit surface.
    MergeRemote,
    /// The echo of this client's own edit: nothing to do.
    IgnoreOwn,
}

/// How a client treats a broadcast, by sender: the server sentinel brings
/// the initial snapshot, its own identifier is an echo, anyone else is a
/// remote edit.
pub open spec fn remote_action_for(sender_id: Seq<char>, client_id: Seq<char>) -> RemoteAction {
    if sender_id == "server"@ {
        RemoteAction::AdoptSnapshot
    } else if sender_id == client_id {
        RemoteAction::IgnoreOwn
    } else {
        RemoteAction::MergeRemote
    }
}

/// Classifies one broadcast message on the client.
pub fn classify_remote(sender_id: &str, client_id: &str) -> (a: RemoteAction)
    ensures
        a == remote_action_for(sender_id@, client_id@),
{
    if str_eq(sender_id, "server") {
        RemoteAction::AdoptSnapshot
    } else if str_eq(sender_id, client_id) {
        RemoteAction::IgnoreOwn
    } else {
        RemoteAction::MergeRemote
    }
}

/// The client's remote-edit step: merge the broadcast full snapshot into
/// the local replica and show the merged text; when automerge rejects the
/// snapshot, the replica is left unchanged and the text carried in the
/// message is shown instead, so the surface still follows the sender.
pub fn apply_remote_update(doc: &mut Doc, full_doc: &[u8], carried_text: String) -> (t: String)
    ensures
        merge_post(*old(doc), full_doc@, *final(doc)),
        bytes_wf(full_doc@) && merge_accepts(doc_ops(*old(doc)), bytes_ops(full_doc@)) ==> t@
            == doc_text(*final(doc)),
        !(bytes_wf(full_doc@) && merge_accepts(doc_ops(*old(doc)), bytes_ops(full_doc@))) ==> (t@
            == carried_text@ && doc_ops(*final(doc)) == doc_ops(*old(doc))),
{
    match doc.merge_from_bytes(full_doc) {
        Some(t) => t,
        None => carried_text,
    }
}

/// The websocket address for a document: the socket scheme matching the
/// page's scheme (secure pages get secure sockets), the same host, and the
/// document identifier on the socket path.
pub fn ws_url(protocol: &str, host: &str, id: &str) -> (u: String)
    ensures
        u@ == (if protocol@ == "https:"@ {
            "wss:"@
        } else {
            "ws:"@
        }) + "//"@ + host@ + "/ws/"@ + id@,
{
    let mut u: String = if str_eq(protocol, "https:") {
        "wss:".to_owned()
    } else {
        "ws:".to_owned()
    };
    u.append("//");
    u.append(host);
    u.append("/ws/");
    u.append(id);
    u
}

/// Turns a new full-text snapshot of the edit surface into the serialized
/// change to submit: diffs against the text the document holds, applies the
/// one edit region locally, and extracts the bytes. A snapshot equal to the
/// document's text is a no-op and nothing is sent.
pub fn prepare_patch(doc: &mut Doc, old_text: &str, new_text: &str) -> (r: Option<Vec<u8>>)
    requires
        doc_text(*old(doc)) == old_text@,
    ensures
        doc_root(*final(doc)) == doc_root(*old(doc)),
        r is None <==> old_text@ == new_text@,
        r is None ==> doc_ops(*final(doc)) == doc_ops(*old(doc)),
        r is Some ==> doc_text(*final(doc)) == new_text@,
        r matches Some(b) ==> (bytes_wf(b@) && bytes_ops(b@) == doc_ops(*final(doc))),
{
    let (prefix, delete, insert) = diff(old_text, new_text);
    if delete == 0 && insert.as_str().unicode_len() == 0 {
        proof {
            assert(splice_seq(old_text@, prefix as int, 0, insert@) =~= old_text@);
        }
        return None;
    }
    doc.splice_text(prefix, delete, insert.as_str());
    let bytes = doc.save();
    proof {
        if old_text@ == new_text@ {
            assert(delete == 0 && insert@.len() == 0);
        }
    }
    Some(bytes)
}

/// The full local-edit step: reads the text the document currently holds,
/// diffs the new snapshot against it, applies the edit, and hands back the
/// serialized change to submit — or nothing when the snapshot changes
/// nothing.
pub fn push_local_snapshot(doc: &mut Doc, new_text: &str) -> (r: Option<Vec<u8>>)
    ensures
        doc_root(*final(doc)) == doc_root(*old(doc)),
        r is None <==> doc_text(*old(doc)) == new_text@,
        r is None ==> doc_ops(*final(doc)) == doc_ops(*old(doc)),
        r is Some ==> doc_text(*final(doc)) == new_text@,
        r matches Some(b) ==> (bytes_wf(b@) && bytes_ops(b@) == doc_ops(*final(doc))),
{
    let old_text = doc.get_text();
    prepare_patch(doc, old_text.as_str(), new_text)
}

} // verus!
