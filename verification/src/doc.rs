//! The replicated text document.
//!
//! `Doc` wraps an automerge document holding one text object under the root
//! key `"text"`. Verus sees the document through an abstract model: the set
//! of change identifiers the document holds (`doc_ops`), the identity of the
//! text object it reads and edits (`doc_root`), the changes already covered
//! by the incremental-save watermark (`doc_mark`), and the text that
//! automerge materializes for a given binding and change set (`text_at`). A
//! document's text is a function of nothing but binding and change set,
//! which is exactly the convergence guarantee of a state-based CRDT:
//! replicas holding the same changes and bound to the same text object show
//! the same text.
//!
//! Every constructor here rejects serialized input that carries a change
//! with a missing dependency, so no document or change set ever holds
//! queued, unapplied changes: what a value holds is exactly what it has
//! applied, and a merge unions the two change sets or applies nothing.

use automerge::transaction::Transactable;
use automerge::ReadDoc;
use vstd::prelude::*;

use crate::text::splice_seq;

verus! {

/// A replicated text document: an automerge document plus the identity of
/// its text object.
#[verifier::external_body]
pub struct Doc {
    am: automerge::AutoCommit,
    text_obj: automerge::ObjId,
}

/// A well-formed remote state, loaded from bytes and ready to be merged.
#[verifier::external_body]
pub struct ChangeSet {
    am: automerge::AutoCommit,
}

/// The set of changes this document holds (and has applied), as abstract
/// identifiers.
pub uninterp spec fn doc_ops(d: Doc) -> Set<int>;

/// The identity of the text object this document reads and edits. Fixed at
/// construction; merging never rebinds it.
pub uninterp spec fn doc_root(d: Doc) -> int;

/// The changes already covered by the incremental-save watermark: what an
/// extraction of the changes "since the last save" will not send again.
pub uninterp spec fn doc_mark(d: Doc) -> Set<int>;

/// Whether the root key `"text"` still resolves to the text object this
/// document is bound to, so that a snapshot of the document binds the same
/// object when reloaded. Constructors establish it and local edits keep it;
/// nothing is claimed of it across a merge, which may carry edits to the
/// root key itself.
pub uninterp spec fn doc_bound(d: Doc) -> bool;

/// The set of changes a loaded remote state holds.
pub uninterp spec fn change_ops(c: ChangeSet) -> Set<int>;

/// The text automerge materializes for the text object `root` out of the
/// change set `ops`. Deterministic: concurrent edits are ordered by the
/// total order over (actor, counter) operation identifiers carried inside
/// the changes themselves, so this depends on nothing outside its arguments.
pub uninterp spec fn text_at(root: int, ops: Set<int>) -> Seq<char>;

/// Whether automerge accepts `b` as a self-contained serialized state: it
/// loads, and every dependency of every change it carries is included, so a
/// load applies all of it and queues nothing.
pub uninterp spec fn bytes_wf(b: Seq<u8>) -> bool;

/// The set of changes encoded in well-formed bytes `b`.
pub uninterp spec fn bytes_ops(b: Seq<u8>) -> Set<int>;

/// Whether well-formed bytes `b` carry a text object under the root key
/// `"text"`.
pub uninterp spec fn bytes_has_text(b: Seq<u8>) -> bool;

/// The text object a load of `b` binds to.
pub uninterp spec fn bytes_root(b: Seq<u8>) -> int;

/// The set of changes encoded in an incremental extraction.
pub uninterp spec fn delta_ops(b: Seq<u8>) -> Set<int>;

/// Whether a merge of the changes `other` into a document holding `ops`
/// applies. Automerge refuses only a forked actor history (two different
/// changes claiming one actor and sequence number), so this is a function
/// of the two change sets; merging changes the document already holds is
/// always accepted.
pub uninterp spec fn merge_accepts(ops: Set<int>, other: Set<int>) -> bool;

/// The text this document materializes.
pub open spec fn doc_text(d: Doc) -> Seq<char> {
    text_at(doc_root(d), doc_ops(d))
}

/// How a merge of the serialized state `b` relates a document before and
/// after: the text object binding and the save watermark are kept, and the
/// change set absorbs every change of `b` exactly when automerge accepts
/// the input, else stays exactly as it was. A merge never partially
/// applies.
pub open spec fn merge_post(pre: Doc, b: Seq<u8>, post: Doc) -> bool {
    &&& doc_root(post) == doc_root(pre)
    &&& doc_mark(post) == doc_mark(pre)
    &&& doc_ops(post) == if bytes_wf(b) && merge_accepts(doc_ops(pre), bytes_ops(b)) {
        doc_ops(pre).union(bytes_ops(b))
    } else {
        doc_ops(pre)
    }
}

/// A merge that took effect: the document kept its text object binding and
/// now holds every change it had before together with every change of `b`.
pub open spec fn merge_applied(pre: Doc, b: Seq<u8>, post: Doc) -> bool {
    &&& doc_root(post) == doc_root(pre)
    &&& doc_ops(post) == doc_ops(pre).union(bytes_ops(b))
}

impl ChangeSet {
    /// Relies on automerge::AutoCommit::load and get_missing_deps: succeeds
    /// exactly on bytes automerge accepts whose changes are self-contained;
    /// bytes that would leave a change queued behind a missing dependency
    /// are rejected, so the loaded state holds exactly the changes encoded.
    #[verifier::external_body]
    pub fn load(bytes: &[u8]) -> (r: Option<ChangeSet>)
        ensures
            r is Some <==> bytes_wf(bytes@),
            r is Some ==> change_ops(r->Some_0) == bytes_ops(bytes@),
    {
        let mut am = match automerge::AutoCommit::load(bytes) {
            Ok(am) => am,
            Err(_) => return None,
        };
        if !am.get_missing_deps(&[]).is_empty() {
            return None;
        }
        Some(ChangeSet { am })
    }
}

impl Doc {
    /// Relies on automerge::AutoCommit::new and Transactable::put_object: a
    /// fresh document with an empty text object under the root key `"text"`,
    /// nothing extracted yet.
    #[verifier::external_body]
    pub fn new() -> (d: Doc)
        ensures
            doc_text(d) == Seq::<char>::empty(),
            doc_bound(d),
            doc_mark(d) == Set::<int>::empty(),
    {
        let mut am = automerge::AutoCommit::new();
        let text_obj = am.put_object(automerge::ROOT, "text", automerge::ObjType::Text).unwrap();
        Doc { am, text_obj }
    }

    /// Relies on ReadDoc::text: the current contents of the text object,
    /// counted in Unicode scalar values.
    #[verifier::external_body]
    pub fn get_text(&self) -> (t: String)
        ensures
            t@ == text_at(doc_root(*self), doc_ops(*self)),
    {
        self.am.text(&self.text_obj).unwrap_or_default()
    }

    /// Relies on Transactable::splice_text (indices in Unicode scalar
    /// values) and ReadDoc::text: deletes `delete_count` characters at
    /// `insert_at`, inserts `insert` there, and returns the new text. A
    /// local edit touches only the bound text object, so the binding and
    /// the watermark are kept.
    #[verifier::external_body]
    pub fn splice_text(&mut self, insert_at: usize, delete_count: usize, insert: &str) -> (t:
        String)
        requires
            insert_at + delete_count <= doc_text(*old(self)).len(),
        ensures
            doc_root(*final(self)) == doc_root(*old(self)),
            doc_mark(*final(self)) == doc_mark(*old(self)),
            doc_bound(*final(self)) == doc_bound(*old(self)),
            doc_text(*final(self)) == splice_seq(
                doc_text(*old(self)),
                insert_at as int,
                delete_count as int,
                insert@,
            ),
            t@ == doc_text(*final(self)),
    {
        self.am.splice_text(&self.text_obj, insert_at, delete_count as isize, insert).unwrap();
        self.am.text(&self.text_obj).unwrap_or_default()
    }

    /// Relies on automerge::AutoCommit::save_incremental: serializes
    /// exactly the changes not yet covered by the watermark and moves the
    /// watermark over everything, so already-extracted edits are never
    /// re-sent and an immediately repeated call returns nothing; the
    /// document itself is unchanged.
    #[verifier::external_body]
    pub fn save_changes(&mut self) -> (b: Vec<u8>)
        ensures
            doc_root(*final(self)) == doc_root(*old(self)),
            doc_ops(*final(self)) == doc_ops(*old(self)),
            doc_bound(*final(self)) == doc_bound(*old(self)),
            delta_ops(b@) == doc_ops(*old(self)).difference(doc_mark(*old(self))),
            doc_mark(*final(self)) == doc_ops(*old(self)),
            doc_mark(*old(self)) == doc_ops(*old(self)) ==> b@.len() == 0,
    {
        self.am.save_incremental()
    }

    /// Relies on automerge::AutoCommit::save: a compact serialization of the
    /// entire document, which a load accepts and which encodes exactly the
    /// changes this document holds; while the root binding stands, a load
    /// of the snapshot finds the text object and binds the same one. The
    /// document is unchanged, and the watermark moves over everything.
    #[verifier::external_body]
    pub fn save(&mut self) -> (b: Vec<u8>)
        ensures
            doc_root(*final(self)) == doc_root(*old(self)),
            doc_ops(*final(self)) == doc_ops(*old(self)),
            doc_bound(*final(self)) == doc_bound(*old(self)),
            doc_mark(*final(self)) == doc_ops(*old(self)),
            bytes_wf(b@),
            bytes_ops(b@) == doc_ops(*old(self)),
            doc_bound(*old(self)) ==> (bytes_has_text(b@) && bytes_root(b@) == doc_root(
                *old(self),
            )),
    {
        self.am.save()
    }

    /// Relies on automerge::AutoCommit::load, get_missing_deps and
    /// ReadDoc::get: reconstructs a replica from a full snapshot, binding
    /// the text object found under the root key `"text"`; returns nothing
    /// when the bytes are rejected, carry a change with a missing
    /// dependency, or the key holds no text object (splicing would then be
    /// an invalid operation, so such a snapshot is malformed for this
    /// system).
    #[verifier::external_body]
    pub fn load_from_bytes(bytes: &[u8]) -> (r: Option<Doc>)
        ensures
            r is Some <==> (bytes_wf(bytes@) && bytes_has_text(bytes@)),
            r is Some ==> doc_ops(r->Some_0) == bytes_ops(bytes@),
            r is Some ==> doc_root(r->Some_0) == bytes_root(bytes@),
            r is Some ==> doc_bound(r->Some_0),
            r is Some ==> doc_mark(r->Some_0) == Set::<int>::empty(),
    {
        let mut am = match automerge::AutoCommit::load(bytes) {
            Ok(am) => am,
            Err(_) => return None,
        };
        if !am.get_missing_deps(&[]).is_empty() {
            return None;
        }
        let text_obj = match am.get(automerge::ROOT, "text") {
            Ok(Some((automerge::Value::Object(automerge::ObjType::Text), id))) => id,
            _ => return None,
        };
        Some(Doc { am, text_obj })
    }

    /// Relies on automerge::AutoCommit::merge: takes every change of `other`
    /// that this document lacks and applies it, keeping the text object
    /// binding and the watermark. Both operands come from this module's
    /// constructors, which reject input with missing dependencies, so the
    /// incoming changes are dependency-complete and nothing stays queued:
    /// the result holds exactly the union. Automerge refuses only a forked
    /// actor history — an outcome determined by the two change sets — and
    /// its error paths return before anything is applied, so a refused
    /// merge leaves the document exactly as it was. Changes the document
    /// already holds are always accepted (they are skipped).
    #[verifier::external_body]
    pub fn merge_doc(&mut self, other: &mut ChangeSet) -> (ok: bool)
        ensures
            doc_root(*final(self)) == doc_root(*old(self)),
            doc_mark(*final(self)) == doc_mark(*old(self)),
            change_ops(*final(other)) == change_ops(*old(other)),
            ok == merge_accepts(doc_ops(*old(self)), change_ops(*old(other))),
            ok ==> doc_ops(*final(self)) == doc_ops(*old(self)).union(change_ops(*old(other))),
            !ok ==> doc_ops(*final(self)) == doc_ops(*old(self)),
            change_ops(*old(other)).subset_of(doc_ops(*old(self))) ==> ok,
    {
        self.am.merge(&mut other.am).is_ok()
    }

    /// Integrates a remote serialized state and returns the merged text.
    /// Malformed or rejected input leaves the document unchanged.
    pub fn merge_changes(&mut self, bytes: &[u8]) -> (t: String)
        ensures
            merge_post(*old(self), bytes@, *final(self)),
            t@ == doc_text(*final(self)),
    {
        match ChangeSet::load(bytes) {
            Some(mut other) => {
                self.merge_doc(&mut other);
            },
            None => {},
        }
        self.get_text()
    }

    /// Integrates a remote serialized state, saying whether anything could
    /// be merged: the merged text exactly when the bytes are well formed
    /// and automerge accepts them, nothing otherwise (the document is then
    /// unchanged).
    pub fn merge_from_bytes(&mut self, bytes: &[u8]) -> (r: Option<String>)
        ensures
            merge_post(*old(self), bytes@, *final(self)),
            r is Some <==> (bytes_wf(bytes@) && merge_accepts(
                doc_ops(*old(self)),
                bytes_ops(bytes@),
            )),
            r is Some ==> r->Some_0@ == doc_text(*final(self)),
            r is Some ==> merge_applied(*old(self), bytes@, *final(self)),
            r is None ==> doc_ops(*final(self)) == doc_ops(*old(self)),
    {
        match ChangeSet::load(bytes) {
            Some(mut other) => {
                if self.merge_doc(&mut other) {
                    Some(self.get_text())
                } else {
                    None
                }
            },
            None => None,
        }
    }
}

} // verus!
