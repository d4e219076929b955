//! The algebra of merging: the guarantees that make the replicated document
//! a CRDT, proved from the model in `doc`.

use vstd::prelude::*;

use crate::doc::Doc;
use crate::doc::bytes_ops;
use crate::doc::doc_ops;
use crate::doc::doc_root;
use crate::doc::doc_text;
use crate::doc::merge_applied;
use crate::doc::merge_post;

verus! {

/// Replicas bound to the same text object and holding the same set of
/// changes materialize the same text, whatever the order or interleaving in
/// which those changes arrived.
pub proof fn lemma_same_state_same_text(a: Doc, b: Doc)
    requires
        doc_root(a) == doc_root(b),
        doc_ops(a) == doc_ops(b),
    ensures
        doc_text(a) == doc_text(b),
{
}

/// Convergence: two replicas fork from a common snapshot (so they share a
/// text object binding), each makes its own edits, and each merges the
/// other's full serialized state. Both end up materializing the same text.
pub proof fn lemma_convergence(a: Doc, b: Doc, sa: Seq<u8>, sb: Seq<u8>, a2: Doc, b2: Doc)
    requires
        doc_root(a) == doc_root(b),
        bytes_ops(sa) == doc_ops(a),
        bytes_ops(sb) == doc_ops(b),
        merge_applied(a, sb, a2),
        merge_applied(b, sa, b2),
    ensures
        doc_text(a2) == doc_text(b2),
{
    assert(doc_ops(a2) =~= doc_ops(b2));
}

/// Idempotence of merge: once a serialized change has been merged, merging
/// it again (whether automerge accepts or rejects the repeat) leaves the
/// materialized text exactly as it was.
pub proof fn lemma_merge_idempotent(pre: Doc, b: Seq<u8>, once: Doc, twice: Doc)
    requires
        merge_applied(pre, b, once),
        merge_post(once, b, twice),
    ensures
        doc_text(twice) == doc_text(once),
{
    assert(doc_ops(pre).union(bytes_ops(b)).union(bytes_ops(b)) =~= doc_ops(pre).union(
        bytes_ops(b),
    ));
}

/// Commutativity of merge: two serialized changes merged in either order
/// produce the same materialized text.
pub proof fn lemma_merge_commutative(
    d: Doc,
    b1: Seq<u8>,
    b2: Seq<u8>,
    p1: Doc,
    p12: Doc,
    q2: Doc,
    q21: Doc,
)
    requires
        merge_applied(d, b1, p1),
        merge_applied(p1, b2, p12),
        merge_applied(d, b2, q2),
        merge_applied(q2, b1, q21),
    ensures
        doc_text(p12) == doc_text(q21),
{
    assert(doc_ops(p12) =~= doc_ops(q21));
}

} // verus!
