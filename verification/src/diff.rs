//! The diff engine: turns two whole-buffer snapshots into one positional
//! edit operation `(prefix, delete, insert)`.
//!
//! The algorithm matches the longest common prefix, then the longest common
//! suffix of what remains, and reports the middle of the new snapshot as the
//! inserted text. It is not a minimal-edit-distance diff: a single contiguous
//! edit region is enough for edits coming from one text surface. All offsets
//! count Unicode scalar values, never bytes.

use vstd::prelude::*;

use crate::text::splice_seq;
use crate::text::str_chars;
use crate::text::string_from_chars;

verus! {

/// What `diff(old, new)` returns: writing the result back into `old`
/// (delete `r.1` characters at `r.0`, insert `r.2` there) yields `new`,
/// the matched prefix and suffix are as long as they can be, and a diff
/// of equal snapshots is the no-op `(len, 0, "")`.
pub open spec fn diff_post(o: Seq<char>, n: Seq<char>, p: int, d: int, ins: Seq<char>) -> bool {
    &&& 0 <= p && 0 <= d && p + d <= o.len()
    &&& p + ins.len() <= n.len()
    &&& o.len() - p - d == n.len() - p - ins.len()
    &&& o.take(p) == n.take(p)
    &&& o.skip(p + d) == n.skip(p + ins.len())
    &&& ins == n.subrange(p, n.len() - (o.len() - p - d))
    &&& (p < o.len() && p < n.len() ==> o[p] != n[p])
    &&& (d > 0 && ins.len() > 0 ==> o[p + d - 1] != n[p + ins.len() - 1])
}

/// Diff round-trip: whatever the diff of two snapshots reports, splicing
/// the old snapshot with it yields exactly the new one.
pub proof fn lemma_diff_round_trip(o: Seq<char>, n: Seq<char>, p: int, d: int, ins: Seq<char>)
    requires
        diff_post(o, n, p, d, ins),
    ensures
        n == splice_seq(o, p, d, ins),
{
    let sp = splice_seq(o, p, d, ins);
    assert forall|k: int| 0 <= k < n.len() implies #[trigger] sp[k] == n[k] by {
        if k < p {
            assert(o.take(p)[k] == n.take(p)[k]);
        } else if k < p + ins.len() {
            assert(ins[k - p] == n.subrange(p, n.len() - (o.len() - p - d))[k - p]);
        } else {
            assert(o.skip(p + d)[k - p - ins.len()] == n.skip(p + ins.len())[k - p - ins.len()]);
        }
    }
    assert(n =~= sp);
}

/// Derives the one edit operation that turns `old` into `new`.
pub fn diff(old: &str, new: &str) -> (r: (usize, usize, String))
    ensures
        diff_post(old@, new@, r.0 as int, r.1 as int, r.2@),
        new@ == splice_seq(old@, r.0 as int, r.1 as int, r.2@),
        old@ == new@ ==> r.0 == old@.len() && r.1 == 0 && r.2@.len() == 0,
{
    let o: Vec<char> = str_chars(old);
    let n: Vec<char> = str_chars(new);

    let mut p: usize = 0;
    while p < o.len() && p < n.len() && o[p] == n[p]
        invariant
            p <= o.len(),
            p <= n.len(),
            o@ == old@,
            n@ == new@,
            forall|j: int| 0 <= j < p ==> o@[j] == n@[j],
        decreases o.len() - p,
    {
        p = p + 1;
    }

    let mut s: usize = 0;
    while s < o.len() - p && s < n.len() - p && o[o.len() - 1 - s] == n[n.len() - 1 - s]
        invariant
            p <= o.len(),
            p <= n.len(),
            s <= o.len() - p,
            s <= n.len() - p,
            o@ == old@,
            n@ == new@,
            forall|j: int|
                0 <= j < s ==> #[trigger] o@[o@.len() - 1 - j] == n@[n@.len() - 1 - j],
        decreases o.len() - p - s,
    {
        s = s + 1;
    }

    let d: usize = o.len() - p - s;

    let mut ins: Vec<char> = Vec::new();
    let mut i: usize = p;
    while i < n.len() - s
        invariant
            p <= i <= n.len() - s,
            s <= n.len() - p,
            n@ == new@,
            ins@ == new@.subrange(p as int, i as int),
        decreases n.len() - s - i,
    {
        ins.push(n[i]);
        i = i + 1;
    }

    proof {
        let oq = old@;
        let nq = new@;
        let pi = p as int;
        let di = d as int;
        let si = s as int;
        assert(oq.take(pi) =~= nq.take(pi));
        let a = oq.skip(pi + di);
        let b = nq.skip(pi + ins@.len());
        assert forall|k: int| 0 <= k < si implies #[trigger] a[k] == b[k] by {
            assert(a[k] == oq[pi + di + k]);
            assert(b[k] == nq[pi + ins@.len() + k]);
            let j = si - 1 - k;
            assert(oq[oq.len() - 1 - j] == nq[nq.len() - 1 - j]);
            assert(oq[pi + di + k] == oq[oq.len() - 1 - j]);
            assert(nq[pi + ins@.len() + k] == nq[nq.len() - 1 - j]);
        }
        assert(a =~= b);
        assert(ins@ =~= nq.subrange(pi, nq.len() - (oq.len() - pi - di)));
        assert(nq =~= splice_seq(oq, pi, di, ins@));
        if oq == nq {
            assert(p == oq.len() && d == 0 && ins@.len() == 0);
        }
    }

    (p, d, string_from_chars(ins))
}

} // verus!
