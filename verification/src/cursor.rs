//! Cursor preservation: maps a caret offset taken before a remote splice to
//! the offset it must have afterwards, so the caret does not jump when a
//! remote edit lands in the buffer.

use vstd::prelude::*;
use vstd::string::StrSliceExecFns;

use crate::diff::diff;
use crate::diff::diff_post;

verus! {

/// Where a cursor at `cursor` ends up after deleting `del` characters at
/// `splice_at` and inserting `ins_len` characters there: untouched before the
/// edit, snapped to its start inside the deleted span, shifted by the net
/// length change after it (clamped at zero).
pub open spec fn adjusted_cursor(cursor: int, splice_at: int, del: int, ins_len: int) -> int {
    if cursor <= splice_at {
        cursor
    } else if cursor < splice_at + del {
        splice_at
    } else if cursor + ins_len - del >= 0 {
        cursor + ins_len - del
    } else {
        0
    }
}

/// Moves one caret offset across a splice.
pub fn adjust_cursor(cursor: usize, splice_at: usize, del: usize, ins_len: usize) -> (r: usize)
    requires
        cursor + ins_len <= usize::MAX,
    ensures
        r == adjusted_cursor(cursor as int, splice_at as int, del as int, ins_len as int),
        cursor <= splice_at ==> r == cursor,
        splice_at < cursor < splice_at + del ==> r == splice_at,
        cursor > splice_at && cursor >= splice_at + del ==> r == cursor + ins_len - del,
{
    if cursor <= splice_at {
        cursor
    } else if cursor - splice_at < del {
        splice_at
    } else {
        cursor + ins_len - del
    }
}

/// Computes everything a client needs to apply a remote snapshot: the edit
/// operation that turned `old_text` into `new_text`, and the post-edit
/// positions of both ends of the selection.
pub fn remote_patch(old_text: &str, new_text: &str, cur_start: usize, cur_end: usize) -> (r: (
    (usize, usize, String),
    (usize, usize),
))
    requires
        cur_start <= old_text@.len(),
        cur_end <= old_text@.len(),
        old_text@.len() + new_text@.len() <= usize::MAX,
    ensures
        diff_post(old_text@, new_text@, r.0.0 as int, r.0.1 as int, r.0.2@),
        r.1.0 == adjusted_cursor(
            cur_start as int,
            r.0.0 as int,
            r.0.1 as int,
            r.0.2@.len() as int,
        ),
        r.1.1 == adjusted_cursor(cur_end as int, r.0.0 as int, r.0.1 as int, r.0.2@.len() as int),
{
    let op = diff(old_text, new_text);
    let ins_len = op.2.as_str().unicode_len();
    let start = adjust_cursor(cur_start, op.0, op.1, ins_len);
    let end = adjust_cursor(cur_end, op.0, op.1, ins_len);
    ((op.0, op.1, op.2), (start, end))
}

} // verus!
