//! Conversions between strings and character vectors, and the spec-level
//! splice operation that the diff engine and the document share.

use vstd::prelude::*;

verus! {

/// The result of deleting `del` characters of `s` at `at` and inserting
/// `ins` there. This is the one edit shape the whole system works with.
pub open spec fn splice_seq(s: Seq<char>, at: int, del: int, ins: Seq<char>) -> Seq<char> {
    s.take(at) + ins + s.skip(at + del)
}

/// Relies on str::chars: yields the characters of the string in order.
#[verifier::external_body]
pub fn str_chars(s: &str) -> (v: Vec<char>)
    ensures
        v@ == s@,
{
    s.chars().collect()
}

/// Relies on String's FromIterator over char: concatenates the characters.
#[verifier::external_body]
pub fn string_from_chars(v: Vec<char>) -> (s: String)
    ensures
        s@ == v@,
{
    v.into_iter().collect()
}

/// Relies on str's PartialEq: equal exactly when the character sequences are.
#[verifier::external_body]
pub fn str_eq(a: &str, b: &str) -> (r: bool)
    ensures
        r == (a@ == b@),
{
    a == b
}

/// Copies `src[lo..hi]`.
pub fn copy_range(src: &Vec<char>, lo: usize, hi: usize) -> (v: Vec<char>)
    requires
        lo <= hi <= src@.len(),
    ensures
        v@ == src@.subrange(lo as int, hi as int),
{
    let mut v: Vec<char> = Vec::new();
    let mut i: usize = lo;
    while i < hi
        invariant
            lo <= i <= hi <= src@.len(),
            v@ == src@.subrange(lo as int, i as int),
        decreases hi - i,
    {
        v.push(src[i]);
        proof {
            assert(v@ =~= src@.subrange(lo as int, i + 1));
        }
        i = i + 1;
    }
    v
}

} // verus!
