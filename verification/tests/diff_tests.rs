use reality::diff::diff;

/// Applies `(prefix, delete, insert)` to `old` over characters, the way a
/// splice does.
fn splice(old: &str, prefix: usize, delete: usize, insert: &str) -> String {
    let chars: Vec<char> = old.chars().collect();
    let mut out: String = chars[..prefix].iter().collect();
    out.push_str(insert);
    let tail: String = chars[prefix + delete..].iter().collect();
    out.push_str(&tail);
    out
}

fn assert_round_trip(old: &str, new: &str) {
    let (p, d, ins) = diff(old, new);
    assert_eq!(splice(old, p, d, &ins), new);
}

#[test]
fn noop_diff_is_len_zero_empty() {
    assert_eq!(diff("abc", "abc"), (3, 0, String::new()));
    assert_eq!(diff("", ""), (0, 0, String::new()));
    assert_eq!(diff("héllo", "héllo"), (5, 0, String::new()));
}

#[test]
fn diff_single_insert() {
    assert_eq!(diff("ab", "aXb"), (1, 0, "X".to_string()));
}

#[test]
fn diff_middle_insert_word() {
    assert_eq!(diff("hello world", "hello brave world"), (6, 0, "brave ".to_string()));
}

#[test]
fn diff_full_replace() {
    assert_eq!(diff("abc", "xyz"), (0, 3, "xyz".to_string()));
}

#[test]
fn diff_delete_only() {
    assert_eq!(diff("hello", "helo"), (3, 1, String::new()));
}

#[test]
fn diff_round_trip_cases() {
    assert_round_trip("", "x");
    assert_round_trip("x", "");
    assert_round_trip("hello", "help");
    assert_round_trip("ab", "aXb");
    assert_round_trip("aa", "a");
    assert_round_trip("a", "aa");
    assert_round_trip("abc", "abcabc");
    assert_round_trip("héllo", "héllo!");
    assert_round_trip("aéc", "aøc");
    assert_round_trip("same", "same");
}

#[test]
fn diff_multibyte_not_split() {
    let (p, d, ins) = diff("café", "cafés");
    assert_eq!((p, d, ins.as_str()), (4, 0, "s"));
}
