use ext::regex_extract;
use ext::regex_replace;

#[test]
fn extract_first_group_of_first_match() {
    assert_eq!(regex_extract("a(b+)c", "xxabbbcxx"), Some("bbb".to_string()));
}

#[test]
fn extract_without_group_is_absent_even_on_match() {
    assert_eq!(regex_extract("abc", "xabcx"), None);
}

#[test]
fn extract_without_match_is_absent() {
    assert_eq!(regex_extract("a(b+)c", "zzz"), None);
}

#[test]
fn extract_with_invalid_pattern_is_absent() {
    assert_eq!(regex_extract("(unclosed", "x"), None);
}

#[test]
fn extract_empty_capture_is_present() {
    assert_eq!(regex_extract("a(b*)c", "ac"), Some("".to_string()));
}

#[test]
fn extract_nonparticipating_group_is_absent() {
    assert_eq!(regex_extract("(a)|b", "b"), None);
}

#[test]
fn extract_takes_only_the_first_match() {
    assert_eq!(regex_extract("(b+)", "abbcbbb"), Some("bb".to_string()));
}

#[test]
fn replace_once_replaces_first_match() {
    assert_eq!(regex_replace("a+", "baaab", "X", 1), Some("bXb".to_string()));
}

#[test]
fn replace_once_leaves_later_matches() {
    assert_eq!(regex_replace("a+", "baaabaaab", "X", 1), Some("bXbaaab".to_string()));
}

#[test]
fn replace_all_replaces_every_match() {
    assert_eq!(regex_replace("a+", "baaabaaab", "X", 0), Some("bXbXb".to_string()));
}

#[test]
fn replace_any_nonzero_flag_means_once() {
    assert_eq!(regex_replace("a+", "baaabaaab", "X", -5), Some("bXbaaab".to_string()));
}

#[test]
fn replace_without_match_returns_value_unchanged() {
    assert_eq!(regex_replace("z+", "baaab", "X", 0), Some("baaab".to_string()));
}

#[test]
fn replace_with_invalid_pattern_is_absent() {
    assert_eq!(regex_replace("(", "x", "y", 0), None);
}

#[test]
fn replace_resolves_group_references() {
    assert_eq!(
        regex_replace("(\\w+)@(\\w+)", "user@host", "$2:$1", 1),
        Some("host:user".to_string())
    );
}
