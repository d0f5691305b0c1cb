use backup_monitor::text::contains_chars;

fn chars(s: &str) -> Vec<char> {
    s.chars().collect()
}

#[test]
fn empty_needle_is_everywhere() {
    assert!(contains_chars(&chars(""), &chars("")));
    assert!(contains_chars(&chars("abc"), &chars("")));
}

#[test]
fn needle_longer_than_haystack_is_nowhere() {
    assert!(!contains_chars(&chars("ab"), &chars("abc")));
}

#[test]
fn occurrences_at_either_end_are_found() {
    assert!(contains_chars(&chars("ACME CORP"), &chars("ACME")));
    assert!(contains_chars(&chars("ACME CORP"), &chars("CORP")));
    assert!(contains_chars(&chars("ACME CORP"), &chars("E C")));
    assert!(contains_chars(&chars("ACME CORP"), &chars("ACME CORP")));
}

#[test]
fn near_misses_are_not_found() {
    assert!(!contains_chars(&chars("ACME CORP"), &chars("acme")));
    assert!(!contains_chars(&chars("ACME CORP"), &chars("CORPS")));
    assert!(!contains_chars(&chars("ababab"), &chars("abba")));
}
