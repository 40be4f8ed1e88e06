use actixutils::text::{
    contains_ignoring_ascii_case, remove_all_occurrences, split_by, strip_prefix, trim,
    white_space,
};

#[test]
fn strip_prefix_matches_std() {
    for (s, p) in [("Bearer x", "Bearer "), ("abc", "abcd"), ("", ""), ("héllo", "hé")] {
        assert_eq!(strip_prefix(s, p), s.strip_prefix(p).map(|r| r.to_string()));
    }
}

#[test]
fn remove_all_matches_std_replace() {
    for s in ["aaa", "Bearer Bearer x", "xBearer y", "", "BearerBearer "] {
        assert_eq!(remove_all_occurrences(s, "Bearer "), s.replace("Bearer ", ""));
    }
    assert_eq!(remove_all_occurrences("aaaa", "aa"), "aaaa".replace("aa", ""));
    assert_eq!(remove_all_occurrences("aaa", "aa"), "a");
}

#[test]
fn case_insensitive_search() {
    assert!(contains_ignoring_ascii_case("public, NO-STORE", "no-store"));
    assert!(contains_ignoring_ascii_case("Private, max-age=60", "private"));
    assert!(!contains_ignoring_ascii_case("max-age=60", "private"));
    assert!(contains_ignoring_ascii_case("abc", ""));
    assert!(!contains_ignoring_ascii_case("", "a"));
}

#[test]
fn split_and_trim_match_std() {
    for s in ["", "a", "a,b", ",", "1.2.3.4, 5.6.7.8 ,  ", " x "] {
        let ours: Vec<String> = split_by(s, ',');
        let std: Vec<String> = s.split(',').map(|p| p.to_string()).collect();
        assert_eq!(ours, std);
        assert_eq!(trim(s), s.trim());
    }
    assert_eq!(trim("\u{3000}\t a b \u{85}"), "a b");
}

#[test]
fn white_space_is_unicode_white_space() {
    for u in 0u32..=0x10FFFF {
        if let Some(c) = char::from_u32(u) {
            assert_eq!(white_space(c), c.is_whitespace(), "{u:#x}");
        }
    }
}
