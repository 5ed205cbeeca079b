use kiosk_controller::text::{contains_str, find_char_from, find_sub, text_eq};

#[test]
fn equality_is_character_exact() {
    assert!(text_eq("Join", "Join"));
    assert!(!text_eq("Join", "join"));
    assert!(!text_eq("Join", "Join "));
    assert!(text_eq("", ""));
}

#[test]
fn substring_search_finds_the_first_occurrence() {
    assert_eq!(find_sub("abcabc", "bc"), Some(1));
    assert_eq!(find_sub("abcabc", "cab"), Some(2));
    assert_eq!(find_sub("abcabc", "x"), None);
    assert_eq!(find_sub("abc", ""), Some(0));
    assert_eq!(find_sub("ab", "abc"), None);
}

#[test]
fn containment_mirrors_search() {
    assert!(contains_str("the Leave button", "Leave"));
    assert!(!contains_str("the leave button", "Leave"));
    assert!(contains_str("anything", ""));
}

#[test]
fn character_search_starts_at_the_given_position() {
    assert_eq!(find_char_from("a:b:c", 0, ':'), Some(1));
    assert_eq!(find_char_from("a:b:c", 2, ':'), Some(3));
    assert_eq!(find_char_from("a:b:c", 4, ':'), None);
}
