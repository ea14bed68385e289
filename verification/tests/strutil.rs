use traefik_powerdns_bridge::strutil::contains_substring;
use traefik_powerdns_bridge::strutil::decimal_string;
use traefik_powerdns_bridge::strutil::str_eq;

#[test]
fn substring_search_finds_needles() {
    assert!(contains_substring("Host(`a.com`) || Host(`b.com`)", "Host(`b.com`)"));
    assert!(contains_substring("abc", "abc"));
    assert!(contains_substring("abc", ""));
    assert!(contains_substring("", ""));
    assert!(contains_substring("aab", "ab"));
}

#[test]
fn substring_search_rejects_non_needles() {
    assert!(!contains_substring("Host(`notb.com`)", "Host(`b.com`)"));
    assert!(!contains_substring("abc", "abcd"));
    assert!(!contains_substring("", "a"));
    assert!(!contains_substring("abc", "ABC"));
}

#[test]
fn substring_search_handles_multibyte_characters() {
    assert!(contains_substring("pr\u{e9}fixe.example", "\u{e9}fixe"));
    assert!(!contains_substring("pr\u{e9}fixe.example", "\u{e8}fixe"));
}

#[test]
fn decimal_rendering_matches_the_usual_spelling() {
    assert_eq!(decimal_string(0), "0");
    assert_eq!(decimal_string(7), "7");
    assert_eq!(decimal_string(60), "60");
    assert_eq!(decimal_string(8080), "8080");
    assert_eq!(decimal_string(65535), "65535");
    assert_eq!(decimal_string(18446744073709551615), "18446744073709551615");
}

#[test]
fn string_equality_is_exact() {
    assert!(str_eq("", ""));
    assert!(str_eq("example.com", "example.com"));
    assert!(!str_eq("example.com", "example.co"));
    assert!(!str_eq("example.com", "Example.com"));
    assert!(!str_eq("a", "ab"));
}
