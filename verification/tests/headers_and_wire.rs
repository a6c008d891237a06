use http_relay::headers::Headers;
use http_relay::wire::{
    decode_header_value, encode_header, has_scheme_and_host, is_acceptable_target, UriParts,
};

fn pair(name: &str, value: &str) -> (String, String) {
    (name.to_string(), value.to_string())
}

#[test]
fn new_headers_are_empty() {
    let headers = Headers::new();
    assert_eq!(headers.len(), 0);
    assert_eq!(headers.get("x"), None);
    assert_eq!(headers.find("x"), 0);
    assert!(headers.to_pairs().is_empty());
}

#[test]
fn insert_adds_at_the_end() {
    let mut headers = Headers::new();
    headers.insert("a".to_string(), "1".to_string());
    headers.insert("b".to_string(), "2".to_string());
    assert_eq!(headers.len(), 2);
    assert_eq!(headers.name_at(0), "a");
    assert_eq!(headers.value_at(0), "1");
    assert_eq!(headers.name_at(1), "b");
    assert_eq!(headers.value_at(1), "2");
    assert_eq!(headers.find("a"), 0);
    assert_eq!(headers.find("b"), 1);
    assert_eq!(headers.find("c"), 2);
}

#[test]
fn insert_replaces_in_place() {
    let mut headers = Headers::new();
    headers.insert("a".to_string(), "1".to_string());
    headers.insert("b".to_string(), "2".to_string());
    headers.insert("a".to_string(), "3".to_string());
    assert_eq!(headers.to_pairs(), vec![pair("a", "3"), pair("b", "2")]);
    assert_eq!(headers.get("a"), Some("3"));
    assert_eq!(headers.get("b"), Some("2"));
}

#[test]
fn insert_if_absent_keeps_the_first_value() {
    let mut headers = Headers::new();
    headers.insert_if_absent("a".to_string(), "1".to_string());
    headers.insert_if_absent("a".to_string(), "2".to_string());
    headers.insert_if_absent("b".to_string(), "3".to_string());
    assert_eq!(headers.to_pairs(), vec![pair("a", "1"), pair("b", "3")]);
}

#[test]
fn names_are_compared_exactly() {
    let mut headers = Headers::new();
    headers.insert("X-Test".to_string(), "1".to_string());
    headers.insert("x-test".to_string(), "2".to_string());
    assert_eq!(headers.len(), 2);
    assert_eq!(headers.get("X-Test"), Some("1"));
    assert_eq!(headers.get("x-test"), Some("2"));
    assert_eq!(headers.get("X-TEST"), None);
}

#[test]
fn clone_keeps_the_pairs() {
    let mut headers = Headers::new();
    headers.insert("a".to_string(), "1".to_string());
    let copy = headers.clone();
    headers.insert("a".to_string(), "2".to_string());
    assert_eq!(copy.to_pairs(), vec![pair("a", "1")]);
    assert_eq!(headers.to_pairs(), vec![pair("a", "2")]);
}

#[test]
fn absolute_targets_are_accepted() {
    assert!(is_acceptable_target("http://example.com"));
    assert!(is_acceptable_target("http://example.com/path?q=1"));
    assert!(is_acceptable_target("https://example.com:8443/"));
    assert!(is_acceptable_target("http://127.0.0.1:3000/proxy"));
    assert!(is_acceptable_target("http://[::1]:8080/"));
}

#[test]
fn texts_that_are_no_uri_are_refused() {
    assert!(!is_acceptable_target("not a url"));
    assert!(!is_acceptable_target(""));
    assert!(!is_acceptable_target("http://exa mple.com"));
    assert!(!is_acceptable_target("http://"));
}

#[test]
fn targets_without_scheme_or_host_are_refused() {
    assert!(!is_acceptable_target("/only/a/path"));
    assert!(!is_acceptable_target("example.com"));
    assert!(!is_acceptable_target("example.com:8080"));
    assert!(!is_acceptable_target("*"));
    assert!(!is_acceptable_target("http://:80/"));
}

#[test]
fn scheme_and_host_are_both_needed() {
    let full = Some(UriParts { scheme: Some("http".to_string()), host: Some("h".to_string()) });
    assert!(has_scheme_and_host(&full));
    let no_scheme = Some(UriParts { scheme: None, host: Some("h".to_string()) });
    assert!(!has_scheme_and_host(&no_scheme));
    let no_host = Some(UriParts { scheme: Some("http".to_string()), host: None });
    assert!(!has_scheme_and_host(&no_host));
    let empty_host = Some(UriParts { scheme: Some("http".to_string()), host: Some(String::new()) });
    assert!(!has_scheme_and_host(&empty_host));
    assert!(!has_scheme_and_host(&None));
}

#[test]
fn header_names_are_folded_to_lower_case() {
    assert_eq!(encode_header("X-Test", "abc"), Some(pair("x-test", "abc")));
    assert_eq!(encode_header("Content-Type", "text/plain"), Some(pair("content-type", "text/plain")));
    assert_eq!(encode_header("already-lower", "V"), Some(pair("already-lower", "V")));
    assert_eq!(encode_header("A1!#$%&'*+-.^_`|~z", ""), Some(pair("a1!#$%&'*+-.^_`|~z", "")));
}

#[test]
fn header_names_outside_the_alphabet_are_refused() {
    assert_eq!(encode_header("", "v"), None);
    assert_eq!(encode_header("bad name", "v"), None);
    assert_eq!(encode_header("bad:name", "v"), None);
    assert_eq!(encode_header("bad\nname", "v"), None);
    assert_eq!(encode_header("n\u{e4}me", "v"), None);
    assert_eq!(encode_header("a(b)", "v"), None);
    assert_eq!(encode_header("a/b", "v"), None);
    assert_eq!(encode_header("a@b", "v"), None);
    assert_eq!(encode_header("a[b]", "v"), None);
    assert_eq!(encode_header("a{b}", "v"), None);
}

#[test]
fn header_name_length_limit() {
    let longest = "a".repeat(65535);
    assert_eq!(encode_header(&longest, "v"), Some((longest.clone(), "v".to_string())));
    let too_long = "a".repeat(65536);
    assert_eq!(encode_header(&too_long, "v"), None);
    let upper = "A".repeat(100);
    assert_eq!(encode_header(&upper, "v"), Some(("a".repeat(100), "v".to_string())));
}

#[test]
fn header_values_without_control_characters_are_kept() {
    assert_eq!(encode_header("n", "plain value"), Some(pair("n", "plain value")));
    assert_eq!(encode_header("n", "tab\there"), Some(pair("n", "tab\there")));
    assert_eq!(encode_header("n", "gr\u{fc}n"), Some(pair("n", "gr\u{fc}n")));
    assert_eq!(encode_header("n", "~"), Some(pair("n", "~")));
}

#[test]
fn header_values_with_control_characters_are_refused() {
    assert_eq!(encode_header("n", "line\nbreak"), None);
    assert_eq!(encode_header("n", "line\rbreak"), None);
    assert_eq!(encode_header("n", "nul\u{0}"), None);
    assert_eq!(encode_header("n", "del\u{7f}"), None);
    assert_eq!(encode_header("n", "\u{1f}"), None);
}

#[test]
fn raw_values_that_read_as_text_are_decoded() {
    assert_eq!(decode_header_value(b"abc"), "abc");
    assert_eq!(decode_header_value(b"text/html; charset=utf-8"), "text/html; charset=utf-8");
    assert_eq!(decode_header_value(b"a\tb"), "a\tb");
    assert_eq!(decode_header_value(b" ~"), " ~");
    assert_eq!(decode_header_value(b""), "");
}

#[test]
fn raw_values_that_do_not_read_as_text_become_empty() {
    assert_eq!(decode_header_value(&[0x61, 0xff]), "");
    assert_eq!(decode_header_value(&[0xc3, 0xa4]), "");
    assert_eq!(decode_header_value(&[0x7f]), "");
    assert_eq!(decode_header_value(b"a\nb"), "");
    assert_eq!(decode_header_value(&[0x1f]), "");
}
