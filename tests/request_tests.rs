use lb::api::{is_success, issue_url, note_payload, notes_url, projects_url, TOKEN_HEADER};
use lb::issue_id::parse_issue_id;
use lb::text::push_decimal;

#[test]
fn projects_address() {
    assert_eq!(projects_url("gitlab.example.com"), "https://gitlab.example.com/api/v4/projects");
}

#[test]
fn issue_address() {
    assert_eq!(
        issue_url("gitlab.example.com", 7, 42),
        "https://gitlab.example.com/api/v4/projects/7/issues/42"
    );
}

#[test]
fn notes_address() {
    assert_eq!(
        notes_url("git.local", 1203, 0),
        "https://git.local/api/v4/projects/1203/issues/0/notes"
    );
}

#[test]
fn token_header_name() {
    assert_eq!(TOKEN_HEADER, "PRIVATE-TOKEN");
}

#[test]
fn decimal_digits() {
    let mut s = String::from("n=");
    push_decimal(&mut s, 0);
    push_decimal(&mut s, 4294967295);
    push_decimal(&mut s, 10);
    assert_eq!(s, "n=0429496729510");
}

#[test]
fn payload_plain_text() {
    assert_eq!(note_payload("hello"), "{\"body\":\"hello\"}");
}

#[test]
fn payload_escapes_quotes_backslashes_and_controls() {
    assert_eq!(
        note_payload("say \"hi\" \\ now\n\tend\r\u{1}\u{1f}é"),
        "{\"body\":\"say \\\"hi\\\" \\\\ now\\n\\tend\\r\\u0001\\u001fé\"}"
    );
}

#[test]
fn payload_empty_text() {
    assert_eq!(note_payload(""), "{\"body\":\"\"}");
}

#[test]
fn success_range() {
    assert!(is_success(200));
    assert!(is_success(201));
    assert!(is_success(299));
    assert!(!is_success(199));
    assert!(!is_success(300));
    assert!(!is_success(404));
    assert!(!is_success(422));
}

#[test]
fn issue_ids_that_parse() {
    assert_eq!(parse_issue_id("42"), Some(42));
    assert_eq!(parse_issue_id("8"), Some(8));
    assert_eq!(parse_issue_id("+7"), Some(7));
    assert_eq!(parse_issue_id("007"), Some(7));
    assert_eq!(parse_issue_id("4294967295"), Some(4294967295));
}

#[test]
fn issue_ids_that_do_not_parse() {
    assert_eq!(parse_issue_id(""), None);
    assert_eq!(parse_issue_id("+"), None);
    assert_eq!(parse_issue_id("abc"), None);
    assert_eq!(parse_issue_id("4a"), None);
    assert_eq!(parse_issue_id("-1"), None);
    assert_eq!(parse_issue_id(" 1"), None);
    assert_eq!(parse_issue_id("4294967296"), None);
    assert_eq!(parse_issue_id("99999999999999999999"), None);
}
