use fgp_fly::failure::{Failure, FailureKind};
use fgp_fly::fields::{
    read_flag_or_false, read_int32, read_optional_text, read_present, read_text,
    read_text_or_empty,
};
use fgp_fly::status::status_line_text;
use fgp_fly::text::{decimal_text, head, str_eq};
use serde_json::Value;

fn parse(text: &str) -> Value {
    serde_json::from_str(text).unwrap()
}

#[test]
fn str_eq_compares_whole_texts() {
    assert!(str_eq("", ""));
    assert!(str_eq("health", "health"));
    assert!(!str_eq("health", "healthy"));
    assert!(!str_eq("health", "healtH"));
    assert!(!str_eq("a", ""));
    assert!(str_eq("\u{e9}t\u{e9}", "\u{e9}t\u{e9}"));
    assert!(!str_eq("\u{e9}", "e"));
}

#[test]
fn head_takes_whole_characters() {
    assert_eq!(head("hello", 300), "hello");
    assert_eq!(head("hello", 5), "hello");
    assert_eq!(head("hello", 2), "he");
    assert_eq!(head("hello", 0), "");
    assert_eq!(head("", 3), "");
    assert_eq!(head("\u{e9}\u{20ac}x", 2), "\u{e9}\u{20ac}");
}

#[test]
fn decimal_text_has_no_leading_zeros() {
    assert_eq!(decimal_text(0), "0");
    assert_eq!(decimal_text(7), "7");
    assert_eq!(decimal_text(10), "10");
    assert_eq!(decimal_text(404), "404");
    assert_eq!(decimal_text(65535), "65535");
    assert_eq!(decimal_text(u64::MAX), "18446744073709551615");
}

#[test]
fn messages_of_every_failure() {
    let f = Failure::Transport { status: 404, detail: "not found".to_string() };
    assert_eq!(f.message(), "GraphQL request failed: 404 Not Found - not found");
    assert_eq!(f.kind(), FailureKind::Transport);
    let f = Failure::Transport { status: 0, detail: String::new() };
    assert_eq!(f.message(), "GraphQL request failed: 0 - ");
    let f = Failure::Connection { context: "gone".to_string(), cause: "why".to_string() };
    assert_eq!(f.message(), "gone");
    assert_eq!(f.kind(), FailureKind::Transport);
    let f = Failure::Protocol { detail: "eof".to_string(), raw: "{".to_string() };
    assert_eq!(f.message(), "JSON parse error: eof | Raw: {");
    assert_eq!(f.kind(), FailureKind::Protocol);
    let f = Failure::Upstream { messages: "a, b".to_string() };
    assert_eq!(f.message(), "a, b");
    assert_eq!(f.kind(), FailureKind::Upstream);
    assert_eq!(Failure::MissingData.message(), "GraphQL response missing data field");
    assert_eq!(Failure::MissingData.kind(), FailureKind::MissingData);
    let f = Failure::Parameter { name: "app".to_string(), detail: "Missing app".to_string() };
    assert_eq!(f.message(), "Missing app");
    assert_eq!(f.kind(), FailureKind::Parameter);
    let f = Failure::UnknownMethod { method: "x.y".to_string() };
    assert_eq!(f.message(), "Unknown method: x.y");
    assert_eq!(f.kind(), FailureKind::UnknownMethod);
}

#[test]
fn reading_members() {
    let node = parse(r#"{"s":"text","e":"","n":null,"b":true,"i":12,"f":1.5,"o":{"k":1}}"#);
    assert_eq!(read_text(&node, "s").as_deref(), Some("text"));
    assert_eq!(read_text(&node, "n"), None);
    assert_eq!(read_text(&node, "missing"), None);
    assert_eq!(read_text(&node, "i"), None);
    assert_eq!(read_text_or_empty(&node, "missing").as_deref(), Some(""));
    assert_eq!(read_text_or_empty(&node, "s").as_deref(), Some("text"));
    assert_eq!(read_text_or_empty(&node, "n").as_deref(), Some(""));
    assert_eq!(read_text_or_empty(&node, "b"), None);
    assert_eq!(read_optional_text(&node, "n"), Some(None));
    assert_eq!(read_optional_text(&node, "missing"), Some(None));
    assert_eq!(read_optional_text(&node, "e"), Some(Some(String::new())));
    assert_eq!(read_optional_text(&node, "b"), None);
    assert_eq!(read_flag_or_false(&node, "b"), Some(true));
    assert_eq!(read_flag_or_false(&node, "missing"), Some(false));
    assert_eq!(read_flag_or_false(&node, "n"), Some(false));
    assert_eq!(read_flag_or_false(&node, "s"), None);
    assert_eq!(read_int32(&node, "i"), Some(12));
    assert_eq!(read_int32(&node, "f"), None);
    assert_eq!(read_int32(&node, "missing"), None);
    assert_eq!(read_present(&node, "o"), Some(&parse(r#"{"k":1}"#)));
    assert_eq!(read_present(&node, "n"), None);
    assert_eq!(read_present(&node, "missing"), None);
}

#[test]
fn reading_members_of_what_is_no_object() {
    let node = parse(r#"["s"]"#);
    assert_eq!(read_text(&node, "s"), None);
    assert_eq!(read_text_or_empty(&node, "s").as_deref(), Some(""));
    assert_eq!(read_present(&node, "0"), None);
}

#[test]
fn status_lines() {
    assert_eq!(status_line_text(200), "200 OK");
    assert_eq!(status_line_text(418), "418 I'm a teapot");
    assert_eq!(status_line_text(502), "502 Bad Gateway");
    assert_eq!(status_line_text(100), "100 Continue");
    assert_eq!(status_line_text(999), "999 <unknown status code>");
    assert_eq!(status_line_text(99), "99");
    assert_eq!(status_line_text(1000), "1000");
}
