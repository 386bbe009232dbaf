use profilebot::decode::{decode_body, percent_decode, strip_form_key};
use profilebot::text::{json_escape, render_payload, u64_to_string};

#[test]
fn percent_decode_replaces_escapes() {
    let out = percent_decode(b"%7B%22a%22%3A1%7D");
    assert_eq!(out, b"{\"a\":1}".to_vec());
}

#[test]
fn percent_decode_passes_plain_bytes_through() {
    let out = percent_decode(b"hello world");
    assert_eq!(out, b"hello world".to_vec());
}

#[test]
fn percent_decode_keeps_malformed_escapes() {
    assert_eq!(percent_decode(b"%G1"), b"%G1".to_vec());
    assert_eq!(percent_decode(b"%4"), b"%4".to_vec());
    assert_eq!(percent_decode(b"100%"), b"100%".to_vec());
}

#[test]
fn percent_decode_mixed_case_digits() {
    assert_eq!(percent_decode(b"%2f%2F"), b"//".to_vec());
}

#[test]
fn strip_form_key_removes_prefix() {
    assert_eq!(strip_form_key(b"payload={}"), b"{}".to_vec());
}

#[test]
fn strip_form_key_removes_every_occurrence() {
    assert_eq!(strip_form_key(b"abcpayload=def"), b"abcdef".to_vec());
    assert_eq!(strip_form_key(b"payload=payload=x"), b"x".to_vec());
}

#[test]
fn strip_form_key_does_not_rescan() {
    // Removing the inner occurrence brings an outer one together, which a
    // single left-to-right scan does not remove.
    assert_eq!(strip_form_key(b"papayload=yload="), b"payload=".to_vec());
}

#[test]
fn decode_body_decodes_encoded_payload() {
    let j = decode_body(b"payload=%7B%22k%22%3A%22v%22%7D").expect("should decode");
    let k = "k".to_string();
    let v = j.get(&k).expect("field should be there");
    assert_eq!(v.as_str().expect("should be a string"), "v");
}

#[test]
fn decode_body_rejects_garbage() {
    assert!(decode_body(b"payload=%ZZ").is_none());
    assert!(decode_body(b"").is_none());
}

#[test]
fn u64_to_string_renders_decimal() {
    assert_eq!(u64_to_string(0), "0");
    assert_eq!(u64_to_string(7), "7");
    assert_eq!(u64_to_string(412), "412");
    assert_eq!(u64_to_string(1200), "1200");
    assert_eq!(u64_to_string(u64::MAX), "18446744073709551615");
}

#[test]
fn json_escape_escapes_specials() {
    assert_eq!(json_escape("plain"), "plain");
    assert_eq!(json_escape("a\"b"), "a\\\"b");
    assert_eq!(json_escape("a\\b"), "a\\\\b");
    assert_eq!(json_escape("a\nb"), "a\\nb");
    assert_eq!(json_escape("a\rb"), "a\\rb");
    assert_eq!(json_escape("a\tb"), "a\\tb");
    assert_eq!(json_escape("a\u{1}b"), "a\\u0001b");
    assert_eq!(json_escape("a\u{1f}b"), "a\\u001fb");
}

#[test]
fn render_payload_wraps_report() {
    assert_eq!(render_payload("hi"), "{ \"body\": \"hi\" }");
    assert_eq!(render_payload("a\"b\nc"), "{ \"body\": \"a\\\"b\\nc\" }");
}

#[test]
fn rendered_payload_is_valid_json() {
    let p = render_payload("line one\nwith \"quotes\" and \\slashes\\");
    let v: serde_json::Value = serde_json::from_str(&p).expect("payload should parse");
    assert_eq!(
        v["body"].as_str().expect("body should be a string"),
        "line one\nwith \"quotes\" and \\slashes\\"
    );
}
