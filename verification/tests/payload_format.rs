//! The outbound request: payload shape, escaping, the URL, and the parsed
//! view of the payload itself.

use prompt_relay::json::{get_first, get_member, JsonValue};
use prompt_relay::payload::{build_payload, build_request_url};
use prompt_relay::relay::{parse_response_body, prepare_request, Config, RelayError};
use prompt_relay::text::{json_string, str_eq};

const INSTRUCTION: &str =
    "paraphrase this text and return just the result only without any unimportant explanation : ";

#[test]
fn payload_embeds_prompt_after_instruction() {
    let body = build_payload("Hello");
    let expected = format!(
        "{{\"contents\":[{{\"parts\":[{{\"text\":\"{}Hello\"}}]}}]}}",
        INSTRUCTION
    );
    assert_eq!(body, expected);
    assert!(body.contains("Hello"));
}

#[test]
fn payload_escapes_quotes_backslashes_and_controls() {
    let body = build_payload("say \"hi\"\\ now\n\r\t\u{01}\u{1f}");
    let expected = format!(
        "{{\"contents\":[{{\"parts\":[{{\"text\":\"{}say \\\"hi\\\"\\\\ now\\n\\r\\t\\u0001\\u001f\"}}]}}]}}",
        INSTRUCTION
    );
    assert_eq!(body, expected);
}

#[test]
fn payload_parses_back_to_the_wrapped_prompt() {
    // The payload the relay sends is itself valid JSON whose one text field
    // holds the instruction-wrapped prompt; check it through the parser.
    let prompt = "quotes \" and \\ and\nnewlines, plus é and 漢";
    let body = build_payload(prompt);
    let doc = parse_response_body(&body).expect("payload should be valid JSON");
    let contents = get_member(&doc, "contents").expect("contents");
    let content = get_first(contents).expect("one content");
    let parts = get_member(content, "parts").expect("parts");
    let part = get_first(parts).expect("one part");
    let text = get_member(part, "text").expect("text");
    match text {
        JsonValue::Text(s) => assert_eq!(s.clone(), format!("{}{}", INSTRUCTION, prompt)),
        other => panic!("text field is not a string: {:?}", other),
    }
}

#[test]
fn parser_yields_the_modelled_document() {
    let doc = parse_response_body("[0, \"x\", null, true, {\"a\":[]}]").expect("valid JSON");
    let expected = JsonValue::Array(vec![
        JsonValue::Number,
        JsonValue::Text(String::from("x")),
        JsonValue::Null,
        JsonValue::Bool(true),
        JsonValue::Object(vec![(String::from("a"), JsonValue::Array(vec![]))]),
    ]);
    assert_eq!(doc, expected);
}

#[test]
fn parser_rejects_invalid_json() {
    assert_eq!(
        parse_response_body("{\"candidates\": [").unwrap_err(),
        RelayError::ParseError
    );
    assert_eq!(parse_response_body("").unwrap_err(), RelayError::ParseError);
}

#[test]
fn request_url_appends_key_parameter() {
    let url = build_request_url("http://upstream.example/v1/generate", "abc123");
    assert_eq!(
        url,
        String::from("http://upstream.example/v1/generate?key=abc123")
    );
}

#[test]
fn prepared_request_holds_url_and_payload() {
    let config = Config {
        url: String::from("http://u.example"),
        key: String::from("k"),
    };
    let request = prepare_request(&config, "Hello");
    assert_eq!(request.url, String::from("http://u.example?key=k"));
    assert_eq!(request.body, build_payload("Hello"));
}

#[test]
fn json_string_wraps_and_escapes() {
    assert_eq!(json_string("plain"), String::from("\"plain\""));
    assert_eq!(json_string(""), String::from("\"\""));
    assert_eq!(json_string("a\"b"), String::from("\"a\\\"b\""));
    assert_eq!(json_string("\u{0}"), String::from("\"\\u0000\""));
    assert_eq!(json_string("\u{b}"), String::from("\"\\u000b\""));
}

#[test]
fn str_eq_compares_by_characters() {
    assert!(str_eq("", ""));
    assert!(str_eq("héllo", "héllo"));
    assert!(!str_eq("héllo", "hello"));
    assert!(!str_eq("abc", "ab"));
}
