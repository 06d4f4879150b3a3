//! End-to-end behaviour of the relay core: interpretation of upstream
//! replies, configuration checking, and the inbound HTTP mapping.

use prompt_relay::relay::{
    http_reply, interpret_response, load_config, trim_last_two, RelayError,
};

#[test]
fn success_reply_is_trimmed_text() {
    // Prompt "Hello" was sent; the upstream answers with "Hi there!!".
    let body = String::from("{\"candidates\":[{\"content\":{\"parts\":[{\"text\":\"Hi there!!\"}]}}]}");
    let r = interpret_response(200, body);
    assert_eq!(r, Ok(String::from("Hi there")));
}

#[test]
fn success_reply_ignores_extra_fields() {
    let body = String::from(
        "{\"candidates\":[{\"content\":{\"parts\":[{\"text\":\"abc\"},{\"text\":\"zzz\"}],\"role\":\"model\"},\"finishReason\":\"STOP\"}],\"promptFeedback\":{}}",
    );
    let r = interpret_response(201, body);
    assert_eq!(r, Ok(String::from("a")));
}

#[test]
fn short_text_is_clamped_to_empty() {
    let one = String::from("{\"candidates\":[{\"content\":{\"parts\":[{\"text\":\"a\"}]}}]}");
    assert_eq!(interpret_response(200, one), Ok(String::from("")));
    let two = String::from("{\"candidates\":[{\"content\":{\"parts\":[{\"text\":\"ab\"}]}}]}");
    assert_eq!(interpret_response(200, two), Ok(String::from("")));
    let empty = String::from("{\"candidates\":[{\"content\":{\"parts\":[{\"text\":\"\"}]}}]}");
    assert_eq!(interpret_response(200, empty), Ok(String::from("")));
}

#[test]
fn trimming_counts_characters_not_bytes() {
    let body = String::from("{\"candidates\":[{\"content\":{\"parts\":[{\"text\":\"héllo!!\"}]}}]}");
    assert_eq!(interpret_response(200, body), Ok(String::from("héllo")));
    assert_eq!(trim_last_two("é!"), String::from(""));
    assert_eq!(trim_last_two("aé!"), String::from("a"));
}

#[test]
fn non_success_status_carries_upstream_body() {
    let r = interpret_response(404, String::from("boom"));
    assert_eq!(r, Err(RelayError::UpstreamError(404, String::from("boom"))));
    let msg = r.unwrap_err().message();
    assert_eq!(msg, String::from("API call failed with error: boom"));
}

#[test]
fn status_range_bounds() {
    let ok_body = String::from("{\"candidates\":[{\"content\":{\"parts\":[{\"text\":\"xyz\"}]}}]}");
    assert_eq!(interpret_response(299, ok_body), Ok(String::from("x")));
    assert!(matches!(
        interpret_response(300, String::from("redirect")),
        Err(RelayError::UpstreamError(300, _))
    ));
    assert!(matches!(
        interpret_response(199, String::from("huh")),
        Err(RelayError::UpstreamError(199, _))
    ));
    assert!(matches!(
        interpret_response(500, String::from("down")),
        Err(RelayError::UpstreamError(500, _))
    ));
}

#[test]
fn invalid_json_is_parse_error() {
    let r = interpret_response(200, String::from("not json at all"));
    assert_eq!(r, Err(RelayError::ParseError));
    assert_eq!(
        r.unwrap_err().message(),
        String::from("upstream response was not valid JSON")
    );
}

#[test]
fn missing_path_is_invalid_shape() {
    for body in [
        "{}",
        "null",
        "[]",
        "{\"candidates\":[]}",
        "{\"candidates\":{}}",
        "{\"candidates\":[{}]}",
        "{\"candidates\":[{\"content\":{}}]}",
        "{\"candidates\":[{\"content\":{\"parts\":[]}}]}",
        "{\"candidates\":[{\"content\":{\"parts\":[{}]}}]}",
        "{\"candidates\":[{\"content\":{\"parts\":[{\"text\":7}]}}]}",
        "{\"candidates\":[{\"content\":{\"parts\":[{\"text\":null}]}}]}",
        "{\"candidates\":[{\"content\":{\"parts\":{\"text\":\"x\"}}}]}",
    ] {
        let r = interpret_response(200, String::from(body));
        assert_eq!(r, Err(RelayError::InvalidResponseShape), "body: {}", body);
    }
    assert_eq!(
        RelayError::InvalidResponseShape.message(),
        String::from("Invalid response format")
    );
}

#[test]
fn missing_configuration_fails_without_any_call() {
    let r = load_config(None, Some(String::from("k")));
    assert!(matches!(r, Err(RelayError::ConfigMissing)));
    let r = load_config(Some(String::from("http://u")), None);
    assert!(matches!(r, Err(RelayError::ConfigMissing)));
    let r = load_config(None, None);
    assert!(matches!(r, Err(RelayError::ConfigMissing)));
    assert_eq!(
        RelayError::ConfigMissing.message(),
        String::from("upstream URL or API key is not configured")
    );
}

#[test]
fn present_configuration_is_kept_verbatim() {
    let r = load_config(Some(String::from("http://u")), Some(String::from("s3cret")));
    let c = r.ok().expect("config should load");
    assert_eq!(c.url, String::from("http://u"));
    assert_eq!(c.key, String::from("s3cret"));
}

#[test]
fn reply_maps_success_to_json_string() {
    let (status, body) = http_reply(&Ok(String::from("hi")));
    assert_eq!(status, 200);
    assert_eq!(body, String::from("\"hi\""));
    let (status, body) = http_reply(&Ok(String::from("a\"b\\c\nd")));
    assert_eq!(status, 200);
    assert_eq!(body, String::from("\"a\\\"b\\\\c\\nd\""));
}

#[test]
fn reply_maps_every_failure_to_500() {
    let cases: Vec<(RelayError, &str)> = vec![
        (RelayError::ConfigMissing, "upstream URL or API key is not configured"),
        (
            RelayError::NetworkFailure(String::from("connection refused")),
            "request to upstream failed: connection refused",
        ),
        (
            RelayError::UpstreamError(503, String::from("overloaded")),
            "API call failed with error: overloaded",
        ),
        (RelayError::ParseError, "upstream response was not valid JSON"),
        (RelayError::InvalidResponseShape, "Invalid response format"),
    ];
    for (err, msg) in cases {
        let (status, body) = http_reply(&Err(err));
        assert_eq!(status, 500);
        assert_eq!(body, String::from(msg));
    }
}
