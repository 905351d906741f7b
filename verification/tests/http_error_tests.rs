use database_common_lib::http_error::{http_response_error_text, Error};

#[test]
fn status_codes_by_kind() {
    assert_eq!(Error::InternalError("x".to_string()).status_code(), 500);
    assert_eq!(Error::Other("x".to_string()).status_code(), 500);
    assert_eq!(Error::Anyhow("x".to_string()).status_code(), 400);
    assert_eq!(Error::HeaderParse("x".to_string()).status_code(), 400);
}

#[test]
fn messages_by_kind() {
    assert_eq!(Error::Other("plain".to_string()).message(), "plain");
    assert_eq!(Error::Anyhow("boom".to_string()).message(), "an error has occurred: boom");
    assert_eq!(
        Error::HeaderParse("ToStrError { _priv: () }".to_string()).message(),
        "unable to parse headers: ToStrError { _priv: () }"
    );
    assert!(Error::InternalError("ignored".to_string())
        .message()
        .starts_with("an unspecified internal error occurred: "));
}

#[test]
fn error_response_without_stacktrace() {
    let r = Error::Anyhow("bad \"input\"".to_string()).error_response(None);
    assert_eq!(r.status, 400);
    assert_eq!(r.content_type, "application/json");
    assert_eq!(r.body, r#"{"message":"an error has occurred: bad \"input\"","status":400}"#);
    let v: serde_json::Value = serde_json::from_str(&r.body).unwrap();
    assert_eq!(v["status"], 400);
}

#[test]
fn error_response_with_stacktrace() {
    let r = Error::Other("down".to_string()).error_response(Some("at main\n"));
    assert_eq!(r.status, 500);
    assert_eq!(r.body, "{\"message\":\"down\",\"stacktrace\":\"at main\\n\",\"status\":500}");
    let mut expected = serde_json::Map::new();
    expected.insert("status".to_string(), serde_json::Value::from(500u16));
    expected.insert("message".to_string(), serde_json::Value::from("down"));
    expected.insert("stacktrace".to_string(), serde_json::Value::from("at main\n"));
    assert_eq!(r.body, serde_json::to_string(&serde_json::Value::Object(expected)).unwrap());
}

#[test]
fn http_response_error_names_reason() {
    assert_eq!(http_response_error_text(404), "HTTP response error: Not Found");
    assert_eq!(http_response_error_text(500), "HTTP response error: Internal Server Error");
    assert_eq!(http_response_error_text(299), "HTTP response error: ");
}

#[test]
fn error_body_escapes_control_characters() {
    let r = Error::Other("a\u{1}b\tc\\".to_string()).error_response(None);
    assert_eq!(r.body, "{\"message\":\"a\\u0001b\\tc\\\\\",\"status\":500}");
}
