use coinbase_rs::error::{CBError, ErrorResponse};
use coinbase_rs::json::{FromJson, Json};
use coinbase_rs::request::{Error, ErrorKind};

#[test]
fn a_refusal_lists_its_complaints() {
    let body = br#"{"errors":[{"id":"a","message":"first"},{"id":"b","message":"second","url":"u"}],
        "warnings":[]}"#;
    let refusal = ErrorResponse::from_json(&Json::parse(body).unwrap()).unwrap();
    assert_eq!(refusal.errors.len(), 2);
    assert_eq!(refusal.errors[0].id, "a");
    assert_eq!(refusal.errors[1].message, "second");
}

#[test]
fn a_refusal_needs_its_complaints_whole() {
    let decode = |text: &str| ErrorResponse::from_json(&Json::parse(text.as_bytes()).unwrap());
    assert!(decode(r#"{"errors":[{"id":"a"}]}"#).is_none());
    assert!(decode(r#"{"errors":{"id":"a","message":"m"}}"#).is_none());
    assert!(decode(r#"{"error":"a"}"#).is_none());
    assert!(decode(r#"[]"#).is_none());
    assert!(decode(r#"{"errors":[]}"#).is_some());
}

#[test]
fn a_failure_to_build_becomes_a_failure_of_the_call() {
    let error = Error { kind: ErrorKind::MissingAuthority, cause: None };
    assert!(matches!(CBError::from_request(error), CBError::MissingAuthority));
    let error = Error { kind: ErrorKind::KeyLoad, cause: None };
    assert!(matches!(CBError::from_request(error), CBError::KeyLoad));
    let error = Error { kind: ErrorKind::SigningFailed, cause: Some("why".to_string()) };
    assert!(matches!(CBError::from_request(error), CBError::SigningFailed(c) if c == "why"));
    let error = Error { kind: ErrorKind::SigningFailed, cause: None };
    assert!(matches!(CBError::from_request(error), CBError::SigningFailed(c) if c.is_empty()));
}
