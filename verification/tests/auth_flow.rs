use pan::auth::{
    authorization_step, check_authorization, complete_authorization, ApiKeyError, AuthStep, Token,
};

fn verified_token() -> Token {
    complete_authorization(
        "example-credential".to_string(),
        Some("me=https://example.test"),
        "https://example.test",
    )
    .expect("a matching introspection reply must verify")
}

#[test]
fn missing_authorization_header_is_rejected() {
    let headers: Vec<String> = vec![];
    let step = authorization_step(&headers);
    assert!(matches!(step, AuthStep::Reject(ApiKeyError::Missing)));
}

#[test]
fn two_authorization_headers_are_rejected() {
    let headers = vec!["token-one".to_string(), "token-two".to_string()];
    let step = authorization_step(&headers);
    assert!(matches!(step, AuthStep::Reject(ApiKeyError::BadCount)));
}

#[test]
fn three_authorization_headers_are_rejected() {
    let headers = vec!["a".to_string(), "b".to_string(), "c".to_string()];
    let step = authorization_step(&headers);
    assert!(matches!(step, AuthStep::Reject(ApiKeyError::BadCount)));
}

#[test]
fn single_authorization_header_goes_to_introspection() {
    let headers = vec!["the-credential".to_string()];
    let step = authorization_step(&headers);
    match step {
        AuthStep::Introspect(credential) => assert_eq!(credential, "the-credential"),
        AuthStep::Reject(_) => panic!("a lone header must be introspected"),
    }
}

#[test]
fn introspection_with_matching_me_succeeds() {
    assert!(check_authorization(
        "me=https://example.test",
        "https://example.test"
    ));
}

#[test]
fn introspection_with_percent_encoded_me_succeeds() {
    assert!(check_authorization(
        "me=https%3A%2F%2Fexample.test&scope=create",
        "https://example.test"
    ));
}

#[test]
fn introspection_me_among_other_pairs_succeeds() {
    assert!(check_authorization(
        "scope=create&client_id=abc&me=https://example.test",
        "https://example.test"
    ));
}

#[test]
fn introspection_with_other_identity_fails() {
    assert!(!check_authorization(
        "me=https://intruder.test",
        "https://example.test"
    ));
}

#[test]
fn introspection_without_me_fails() {
    assert!(!check_authorization(
        "scope=create&client_id=abc",
        "https://example.test"
    ));
}

#[test]
fn introspection_with_empty_body_fails() {
    assert!(!check_authorization("", "https://example.test"));
}

#[test]
fn complete_authorization_mints_token_on_match() {
    let token = verified_token();
    assert_eq!(token.credential().as_str(), "example-credential");
}

#[test]
fn complete_authorization_rejects_mismatch_as_invalid() {
    let outcome = complete_authorization(
        "example-credential".to_string(),
        Some("me=https://intruder.test"),
        "https://example.test",
    );
    assert!(matches!(outcome, Err(ApiKeyError::Invalid)));
}

#[test]
fn complete_authorization_reports_unreachable_service() {
    let outcome = complete_authorization(
        "example-credential".to_string(),
        None,
        "https://example.test",
    );
    assert!(matches!(outcome, Err(ApiKeyError::Unreachable)));
}
