use the_axum::error::{ApiError, BasicAuthErrorType, ErrorVerbosity};
use the_axum::extractor::authenticated_basic_auth::ApiAuthenticatedBasicAuth;
use the_axum::extractor::basic_auth::ApiBasicAuth;
use the_axum::foreign::Base64DecodeError;
use the_axum::headers::RequestHeaders;
use the_axum::middleware::basic_auth::provider::{BasicAuthProvider, DummyAuthProvider};
use the_axum::state::ApiState;
use the_axum::types::used_basic_auth::UsedBasicAuth;

fn headers_with_authorization(value: &str) -> RequestHeaders {
    let mut headers = RequestHeaders::new();
    assert!(headers.append("authorization", value.as_bytes().to_vec()));
    headers
}

fn state(verbosity: ErrorVerbosity) -> ApiState {
    ApiState::new(
        verbosity,
        "x-api-key".to_string(),
        vec![],
        vec![
            UsedBasicAuth { username: "user".to_string(), password: Some("pass".to_string()) },
            UsedBasicAuth { username: "nopass".to_string(), password: None },
        ],
        vec![],
        vec![],
    )
}

fn basic_error(err: ApiError) -> (BasicAuthErrorType, Option<String>) {
    match err {
        ApiError::BasicAuth(e) => (e.error_type, e.reason),
        other => panic!("not a basic auth error: {:?}", other),
    }
}

#[test]
fn extracts_username_and_password() {
    // "user:pass"
    let headers = headers_with_authorization("Basic dXNlcjpwYXNz");
    let ApiBasicAuth(used) = ApiBasicAuth::from_req_parts(&headers, ErrorVerbosity::Full).unwrap();
    assert_eq!(used.username, "user");
    assert_eq!(used.password.as_deref(), Some("pass"));
}

#[test]
fn credentials_without_colon_have_no_password() {
    // "user"
    let headers = headers_with_authorization("Basic dXNlcg==");
    let ApiBasicAuth(used) = ApiBasicAuth::from_req_parts(&headers, ErrorVerbosity::Full).unwrap();
    assert_eq!(used.username, "user");
    assert_eq!(used.password, None);
}

#[test]
fn password_keeps_later_colons() {
    assert_eq!(ApiBasicAuth::split("a:b:c".to_string()), ("a".to_string(), Some("b:c".to_string())));
    assert_eq!(ApiBasicAuth::split(":".to_string()), (String::new(), Some(String::new())));
    assert_eq!(ApiBasicAuth::split("abc".to_string()), ("abc".to_string(), None));
}

#[test]
fn missing_header_is_auth_missing() {
    let headers = RequestHeaders::new();
    let (t, reason) = basic_error(ApiBasicAuth::from_req_parts(&headers, ErrorVerbosity::Full).err().unwrap());
    assert!(matches!(t, BasicAuthErrorType::AuthMissing));
    assert_eq!(reason.as_deref(), Some("Authorization header is missing"));
}

#[test]
fn non_ascii_header_is_invalid_chars() {
    let mut headers = RequestHeaders::new();
    assert!(headers.append("authorization", vec![b'B', 0xff]));
    let (t, reason) = basic_error(ApiBasicAuth::from_req_parts(&headers, ErrorVerbosity::Full).err().unwrap());
    assert!(matches!(t, BasicAuthErrorType::AuthInvalidChars { .. }));
    assert_eq!(
        reason.as_deref(),
        Some("Authorization header contains invalid characters: failed to convert header to a str")
    );
}

#[test]
fn other_schemes_are_invalid_basic() {
    for value in ["Bearer abc", "basic dXNlcjpwYXNz", "Basic", "BasicdXNlcg=="] {
        let headers = headers_with_authorization(value);
        let (t, reason) = basic_error(ApiBasicAuth::from_req_parts(&headers, ErrorVerbosity::Full).err().unwrap());
        assert!(matches!(t, BasicAuthErrorType::InvalidBasic));
        assert_eq!(reason.as_deref(), Some("Authorization header is invalid Basic"));
    }
}

#[test]
fn bad_base64_is_decode_error() {
    let headers = headers_with_authorization("Basic !!!!");
    let (t, reason) = basic_error(ApiBasicAuth::from_req_parts(&headers, ErrorVerbosity::Full).err().unwrap());
    assert!(matches!(t, BasicAuthErrorType::Decode { err: Base64DecodeError::InvalidByte(0, 33) }));
    assert_eq!(reason.as_deref(), Some("Authorization header could not be decoded: Invalid symbol 33, offset 0."));
    let headers = headers_with_authorization("Basic dXNlcg");
    let (t, reason) = basic_error(ApiBasicAuth::from_req_parts(&headers, ErrorVerbosity::Full).err().unwrap());
    assert!(matches!(t, BasicAuthErrorType::Decode { err: Base64DecodeError::InvalidPadding }));
    assert_eq!(reason.as_deref(), Some("Authorization header could not be decoded: Invalid padding"));
}

#[test]
fn invalid_utf8_is_reported() {
    // base64 of the bytes ff fe
    let headers = headers_with_authorization("Basic //4=");
    let (t, reason) = basic_error(ApiBasicAuth::from_req_parts(&headers, ErrorVerbosity::Full).err().unwrap());
    assert!(matches!(t, BasicAuthErrorType::AuthInvalidUTF8 { .. }));
    assert!(reason.unwrap().starts_with("Decoded authorization header contains invalid characters: "));
}

#[test]
fn reasons_are_dropped_below_full_verbosity() {
    let headers = RequestHeaders::new();
    for verbosity in [ErrorVerbosity::NoContent, ErrorVerbosity::StatusCode, ErrorVerbosity::Message, ErrorVerbosity::Type] {
        let (t, reason) = basic_error(ApiBasicAuth::from_req_parts(&headers, verbosity).err().unwrap());
        assert!(matches!(t, BasicAuthErrorType::AuthMissing));
        assert_eq!(reason, None);
    }
}

#[test]
fn authenticates_configured_users_only() {
    let s = state(ErrorVerbosity::Full);
    let ok = ApiAuthenticatedBasicAuth::from_request_parts(&headers_with_authorization("Basic dXNlcjpwYXNz"), true, &s).unwrap();
    assert_eq!(ok.0.username, "user");
    // "user:wrong"
    let err = ApiAuthenticatedBasicAuth::from_request_parts(&headers_with_authorization("Basic dXNlcjp3cm9uZw=="), true, &s)
        .err()
        .unwrap();
    let (t, reason) = basic_error(err);
    assert!(matches!(t, BasicAuthErrorType::Invalid));
    assert_eq!(reason.as_deref(), Some("Basic auth is invalid"));
    // "nopass" with no password matches the user without one; "nopass:" does not
    assert!(ApiAuthenticatedBasicAuth::from_request_parts(&headers_with_authorization("Basic bm9wYXNz"), true, &s).is_ok());
    assert!(ApiAuthenticatedBasicAuth::from_request_parts(&headers_with_authorization("Basic bm9wYXNzOg=="), true, &s).is_err());
}

#[test]
fn state_authenticate_compares_username_and_password() {
    let s = state(ErrorVerbosity::Full);
    assert!(s.authenticate("user", Some("pass")));
    assert!(!s.authenticate("user", None));
    assert!(!s.authenticate("User", Some("pass")));
    assert!(s.authenticate("nopass", None));
    assert!(!s.authenticate("nopass", Some("")));
}

#[test]
fn dummy_provider_accepts_admin_only() {
    assert!(DummyAuthProvider.authenticate("admin", None));
    assert!(DummyAuthProvider.authenticate("admin", Some("anything")));
    assert!(!DummyAuthProvider.authenticate("Admin", None));
    assert!(!DummyAuthProvider.authenticate("guest", Some("admin")));
}

#[test]
fn requests_that_missed_the_layer_are_internal_errors() {
    let s = state(ErrorVerbosity::Full);
    // "user:pass" would be accepted, but the request did not pass the basic auth layer.
    match ApiAuthenticatedBasicAuth::from_request_parts(&headers_with_authorization("Basic dXNlcjpwYXNz"), false, &s) {
        Err(ApiError::InternalServerError(e)) => {
            assert_eq!(e.error.as_deref(), Some("The request has not been processed by the basic auth middleware"))
        },
        Err(other) => panic!("unexpected {other:?}"),
        Ok(_) => panic!("expected a refusal"),
    }
    match ApiAuthenticatedBasicAuth::from_request_parts(&RequestHeaders::new(), false, &state(ErrorVerbosity::Message)) {
        Err(ApiError::InternalServerError(e)) => assert!(e.error.is_none()),
        Err(other) => panic!("unexpected {other:?}"),
        Ok(_) => panic!("expected a refusal"),
    }
}
