use the_axum::error::{ApiError, ApiKeyErrorType, BearerErrorType, ErrorVerbosity};
use the_axum::extractor::api_key::ApiKey;
use the_axum::extractor::bearer_token::ApiBearerToken;
use the_axum::extractor::optional::Optional;
use the_axum::extractor::valid_api_key::ValidApiKey;
use the_axum::headers::RequestHeaders;
use the_axum::state::ApiState;
use the_axum::types::used_api_key::UsedApiKey;

fn state(verbosity: ErrorVerbosity) -> ApiState {
    ApiState::new(
        verbosity,
        "X-Api-Key".to_string(),
        vec![UsedApiKey { api_key: "key-1".to_string() }, UsedApiKey { api_key: "key-2".to_string() }],
        vec![],
        vec![],
        vec![],
    )
}

fn headers(name: &str, value: &[u8]) -> RequestHeaders {
    let mut headers = RequestHeaders::new();
    assert!(headers.append(name, value.to_vec()));
    headers
}

#[test]
fn extracts_bearer_token() {
    let s = state(ErrorVerbosity::Full);
    let token = ApiBearerToken::from_request_parts(&headers("authorization", b"Bearer abc.def.ghi"), &s).unwrap();
    assert_eq!(token.0.value, "abc.def.ghi");
    let token = ApiBearerToken::from_request_parts(&headers("authorization", b"Bearer "), &s).unwrap();
    assert_eq!(token.0.value, "");
    let token = ApiBearerToken::from_request_parts(&headers("authorization", b"Bearer a b"), &s).unwrap();
    assert_eq!(token.0.value, "a b");
}

#[test]
fn bearer_errors() {
    let s = state(ErrorVerbosity::Full);
    match ApiBearerToken::from_request_parts(&RequestHeaders::new(), &s) {
        Err(ApiError::Bearer(e)) => {
            assert!(matches!(e.error_type, BearerErrorType::AuthMissing));
            assert_eq!(e.reason.as_deref(), Some("Authorization header is missing"));
        },
        _ => panic!("expected a bearer error"),
    }
    match ApiBearerToken::from_request_parts(&headers("authorization", b"Basic abc"), &s) {
        Err(ApiError::Bearer(e)) => {
            assert!(matches!(e.error_type, BearerErrorType::InvalidBearer));
            assert_eq!(e.reason.as_deref(), Some("Authorization header is invalid Bearer"));
        },
        _ => panic!("expected a bearer error"),
    }
    match ApiBearerToken::from_request_parts(&headers("authorization", &[b'B', 0x80]), &s) {
        Err(ApiError::Bearer(e)) => assert!(matches!(e.error_type, BearerErrorType::AuthInvalidChars { .. })),
        _ => panic!("expected a bearer error"),
    }
}

#[test]
fn bearer_token_split_law_example() {
    assert_eq!(ApiBearerToken::extract_bearer_token("Bearer t0k3n", ErrorVerbosity::Full).unwrap(), "t0k3n");
    assert!(ApiBearerToken::extract_bearer_token("Bearer", ErrorVerbosity::Full).is_err());
    assert!(ApiBearerToken::extract_bearer_token("bearer t", ErrorVerbosity::Full).is_err());
}

#[test]
fn extracts_api_key_from_named_header() {
    let s = state(ErrorVerbosity::Full);
    let key = ApiKey::from_request_parts(&headers("x-api-key", b"anything"), &s).unwrap();
    assert_eq!(key.0.api_key, "anything");
    match ApiKey::from_request_parts(&headers("authorization", b"key-1"), &s) {
        Err(ApiError::ApiKey(e)) => {
            assert!(matches!(e.error_type, ApiKeyErrorType::Missing));
            assert_eq!(e.reason.as_deref(), Some("API key is missing"));
        },
        _ => panic!("expected an API key error"),
    }
    match ApiKey::from_request_parts(&headers("x-api-key", &[0xe2, 0x82, 0xac]), &s) {
        Err(ApiError::ApiKey(e)) => {
            assert!(matches!(e.error_type, ApiKeyErrorType::InvalidChars { .. }));
            assert_eq!(e.reason.as_deref(), Some("API key contains invalid characters: failed to convert header to a str"));
        },
        _ => panic!("expected an API key error"),
    }
}

#[test]
fn validates_api_keys_against_the_configured_ones() {
    let s = state(ErrorVerbosity::Full);
    let key = ValidApiKey::from_request_parts(&headers("x-api-key", b"key-2"), &s).unwrap();
    assert_eq!(key.0.api_key, "key-2");
    match ValidApiKey::from_request_parts(&headers("x-api-key", b"key-3"), &s) {
        Err(ApiError::ApiKey(e)) => {
            assert!(matches!(e.error_type, ApiKeyErrorType::Invalid));
            assert_eq!(e.reason.as_deref(), Some("API key invalid"));
            assert_eq!(e.status_code(), 403);
        },
        _ => panic!("expected an API key error"),
    }
    assert!(s.validate("key-1"));
    assert!(!s.validate("KEY-1"));
}

#[test]
fn optional_extractor_never_fails() {
    let s = state(ErrorVerbosity::Full);
    let some = Optional::from_request_parts(ValidApiKey::from_request_parts(&headers("x-api-key", b"key-1"), &s));
    assert_eq!(some.0.map(|k| k.0.api_key), Some("key-1".to_string()));
    let none = Optional::from_request_parts(ValidApiKey::from_request_parts(&headers("x-api-key", b"nope"), &s));
    assert!(none.0.is_none());
}
