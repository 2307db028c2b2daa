use the_axum::error::{
    ApiError, ApiErrorResponse, ApiKeyError, ApiKeyErrorType, BasicAuthError, BasicAuthErrorType, BearerError, BearerErrorType, ErrorBody,
    ErrorVerbosity, InternalServerError, JsonBodyError, JsonBodyErrorType, JsonRejection, JwtError, JwtErrorType,
    MethodNotAllowedError, NotFoundError, PathDeserializeKind, PathError, PathRejection, QueryError, QueryRejection,
    ValidationError,
};

fn headers_of(reply_headers: &[the_axum::error::ResponseHeader]) -> Vec<(String, String)> {
    reply_headers.iter().map(|h| (h.name.clone(), h.value.clone())).collect()
}

#[test]
fn default_verbosity_is_status_code() {
    assert_eq!(ErrorVerbosity::default(), ErrorVerbosity::StatusCode);
    assert!(ErrorVerbosity::Full.should_generate_error_context());
    assert!(!ErrorVerbosity::Type.should_generate_error_context());
}

#[test]
fn internal_errors_keep_their_text_at_full_only() {
    let e = InternalServerError::from_generic_error(ErrorVerbosity::Full, "disk on fire".to_string());
    assert_eq!(e.error.as_deref(), Some("disk on fire"));
    assert_eq!(e.status_code(), 500);
    let e = InternalServerError::from_generic_error(ErrorVerbosity::Type, "disk on fire".to_string());
    assert_eq!(e.error, None);
    let d = ApiError::default();
    assert!(matches!(d, ApiError::InternalServerError(ref e) if e.verbosity == ErrorVerbosity::StatusCode && e.error.is_none()));
}

#[test]
fn status_codes_of_every_kind() {
    let v = ErrorVerbosity::Full;
    assert_eq!(ApiError::from_generic_error(v, String::new()).status_code(), 500);
    assert_eq!(ApiError::MethodNotAllowed(MethodNotAllowedError::new(v)).status_code(), 405);
    assert_eq!(ApiError::NotFound(NotFoundError::new(v)).status_code(), 404);
    assert_eq!(ApiError::BasicAuth(BasicAuthError::new(v, BasicAuthErrorType::Invalid)).status_code(), 401);
    assert_eq!(ApiError::Bearer(BearerError::new(v, BearerErrorType::InvalidBearer)).status_code(), 401);
    assert_eq!(ApiError::Jwt(JwtError::new(v, JwtErrorType::ExpiredSignature)).status_code(), 401);
    assert_eq!(ApiError::Jwt(JwtError::new(v, JwtErrorType::Forbidden)).status_code(), 403);
    assert_eq!(ApiError::Validation(ValidationError::from_validation_errors(v, "x".to_string())).status_code(), 422);
}

#[test]
fn json_rejections_map_to_their_types() {
    let v = ErrorVerbosity::Full;
    let e = JsonBodyError::from_json_rejection(v, JsonRejection::JsonDataError { body_text: "bad data".to_string() }, Ok("schema".to_string()));
    match e {
        ApiError::JsonBody(ref b) => {
            assert_eq!(b.error_type, JsonBodyErrorType::DataError);
            assert_eq!(b.reason.as_deref(), Some("bad data"));
            assert_eq!(b.expected_schema.as_deref(), Some("schema"));
        },
        _ => panic!("expected a JSON body error"),
    }
    assert_eq!(e.status_code(), 422);
    let e = JsonBodyError::from_json_rejection(v, JsonRejection::JsonSyntaxError { body_text: "x".to_string() }, Ok(String::new()));
    assert_eq!(e.status_code(), 400);
    let e = JsonBodyError::from_json_rejection(
        ErrorVerbosity::Message,
        JsonRejection::MissingJsonContentType { body_text: "x".to_string() },
        Err("never read".to_string()),
    );
    match e {
        ApiError::JsonBody(ref b) => {
            assert_eq!(b.error_type, JsonBodyErrorType::MissingJsonContentType);
            assert_eq!(b.reason, None);
            assert_eq!(b.expected_schema, None);
        },
        _ => panic!("expected a JSON body error"),
    }
    assert_eq!(e.status_code(), 415);
    let e = JsonBodyError::from_json_rejection(v, JsonRejection::Other { error_text: "body too large".to_string() }, Ok(String::new()));
    assert!(matches!(e, ApiError::InternalServerError(ref i) if i.error.as_deref() == Some("body too large")));
    let e = JsonBodyError::from_json_rejection(v, JsonRejection::JsonDataError { body_text: "x".to_string() }, Err("yaml failed".to_string()));
    assert!(matches!(e, ApiError::InternalServerError(ref i) if i.error.as_deref() == Some("yaml failed")));
}

#[test]
fn query_and_path_rejections() {
    let e = QueryError::from_query_rejection(
        ErrorVerbosity::Full,
        QueryRejection::FailedToDeserializeQueryString { body_text: "missing field `id`".to_string() },
        Ok("id: integer".to_string()),
    );
    match e {
        ApiError::Query(ref q) => {
            assert_eq!(q.reason.as_deref(), Some("missing field `id`"));
            assert_eq!(q.expected_schema.as_deref(), Some("id: integer"));
        },
        _ => panic!("expected a query error"),
    }
    assert_eq!(e.status_code(), 400);
    let e = PathError::from_path_rejection(
        ErrorVerbosity::Full,
        PathRejection::FailedToDeserializePathParams {
            kind: PathDeserializeKind::ParseError,
            body_text: "cannot parse".to_string(),
            error_text: "error".to_string(),
        },
    );
    assert!(matches!(e, ApiError::Path(ref p) if p.reason.as_deref() == Some("cannot parse")));
    let e = PathError::from_path_rejection(
        ErrorVerbosity::Full,
        PathRejection::FailedToDeserializePathParams {
            kind: PathDeserializeKind::Other,
            body_text: "wrong number".to_string(),
            error_text: "wrong number of parameters".to_string(),
        },
    );
    assert!(matches!(e, ApiError::InternalServerError(ref i) if i.error.as_deref() == Some("wrong number of parameters")));
}

#[test]
fn replies_follow_the_verbosity() {
    let reply = ApiError::BasicAuth(BasicAuthError::new(ErrorVerbosity::NoContent, BasicAuthErrorType::AuthMissing)).into_reply();
    assert_eq!(reply.status, 204);
    assert!(reply.headers.is_empty());
    assert!(matches!(reply.body, ErrorBody::Empty));

    let reply = ApiError::BasicAuth(BasicAuthError::new(ErrorVerbosity::StatusCode, BasicAuthErrorType::AuthMissing)).into_reply();
    assert_eq!(reply.status, 401);
    assert_eq!(headers_of(&reply.headers), vec![("WWW-Authenticate".to_string(), "Basic".to_string())]);
    assert!(matches!(reply.body, ErrorBody::Empty));

    let reply = ApiError::Bearer(BearerError::new(ErrorVerbosity::Message, BearerErrorType::AuthMissing)).into_reply();
    assert_eq!(reply.status, 401);
    assert_eq!(headers_of(&reply.headers), vec![("WWW-Authenticate".to_string(), "Bearer".to_string())]);
    match reply.body {
        ErrorBody::Message(m) => assert_eq!(m.message, "Bearer auth error"),
        _ => panic!("expected a message"),
    }

    let reply = ApiError::NotFound(NotFoundError::new(ErrorVerbosity::Type)).into_reply();
    assert_eq!(reply.status, 404);
    assert!(reply.headers.is_empty());
    match reply.body {
        ErrorBody::Detailed(d) => {
            assert_eq!(d.message, "The requested resource was not found");
            assert!(matches!(d.error, ApiError::NotFound(_)));
        },
        _ => panic!("expected details"),
    }

    let reply = ApiError::Jwt(JwtError::new(ErrorVerbosity::Full, JwtErrorType::Forbidden)).into_reply();
    assert_eq!(reply.status, 403);
    match reply.body {
        ErrorBody::Detailed(d) => match d.error {
            ApiError::Jwt(j) => assert_eq!(j.reason.as_deref(), Some("User does not have a valid role")),
            _ => panic!("expected a JWT error"),
        },
        _ => panic!("expected details"),
    }
}

#[test]
fn message_is_empty_at_no_content() {
    let r = ApiErrorResponse::from_error(ApiError::NotFound(NotFoundError::new(ErrorVerbosity::NoContent)));
    assert_eq!(r.message, "");
    let r = ApiErrorResponse::from_error(ApiError::NotFound(NotFoundError::new(ErrorVerbosity::StatusCode)));
    assert_eq!(r.message, "The requested resource was not found");
}

#[test]
fn messages_of_every_kind() {
    let v = ErrorVerbosity::Full;
    assert_eq!(ApiError::from_generic_error(v, String::new()).message(), "An internal server error has occurred");
    assert_eq!(ApiError::MethodNotAllowed(MethodNotAllowedError::new(v)).message(), "Method not allowed");
    assert_eq!(ApiError::Validation(ValidationError::from_validation_errors(v, String::new())).message(), "Validation error");
    assert_eq!(ApiError::Jwt(JwtError::new(v, JwtErrorType::ExpiredSignature)).message(), "JWT error");
}

#[test]
fn type_verbosity_sends_the_error_without_content() {
    let reply = ApiError::ApiKey(ApiKeyError::new(ErrorVerbosity::Type, ApiKeyErrorType::Invalid)).into_reply();
    assert_eq!(reply.status, 403);
    match reply.body {
        ErrorBody::Detailed(d) => {
            assert_eq!(d.message, "API key error");
            match d.error {
                ApiError::ApiKey(k) => assert!(k.reason.is_none()),
                _ => panic!("expected an API key error"),
            }
        },
        _ => panic!("expected details"),
    }
    let reply = ApiError::ApiKey(ApiKeyError::new(ErrorVerbosity::Full, ApiKeyErrorType::Invalid)).into_reply();
    match reply.body {
        ErrorBody::Detailed(d) => match d.error {
            ApiError::ApiKey(k) => assert_eq!(k.reason.as_deref(), Some("API key invalid")),
            _ => panic!("expected an API key error"),
        },
        _ => panic!("expected details"),
    }
}
