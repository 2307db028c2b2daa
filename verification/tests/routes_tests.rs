use the_axum::error::{ApiError, ErrorBody, ErrorVerbosity, BasicAuthErrorType};
use the_axum::extractor::json::ApiJson;
use the_axum::extractor::query::ApiQuery;
use the_axum::extractor::validated::Validated;
use the_axum::extractor::Extractor;
use the_axum::extractor::extractor::{ExtractorFromRequest, ExtractorFromRequestParts};
use the_axum::headers::RequestHeaders;
use the_axum::jwks::JwkRefreshPolicy;
use the_axum::middleware::basic_auth::future::{Kind, ResponseFuture};
use the_axum::middleware::basic_auth::layer::BasicAuthLayer;
use the_axum::middleware::basic_auth::provider::DummyAuthProvider;
use the_axum::middleware::basic_auth::service::BasicAuth;
use the_axum::middleware::method_not_allowed::method_not_allowed;
use the_axum::middleware::not_found::not_found;
use the_axum::route::api_key_protected::do_not_use_extension::do_not_use_extension;
use the_axum::route::books::get_book::{get_book, get_book_id_too_big, get_book_not_found, GetBookErrorType, GetBookQuery};
use the_axum::route::error::{default_api_error, internal_server_error};
use the_axum::route::post_json::echo_a_person::{echo_a_person, Person};
use the_axum::route::validated::validate_a_person::{validate_a_person, Person as ValidatedPerson};
use the_axum::state::ApiState;
use the_axum::utils::mask_fmt;

fn state(verbosity: ErrorVerbosity) -> ApiState {
    ApiState::new(verbosity, "x-api-key".to_string(), vec![], vec![], vec![], vec![])
}

fn query(id: i64) -> ApiQuery<GetBookQuery> {
    ApiQuery(GetBookQuery { id })
}

#[test]
fn get_book_answers_under_the_asked_id() {
    let book = get_book(query(42)).unwrap().book;
    assert_eq!(book.title, "The Catcher in the Rye");
    assert_eq!(book.author, "J.D. Salinger");
    assert_eq!(book.isbn, "978-0-316-76948-0");
    assert_eq!(book.year, 1951);
    assert_eq!(book.id, 42);
}

#[test]
fn book_not_found_carries_its_context_at_full() {
    let err = match get_book_not_found(query(7), &state(ErrorVerbosity::Full)) {
        Err(e) => e,
        Ok(_) => panic!("expected an error"),
    };
    assert_eq!(err.error_type, GetBookErrorType::NotFound { id: 7 });
    assert_eq!(err.context.as_ref().unwrap().reason, "Book with id 7 not found");
    let reply = err.into_reply();
    assert_eq!(reply.status, 404);
    assert!(reply.headers.is_empty());
    match reply.body {
        ErrorBody::Detailed(d) => assert_eq!(d.message, "Book not found"),
        _ => panic!("expected a detailed body"),
    }
}

#[test]
fn id_too_big_formats_negative_ids() {
    let err = match get_book_id_too_big(query(-3), &state(ErrorVerbosity::Full)) {
        Err(e) => e,
        Ok(_) => panic!("expected an error"),
    };
    assert_eq!(err.context.as_ref().unwrap().reason, "Id -3 is too big");
    assert_eq!(err.into_reply().status, 400);
}

#[test]
fn id_too_big_formats_extreme_ids() {
    let err = match get_book_id_too_big(query(i64::MIN), &state(ErrorVerbosity::Full)) {
        Err(e) => e,
        Ok(_) => panic!("expected an error"),
    };
    assert_eq!(err.context.as_ref().unwrap().reason, "Id -9223372036854775808 is too big");
}

#[test]
fn book_errors_follow_the_verbosity() {
    let err = match get_book_not_found(query(1), &state(ErrorVerbosity::Message)) {
        Err(e) => e,
        Ok(_) => panic!("expected an error"),
    };
    assert!(err.context.is_none());
    let reply = err.into_reply();
    assert_eq!(reply.status, 404);
    match reply.body {
        ErrorBody::Message(m) => assert_eq!(m.message, "Book not found"),
        _ => panic!("expected a message body"),
    }
    let err = match get_book_id_too_big(query(1), &state(ErrorVerbosity::NoContent)) {
        Err(e) => e,
        Ok(_) => panic!("expected an error"),
    };
    let reply = err.into_reply();
    assert_eq!(reply.status, 204);
    assert!(matches!(reply.body, ErrorBody::Empty));
    let err = match get_book_id_too_big(query(1), &state(ErrorVerbosity::StatusCode)) {
        Err(e) => e,
        Ok(_) => panic!("expected an error"),
    };
    let reply = err.into_reply();
    assert_eq!(reply.status, 400);
    assert!(matches!(reply.body, ErrorBody::Empty));
}

#[test]
fn unmatched_requests_are_not_found() {
    match not_found(&state(ErrorVerbosity::Type)) {
        ApiError::NotFound(e) => assert_eq!(e.verbosity, ErrorVerbosity::Type),
        other => panic!("unexpected {other:?}"),
    }
}

#[test]
fn only_405_becomes_method_not_allowed() {
    let s = state(ErrorVerbosity::Full);
    assert!(method_not_allowed(&s, 200).is_ok());
    assert!(method_not_allowed(&s, 404).is_ok());
    match method_not_allowed(&s, 405) {
        Err(ApiError::MethodNotAllowed(e)) => assert_eq!(e.verbosity, ErrorVerbosity::Full),
        other => panic!("unexpected {other:?}"),
    }
}

#[test]
fn internal_server_error_route() {
    let s = state(ErrorVerbosity::Full);
    assert!(internal_server_error(&s, Ok(())).is_ok());
    match internal_server_error(&s, Err("disk on fire".to_string())) {
        Err(ApiError::InternalServerError(e)) => assert_eq!(e.error.as_deref(), Some("disk on fire")),
        other => panic!("unexpected {other:?}"),
    }
    match internal_server_error(&state(ErrorVerbosity::Message), Err("disk on fire".to_string())) {
        Err(ApiError::InternalServerError(e)) => assert!(e.error.is_none()),
        other => panic!("unexpected {other:?}"),
    }
}

#[test]
fn default_error_is_internal_at_status_code() {
    match default_api_error() {
        ApiError::InternalServerError(e) => {
            assert_eq!(e.verbosity, ErrorVerbosity::StatusCode);
            assert!(e.error.is_none());
        },
        other => panic!("unexpected {other:?}"),
    }
}

#[test]
fn response_future_gives_its_error_once() {
    let mut fut: ResponseFuture<u32> = ResponseFuture::api_error(default_api_error());
    assert!(fut.inner_future().is_none());
    assert!(fut.take_api_error().is_some());
    assert!(fut.take_api_error().is_none());
    assert!(matches!(fut.kind, Kind::ApiError { api_error: None }));
}

#[test]
fn response_future_waits_on_the_inner_future() {
    let mut fut = ResponseFuture::future(5u32);
    assert!(fut.take_api_error().is_none());
    *fut.inner_future().unwrap() = 6;
    assert!(matches!(fut.kind, Kind::Future { future: 6 }));
}

fn authorization(value: &[u8]) -> RequestHeaders {
    let mut headers = RequestHeaders::new();
    assert!(headers.append("authorization", value.to_vec()));
    headers
}

#[test]
fn basic_auth_layer_forwards_credentials() {
    let layer = BasicAuthLayer::new(DummyAuthProvider);
    let service: BasicAuth<&str, DummyAuthProvider> = layer.layer("inner");
    assert_eq!(service.inner, "inner");
    let used = service.check_request(&authorization(b"Basic YWRtaW46c2VjcmV0")).unwrap();
    assert_eq!(used.username, "admin");
    assert_eq!(used.password.as_deref(), Some("secret"));
}

#[test]
fn basic_auth_layer_refuses_users_the_provider_rejects() {
    let service = BasicAuth::new((), DummyAuthProvider);
    // "root:secret"
    match service.check_request(&authorization(b"Basic cm9vdDpzZWNyZXQ=")) {
        Err(ApiError::BasicAuth(e)) => {
            assert_eq!(e.verbosity, ErrorVerbosity::Full);
            assert!(matches!(e.error_type, BasicAuthErrorType::Invalid));
            assert_eq!(e.reason.as_deref(), Some("Basic auth is invalid"));
        },
        Err(other) => panic!("unexpected {other:?}"),
        Ok(_) => panic!("expected a refusal"),
    }
}

#[test]
fn basic_auth_layer_refuses_at_full_verbosity() {
    let service = BasicAuth::new((), DummyAuthProvider);
    match service.check_request(&RequestHeaders::new()) {
        Err(ApiError::BasicAuth(e)) => {
            assert_eq!(e.verbosity, ErrorVerbosity::Full);
            assert!(matches!(e.error_type, BasicAuthErrorType::AuthMissing));
            assert!(e.reason.is_some());
        },
        Err(other) => panic!("unexpected {other:?}"),
        Ok(_) => panic!("expected a refusal"),
    }
}

#[test]
fn jwks_are_refreshed_after_their_time_to_live() {
    let policy = JwkRefreshPolicy::new(60);
    assert!(!policy.refresh_due(0));
    assert!(!policy.refresh_due(60));
    assert!(policy.refresh_due(61));
}

#[test]
fn masked_values_print_as_dots() {
    assert_eq!(mask_fmt(&"secret"), "...");
    assert_eq!(mask_fmt(&12345u32), "...");
}

fn validated_person(name: &str, age: u8) -> ValidatedPerson {
    ValidatedPerson { name: name.to_string(), age, is_alive: true, city: "Berlin".to_string() }
}

#[test]
fn validated_keeps_valid_data() {
    let inner = ApiJson(validated_person("Alexander", 30));
    let v = Validated::extract(inner, Ok(()), ErrorVerbosity::Full).unwrap();
    let person = validate_a_person(v);
    assert_eq!(person.name, "Alexander");
    assert_eq!(person.age, 30);
}

#[test]
fn validated_refuses_invalid_data() {
    let inner = ApiJson(validated_person("Al", 30));
    match Validated::extract(inner, Err("name: too short".to_string()), ErrorVerbosity::Full) {
        Err(ApiError::Validation(e)) => assert_eq!(e.reason.as_deref(), Some("name: too short")),
        Ok(_) => panic!("expected a refusal"),
        Err(other) => panic!("unexpected {other:?}"),
    }
    let inner = ApiJson(validated_person("Al", 30));
    match Validated::extract(inner, Err("name: too short".to_string()), ErrorVerbosity::Type) {
        Err(ApiError::Validation(e)) => assert!(e.reason.is_none()),
        Ok(_) => panic!("expected a refusal"),
        Err(other) => panic!("unexpected {other:?}"),
    }
}

#[test]
fn extractors_give_access_to_their_data() {
    let mut json = ApiJson(Person { name: "Bob".to_string(), age: 40, is_alive: false, city: "Paris".to_string() });
    assert_eq!(Extractor::extracted(&json).name, "Bob");
    json.extracted_mut().age = 41;
    let person = echo_a_person(json);
    assert_eq!(person.age, 41);
    assert_eq!(person.city, "Paris");
}

#[test]
fn extension_route_has_a_fixed_message() {
    assert_eq!(
        do_not_use_extension().message,
        "I was protected by an API key! but I have no use for it. I don't even know wich API key was used."
    );
}

#[test]
fn request_extractors_expose_their_data() {
    let q = query(9);
    assert_eq!(ExtractorFromRequestParts::extracted(&q).id, 9);
    let json = ApiJson(Person { name: "Eve".to_string(), age: 33, is_alive: true, city: "Rome".to_string() });
    assert_eq!(ExtractorFromRequest::extracted(&json).city, "Rome");
}

#[test]
fn json_body_needs_its_schema_at_every_verbosity() {
    let rejection = the_axum::error::JsonRejection::JsonSyntaxError { body_text: "bad json".to_string() };
    match ApiJson::<Person>::from_request(Err(rejection), ErrorVerbosity::Message, Err("no schema".to_string())) {
        Err(ApiError::InternalServerError(e)) => assert!(e.error.is_none()),
        Err(other) => panic!("unexpected {other:?}"),
        Ok(_) => panic!("expected a refusal"),
    }
    let rejection = the_axum::error::JsonRejection::JsonSyntaxError { body_text: "bad json".to_string() };
    match ApiJson::<Person>::from_request(Err(rejection), ErrorVerbosity::Message, Ok("schema".to_string())) {
        Err(ApiError::JsonBody(e)) => {
            assert!(e.reason.is_none());
            assert!(e.expected_schema.is_none());
        },
        Err(other) => panic!("unexpected {other:?}"),
        Ok(_) => panic!("expected a refusal"),
    }
}
