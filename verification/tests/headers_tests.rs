use the_axum::headers::RequestHeaders;

#[test]
fn finds_headers_regardless_of_case() {
    let mut headers = RequestHeaders::new();
    assert!(headers.append("authorization", b"Basic abc".to_vec()));
    assert!(headers.append("x-api-key", b"secret".to_vec()));
    assert_eq!(headers.get("Authorization").map(|v| v.clone()), Some(b"Basic abc".to_vec()));
    assert_eq!(headers.get("X-API-KEY").map(|v| v.clone()), Some(b"secret".to_vec()));
    assert!(headers.get("accept").is_none());
}

#[test]
fn the_first_of_repeated_headers_is_found() {
    let mut headers = RequestHeaders::new();
    assert!(headers.append("x-api-key", b"first".to_vec()));
    assert!(headers.append("x-api-key", b"second".to_vec()));
    assert_eq!(headers.get("x-api-key").map(|v| v.clone()), Some(b"first".to_vec()));
}

#[test]
fn refuses_capital_names_and_invalid_values() {
    let mut headers = RequestHeaders::new();
    assert!(!headers.append("Authorization", b"x".to_vec()));
    assert!(!headers.append("authorization", vec![b'a', 0x7f]));
    assert!(!headers.append("authorization", vec![b'a', 0x0a]));
    assert!(headers.get("authorization").is_none());
}

#[test]
fn header_text_needs_visible_ascii() {
    let mut headers = RequestHeaders::new();
    assert!(headers.append("a", b"plain\ttext".to_vec()));
    assert!(headers.append("b", vec![b'x', 0xc3, 0xa9]));
    match headers.get_text("a") {
        Some(Ok(text)) => assert_eq!(text, "plain\ttext"),
        other => panic!("unexpected {:?}", other.map(|r| r.is_ok())),
    }
    assert!(matches!(headers.get_text("b"), Some(Err(_))));
    assert!(headers.get_text("c").is_none());
}
