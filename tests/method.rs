use fetch_request::method::{
    is_cors_safelisted_method, is_forbidden_method, is_method, normalize_method,
    normalized_method_to_typed_method, parse_method_token, Method, MethodError,
};

#[test]
fn normalize_known_methods_any_case() {
    assert_eq!(normalize_method("get"), "GET");
    assert_eq!(normalize_method("Delete"), "DELETE");
    assert_eq!(normalize_method("oPtIoNs"), "OPTIONS");
    assert_eq!(normalize_method("head"), "HEAD");
    assert_eq!(normalize_method("post"), "POST");
    assert_eq!(normalize_method("put"), "PUT");
}

#[test]
fn normalize_keeps_extension_tokens() {
    assert_eq!(normalize_method("patch"), "patch");
    assert_eq!(normalize_method("MyMethod"), "MyMethod");
    assert_eq!(normalize_method(""), "");
}

#[test]
fn normalize_is_idempotent_on_samples() {
    for m in ["get", "GET", "Post", "patch", "PUT", "options", "x-y"] {
        let once = normalize_method(m);
        let twice = normalize_method(&once);
        assert_eq!(once, twice);
    }
    for canonical in ["GET", "HEAD", "POST", "PUT", "DELETE", "OPTIONS", "PATCH"] {
        assert_eq!(normalize_method(canonical), canonical);
    }
}

#[test]
fn typed_method_from_token() {
    assert_eq!(normalized_method_to_typed_method("GET"), Method::Get);
    assert_eq!(normalized_method_to_typed_method("OPTIONS"), Method::Options);
    assert_eq!(
        normalized_method_to_typed_method("PATCH"),
        Method::Extension("PATCH".to_string())
    );
    assert_eq!(
        normalized_method_to_typed_method("get"),
        Method::Extension("get".to_string())
    );
}

#[test]
fn recognized_and_forbidden_methods() {
    assert!(is_method(b"get"));
    assert!(is_method(b"CONNECT"));
    assert!(is_method(b"Trace"));
    assert!(!is_method(b"track"));
    assert!(!is_method(b"patch"));
    assert!(!is_method(b"ge"));
    assert!(!is_method(&[0xff, 0x65, 0x74]));
    assert!(is_forbidden_method(b"connect"));
    assert!(is_forbidden_method(b"TRACE"));
    assert!(is_forbidden_method(b"TrAcK"));
    assert!(!is_forbidden_method(b"post"));
}

#[test]
fn parse_method_token_outcomes() {
    assert_eq!(parse_method_token(b"post"), Ok(Method::Post));
    assert_eq!(parse_method_token(b"Put"), Ok(Method::Put));
    assert_eq!(parse_method_token(b"DELETE"), Ok(Method::Delete));
    assert_eq!(parse_method_token(b"CONNECT"), Err(MethodError::Forbidden));
    assert_eq!(parse_method_token(b"trace"), Err(MethodError::Forbidden));
    assert_eq!(parse_method_token(b"track"), Err(MethodError::NotAMethod));
    assert_eq!(parse_method_token(b"bogus"), Err(MethodError::NotAMethod));
}

#[test]
fn safelisted_methods() {
    assert!(is_cors_safelisted_method(&Method::Get));
    assert!(is_cors_safelisted_method(&Method::Head));
    assert!(is_cors_safelisted_method(&Method::Post));
    assert!(!is_cors_safelisted_method(&Method::Put));
    assert!(!is_cors_safelisted_method(&Method::Extension("GET".to_string())));
}

#[test]
fn method_token_text() {
    assert_eq!(Method::Delete.token(), "DELETE");
    assert_eq!(Method::Extension("Patch".to_string()).token(), "Patch");
}
