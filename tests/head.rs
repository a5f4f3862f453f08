use webhook_relay::head::check_fields;
use webhook_relay::head::request_parts;
use webhook_relay::head::supported_method;
use webhook_relay::head::HeadError;
use webhook_relay::headers::HeaderMap;
use webhook_relay::message::Method;
use webhook_relay::message::Scheme;

#[test]
fn test_try_from_method_success() {
    assert!(supported_method(&Method::Get));
    assert!(supported_method(&Method::Post));
    assert!(supported_method(&Method::Put));
    assert!(supported_method(&Method::Patch));
    assert!(supported_method(&Method::Delete));
    assert!(supported_method(&Method::Head));
    assert!(supported_method(&Method::Options));
    assert!(supported_method(&Method::Trace));
}

#[test]
fn test_try_from_method_invalid() {
    assert!(!supported_method(&Method::Connect));
    assert!(!supported_method(&Method::Other("PURGE".to_string())));
}

#[test]
fn test_to_http_request_builder_success() {
    let scheme = Some(Scheme::Https);
    let authority = Some("example.com".to_string());
    let path_and_query = Some("/api/test?foo=bar".to_string());
    let method = Method::Get;

    let parts = request_parts(scheme, authority, path_and_query, method, HeaderMap::new())
        .expect("Should build request");

    assert!(matches!(parts.method, Method::Get));
    assert!(matches!(parts.scheme, Scheme::Https));
    assert_eq!(parts.authority, "example.com");
    assert_eq!(parts.path_with_query, "/api/test?foo=bar");
}

#[test]
fn test_to_http_request_builder_invalid_scheme() {
    let scheme = None;
    let authority = Some("example.com".to_string());
    let path_and_query = Some("/".to_string());
    let method = Method::Get;

    let result = request_parts(scheme, authority, path_and_query, method, HeaderMap::new());
    assert!(matches!(result, Err(HeadError::InvalidScheme)));
}

#[test]
fn test_to_http_request_builder_missing_authority() {
    let scheme = Some(Scheme::Http);
    let authority = None;
    let path_and_query = Some("/".to_string());
    let method = Method::Get;

    let result = request_parts(scheme, authority, path_and_query, method, HeaderMap::new());
    assert!(matches!(result, Err(HeadError::MissingAuthority)));
}

#[test]
fn test_to_http_request_builder_missing_path_and_query() {
    let scheme = Some(Scheme::Http);
    let authority = Some("example.com".to_string());
    let path_and_query = None;
    let method = Method::Get;

    let result = request_parts(scheme, authority, path_and_query, method, HeaderMap::new());
    assert!(matches!(result, Err(HeadError::MissingPathAndQuery)));
}

#[test]
fn request_parts_rejects_malformed_authority() {
    let result = request_parts(
        Some(Scheme::Http),
        Some("exa mple.com".to_string()),
        Some("/".to_string()),
        Method::Get,
        HeaderMap::new(),
    );
    assert!(matches!(result, Err(HeadError::InvalidAuthority)));
    assert_eq!(HeadError::InvalidAuthority.to_string(), "Invalid authority");
}

#[test]
fn request_parts_rejects_malformed_path() {
    let result = request_parts(
        Some(Scheme::Http),
        Some("example.com:8080".to_string()),
        Some("/a b".to_string()),
        Method::Get,
        HeaderMap::new(),
    );
    assert!(matches!(result, Err(HeadError::InvalidPathAndQuery)));
}

#[test]
fn request_parts_rejects_connect_and_other_schemes() {
    let connect = request_parts(
        Some(Scheme::Https),
        Some("example.com".to_string()),
        Some("/".to_string()),
        Method::Connect,
        HeaderMap::new(),
    );
    assert!(matches!(connect, Err(HeadError::InvalidMethod)));
    let ftp = request_parts(
        Some(Scheme::Other("ftp".to_string())),
        Some("example.com".to_string()),
        Some("/".to_string()),
        Method::Get,
        HeaderMap::new(),
    );
    assert!(matches!(ftp, Err(HeadError::InvalidScheme)));
}

#[test]
fn header_fields_are_checked() {
    let good = vec![
        ("content-type".to_string(), b"application/json".to_vec()),
        ("X-Custom".to_string(), b"a b c".to_vec()),
    ];
    assert!(check_fields(&good).is_ok());
    let bad_name = vec![("bad name".to_string(), b"v".to_vec())];
    assert!(matches!(check_fields(&bad_name), Err(HeadError::InvalidHeader)));
    let bad_value = vec![("x-ok".to_string(), b"line\nbreak".to_vec())];
    assert!(matches!(check_fields(&bad_value), Err(HeadError::InvalidHeader)));
    assert_eq!(HeadError::InvalidHeader.to_string(), "Invalid header");
}

#[test]
fn header_rules_at_the_edges() {
    let upper = vec![("X-UPPER_Case~1".to_string(), vec![b'\t', b' ', 0x80, b'~'])];
    assert!(check_fields(&upper).is_ok());
    let empty_name = vec![(String::new(), b"v".to_vec())];
    assert!(check_fields(&empty_name).is_err());
    let longest = vec![("a".repeat(65535), b"v".to_vec())];
    assert!(check_fields(&longest).is_ok());
    let too_long = vec![("a".repeat(65536), b"v".to_vec())];
    assert!(check_fields(&too_long).is_err());
    let del = vec![("x".to_string(), vec![127])];
    assert!(check_fields(&del).is_err());
    let colon = vec![("a:b".to_string(), b"v".to_vec())];
    assert!(check_fields(&colon).is_err());
}
