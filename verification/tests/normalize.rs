use callsy::model::{NormalizationError, OutboundRequest, RequestSpec};
use callsy::normalize::normalize;

fn base_spec() -> RequestSpec {
    RequestSpec {
        url: b"https://example.test/x".to_vec(),
        method: b"get".to_vec(),
        headers: Vec::new(),
        body: None,
        body_path: None,
    }
}

fn header_value(req: &OutboundRequest, name: &[u8]) -> Option<Vec<u8>> {
    for (n, v) in req.headers.iter() {
        if n.as_slice() == name {
            return Some(v.clone());
        }
    }
    None
}

#[test]
fn inline_body_is_kept_verbatim() {
    let mut req = base_spec();
    req.body = Some(b"abc def".to_vec());
    let out = normalize(req, None).unwrap();
    assert_eq!(out.body, b"abc def".to_vec());
}

#[test]
fn file_body_is_kept_verbatim_with_trailing_newline() {
    let mut req = base_spec();
    req.body_path = Some(String::from("body.txt"));
    let out = normalize(req, Some(Ok(b"from a file\n".to_vec()))).unwrap();
    assert_eq!(out.body, b"from a file\n".to_vec());
}

#[test]
fn absent_body_resolves_to_empty() {
    let out = normalize(base_spec(), None).unwrap();
    assert_eq!(out.body, Vec::<u8>::new());
}

#[test]
fn both_body_sources_conflict() {
    let mut req = base_spec();
    req.body = Some(b"inline".to_vec());
    req.body_path = Some(String::from("body.txt"));
    req.method = b"bogus method".to_vec();
    req.headers = vec![(b"x-odd".to_vec(), None)];
    let err = normalize(req, None).unwrap_err();
    assert!(matches!(err, NormalizationError::ConflictingBodySource));
}

#[test]
fn unreadable_body_file_carries_cause() {
    let mut req = base_spec();
    req.body_path = Some(String::from("missing.txt"));
    let err = normalize(req, Some(Err(String::from("no such file")))).unwrap_err();
    match err {
        NormalizationError::BodySourceUnreadable(cause) => {
            assert_eq!(cause, String::from("no such file"));
        },
        _ => panic!("expected BodySourceUnreadable"),
    }
}

#[test]
fn method_is_case_insensitive() {
    for m in ["get", "GET", "Get", "gEt"] {
        let mut req = base_spec();
        req.method = m.as_bytes().to_vec();
        let out = normalize(req, None).unwrap();
        assert_eq!(out.method, b"GET".to_vec());
    }
}

#[test]
fn all_standard_verbs_are_accepted() {
    for m in ["head", "post", "put", "delete", "connect", "options", "trace", "patch"] {
        let mut req = base_spec();
        req.method = m.as_bytes().to_vec();
        let out = normalize(req, None).unwrap();
        assert_eq!(out.method, m.to_uppercase().as_bytes().to_vec());
    }
}

#[test]
fn unknown_verb_is_invalid_method() {
    let mut req = base_spec();
    req.method = b"FETCH".to_vec();
    let err = normalize(req, None).unwrap_err();
    match err {
        NormalizationError::InvalidMethod(m) => assert_eq!(m, b"FETCH".to_vec()),
        _ => panic!("expected InvalidMethod"),
    }
}

#[test]
fn explicit_header_values_are_copied() {
    let mut req = base_spec();
    req.headers = vec![
        (b"Accept".to_vec(), Some(b"text/plain".to_vec())),
        (b"X-Kind".to_vec(), Some(b"demo".to_vec())),
    ];
    let out = normalize(req, None).unwrap();
    assert_eq!(out.headers.len(), 2);
    assert_eq!(header_value(&out, b"Accept").unwrap(), b"text/plain".to_vec());
    assert_eq!(header_value(&out, b"X-Kind").unwrap(), b"demo".to_vec());
}

#[test]
fn null_content_length_is_derived_from_body() {
    let mut req = base_spec();
    req.body = Some(b"hi".to_vec());
    req.headers = vec![(b"content-length".to_vec(), None)];
    let out = normalize(req, None).unwrap();
    assert_eq!(header_value(&out, b"content-length").unwrap(), b"2".to_vec());
}

#[test]
fn null_content_length_matches_any_case() {
    let mut req = base_spec();
    req.body = Some(b"0123456789".to_vec());
    req.headers = vec![(b"Content-Length".to_vec(), None)];
    let out = normalize(req, None).unwrap();
    assert_eq!(header_value(&out, b"Content-Length").unwrap(), b"10".to_vec());
}

#[test]
fn null_content_length_of_empty_body_is_zero() {
    let mut req = base_spec();
    req.headers = vec![(b"content-length".to_vec(), None)];
    let out = normalize(req, None).unwrap();
    assert_eq!(header_value(&out, b"content-length").unwrap(), b"0".to_vec());
}

#[test]
fn other_null_header_is_unresolvable() {
    let mut req = base_spec();
    req.headers = vec![
        (b"Accept".to_vec(), Some(b"*/*".to_vec())),
        (b"x-mystery".to_vec(), None),
    ];
    let err = normalize(req, None).unwrap_err();
    match err {
        NormalizationError::UnresolvableHeader(name) => {
            assert_eq!(name, b"x-mystery".to_vec());
        },
        _ => panic!("expected UnresolvableHeader"),
    }
}

#[test]
fn duplicate_case_variant_headers_are_kept_separately() {
    let mut req = base_spec();
    req.headers = vec![
        (b"X-A".to_vec(), Some(b"1".to_vec())),
        (b"x-a".to_vec(), Some(b"2".to_vec())),
    ];
    let out = normalize(req, None).unwrap();
    assert_eq!(out.headers.len(), 2);
    assert_eq!(out.headers[0], (b"X-A".to_vec(), b"1".to_vec()));
    assert_eq!(out.headers[1], (b"x-a".to_vec(), b"2".to_vec()));
}

#[test]
fn malformed_url_is_rejected() {
    let mut req = base_spec();
    req.url = b"not a url at all".to_vec();
    let err = normalize(req, None).unwrap_err();
    assert!(matches!(err, NormalizationError::InvalidUrl(_)));
}

#[test]
fn relative_url_is_rejected() {
    let mut req = base_spec();
    req.url = b"relative/path".to_vec();
    let err = normalize(req, None).unwrap_err();
    assert!(matches!(err, NormalizationError::InvalidUrl(_)));
}

#[test]
fn absolute_url_is_kept() {
    let out = normalize(base_spec(), None).unwrap();
    assert_eq!(out.url, b"https://example.test/x".to_vec());
}
