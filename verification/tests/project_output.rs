use callsy::model::{InboundResponse, OutputDocument, ProjectionError, RequestSpec};
use callsy::normalize::normalize;
use callsy::output::serialize_response;
use callsy::project::convert_response;

fn parse_json(bytes: &[u8]) -> serde_json::Value {
    serde_json::from_slice(bytes).expect("rendered document must be valid JSON")
}

fn doc_value(status_code: &str, headers: &[(&str, &str)], body: &str) -> serde_json::Value {
    let mut header_map = serde_json::Map::new();
    for (n, v) in headers {
        header_map.insert(
            String::from(*n),
            serde_json::Value::String(String::from(*v)),
        );
    }
    let mut map = serde_json::Map::new();
    map.insert(String::from("headers"), serde_json::Value::Object(header_map));
    map.insert(
        String::from("status_code"),
        serde_json::Value::String(String::from(status_code)),
    );
    map.insert(String::from("body"), serde_json::Value::String(String::from(body)));
    serde_json::Value::Object(map)
}

#[test]
fn projection_keeps_status_headers_and_body() {
    let resp = InboundResponse {
        status: 200,
        headers: vec![(b"x-a".to_vec(), Some(b"1".to_vec()))],
        body: Ok(b"ok".to_vec()),
    };
    let doc = convert_response(resp).unwrap();
    assert_eq!(doc.status_code, b"200".to_vec());
    assert_eq!(doc.headers, vec![(b"x-a".to_vec(), b"1".to_vec())]);
    assert_eq!(doc.body, b"ok".to_vec());
}

#[test]
fn undecodable_header_value_degrades_to_empty() {
    let resp = InboundResponse {
        status: 204,
        headers: vec![
            (b"x-good".to_vec(), Some(b"v".to_vec())),
            (b"x-bad".to_vec(), None),
        ],
        body: Ok(Vec::new()),
    };
    let doc = convert_response(resp).unwrap();
    assert_eq!(doc.headers, vec![
        (b"x-good".to_vec(), b"v".to_vec()),
        (b"x-bad".to_vec(), Vec::new()),
    ]);
}

#[test]
fn undecodable_body_is_fatal() {
    let resp = InboundResponse {
        status: 200,
        headers: Vec::new(),
        body: Err(String::from("not text")),
    };
    let err = convert_response(resp).unwrap_err();
    match err {
        ProjectionError::BodyDecodeError(cause) => assert_eq!(cause, String::from("not text")),
    }
}

#[test]
fn status_code_renders_in_decimal() {
    let resp = InboundResponse { status: 404, headers: Vec::new(), body: Ok(Vec::new()) };
    let doc = convert_response(resp).unwrap();
    assert_eq!(doc.status_code, b"404".to_vec());
}

#[test]
fn rendered_document_round_trips_through_json() {
    let resp = InboundResponse {
        status: 200,
        headers: vec![(b"x-a".to_vec(), Some(b"1".to_vec()))],
        body: Ok(b"ok".to_vec()),
    };
    let doc = convert_response(resp).unwrap();
    let rendered = serialize_response(&doc);
    let parsed = parse_json(&rendered);
    assert_eq!(parsed, doc_value("200", &[("x-a", "1")], "ok"));
    let rendered_again = serialize_response(&doc);
    assert_eq!(parse_json(&rendered_again), parsed);
}

#[test]
fn rendering_escapes_quotes_backslashes_and_control_bytes() {
    let doc = OutputDocument {
        status_code: b"200".to_vec(),
        headers: vec![(b"x-q".to_vec(), b"say \"hi\"\\now".to_vec())],
        body: b"line one\nline two\ttabbed".to_vec(),
    };
    let rendered = serialize_response(&doc);
    let parsed = parse_json(&rendered);
    assert_eq!(
        parsed,
        doc_value("200", &[("x-q", "say \"hi\"\\now")], "line one\nline two\ttabbed")
    );
}

#[test]
fn empty_document_renders_as_empty_members() {
    let doc = OutputDocument {
        status_code: b"204".to_vec(),
        headers: Vec::new(),
        body: Vec::new(),
    };
    let rendered = serialize_response(&doc);
    assert_eq!(
        String::from_utf8(rendered).unwrap(),
        "{\"headers\":{},\"status_code\":\"204\",\"body\":\"\"}"
    );
}

#[test]
fn end_to_end_scenario_with_echoing_transport() {
    let req = RequestSpec {
        url: b"https://example.test/x".to_vec(),
        method: b"post".to_vec(),
        headers: vec![(b"content-length".to_vec(), None)],
        body: Some(b"payload".to_vec()),
        body_path: None,
    };
    let outbound = normalize(req, None).unwrap();
    assert_eq!(outbound.method, b"POST".to_vec());
    assert_eq!(outbound.headers, vec![(b"content-length".to_vec(), b"7".to_vec())]);

    let mock_response = InboundResponse {
        status: 201,
        headers: Vec::new(),
        body: Ok(b"created".to_vec()),
    };
    let doc = convert_response(mock_response).unwrap();
    let rendered = serialize_response(&doc);
    assert_eq!(parse_json(&rendered), doc_value("201", &[], "created"));
}
