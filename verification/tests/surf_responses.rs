use http_adapter::schema::{Header, Version};
use http_adapter::surf_adapter::{
    headers_from_surf, response_head, to_response, SurfError, SurfResponse, SurfStatusCode,
    SurfVersion, TextHeader,
};

fn text_header(name: &str, value: &str) -> TextHeader {
    TextHeader { name: name.to_string(), value: value.to_string() }
}

fn ok_response(headers: Vec<TextHeader>) -> SurfResponse {
    SurfResponse { status: SurfStatusCode::Okay, version: Some(SurfVersion::Http1_1), headers }
}

#[test]
fn seeded_response_is_converted() {
    let seeded = ok_response(vec![text_header("content-type", "text/plain")]);
    let response = to_response(seeded, b"hello".to_vec()).unwrap();
    assert_eq!(response.status.as_u16(), 200);
    assert_eq!(response.version, Version::Http11);
    assert_eq!(
        response.headers,
        vec![Header { name: "content-type".to_string(), value: b"text/plain".to_vec() }]
    );
    assert_eq!(response.body, b"hello".to_vec());
    assert!(!response.body.is_empty());
}

#[test]
fn missing_version_is_http_11() {
    let seeded = SurfResponse {
        status: SurfStatusCode::NotFound,
        version: None,
        headers: Vec::new(),
    };
    let response = to_response(seeded, Vec::new()).unwrap();
    assert_eq!(response.status.as_u16(), 404);
    assert_eq!(response.version, Version::Http11);
}

#[test]
fn header_names_are_normalized() {
    let headers = headers_from_surf(&vec![
        text_header("Content-Type", "text/plain"),
        text_header("X-Custom-Header", "Mixed Case Value"),
    ])
    .unwrap();
    assert_eq!(headers[0].name, "content-type");
    assert_eq!(headers[1].name, "x-custom-header");
    assert_eq!(headers[1].value, b"Mixed Case Value".to_vec());
}

#[test]
fn header_values_become_their_bytes() {
    let headers = headers_from_surf(&vec![text_header("x-word", "caf\u{e9}")]).unwrap();
    assert_eq!(headers[0].value, vec![0x63, 0x61, 0x66, 0xC3, 0xA9]);
}

#[test]
fn headers_keep_their_order() {
    let headers = headers_from_surf(&vec![
        text_header("set-cookie", "a=1"),
        text_header("vary", "accept"),
        text_header("set-cookie", "b=2"),
    ])
    .unwrap();
    let names: Vec<&str> = headers.iter().map(|h| h.name.as_str()).collect();
    assert_eq!(names, vec!["set-cookie", "vary", "set-cookie"]);
    assert_eq!(headers[2].value, b"b=2".to_vec());
}

#[test]
fn header_name_that_is_no_token_is_refused() {
    let result = to_response(ok_response(vec![text_header("bad name", "v")]), Vec::new());
    assert!(matches!(result, Err(SurfError::Http(_))));
    let result = to_response(ok_response(vec![text_header("", "v")]), Vec::new());
    assert!(matches!(result, Err(SurfError::Http(_))));
}

#[test]
fn header_value_with_a_control_character_is_refused() {
    let result = to_response(ok_response(vec![text_header("x-bell", "a\u{7}b")]), Vec::new());
    assert!(matches!(result, Err(SurfError::Http(_))));
    let result = to_response(ok_response(vec![text_header("x-del", "\u{7f}")]), Vec::new());
    assert!(matches!(result, Err(SurfError::Http(_))));
    let result = to_response(ok_response(vec![text_header("x-tab", "a\tb")]), Vec::new());
    assert!(result.is_ok());
}

#[test]
fn uncovered_status_is_refused_before_anything_else() {
    let seeded = SurfResponse {
        status: SurfStatusCode::EarlyHints,
        version: Some(SurfVersion::Other("HTTP/4".to_string())),
        headers: vec![text_header("bad name", "v")],
    };
    assert!(matches!(
        to_response(seeded, Vec::new()),
        Err(SurfError::InvalidStatusCode(103))
    ));
    let seeded = SurfResponse {
        status: SurfStatusCode::TooEarly,
        version: None,
        headers: Vec::new(),
    };
    assert!(matches!(
        to_response(seeded, Vec::new()),
        Err(SurfError::InvalidStatusCode(425))
    ));
}

#[test]
fn unknown_version_is_refused_before_the_headers() {
    let seeded = SurfResponse {
        status: SurfStatusCode::Okay,
        version: Some(SurfVersion::Other("HTTP/4".to_string())),
        headers: vec![text_header("bad name", "v")],
    };
    assert!(matches!(
        to_response(seeded, Vec::new()),
        Err(SurfError::InvalidHttpVersion(text)) if text == "HTTP/4"
    ));
}

#[test]
fn head_is_checked_without_the_body() {
    let (status, version) =
        response_head(SurfStatusCode::Created, &Some(SurfVersion::Http2_0)).unwrap();
    assert_eq!(status.as_u16(), 201);
    assert_eq!(version, Version::Http2);
    let (_, version) = response_head(SurfStatusCode::Created, &None).unwrap();
    assert_eq!(version, Version::Http11);
    assert!(matches!(
        response_head(SurfStatusCode::EarlyHints, &None),
        Err(SurfError::InvalidStatusCode(103))
    ));
    assert!(matches!(
        response_head(SurfStatusCode::Okay, &Some(SurfVersion::Other("HTTP/9".to_string()))),
        Err(SurfError::InvalidHttpVersion(text)) if text == "HTTP/9"
    ));
}
