use http_adapter::schema::{Header, Method, Request, Version};
use http_adapter::surf_adapter::{
    from_request, from_request_with_url, headers_to_surf, SurfError, SurfMethod, SurfRequest,
    SurfVersion, TextHeader,
};

fn header(name: &str, value: &[u8]) -> Header {
    Header { name: name.to_string(), value: value.to_vec() }
}

fn get(uri: &str) -> Request {
    Request {
        method: Method::Get,
        uri: uri.to_string(),
        version: Version::Http11,
        headers: Vec::new(),
        body: Vec::new(),
    }
}

#[test]
fn get_request_is_converted() {
    let converted = from_request(get("https://www.example.com")).unwrap();
    assert_eq!(
        converted,
        SurfRequest {
            method: SurfMethod::Get,
            url: "https://www.example.com/".to_string(),
            version: SurfVersion::Http1_1,
            headers: Vec::new(),
            body: Vec::new(),
        }
    );
}

#[test]
fn url_is_the_one_surf_parses() {
    let converted = from_request(get("HTTP://Example.COM:80/a/../b?q=1")).unwrap();
    let parsed = surf::Url::parse("HTTP://Example.COM:80/a/../b?q=1").unwrap();
    assert_eq!(converted.url, parsed.as_str());
    assert_eq!(converted.url, "http://example.com/b?q=1");
}

#[test]
fn post_request_keeps_headers_and_body() {
    let request = Request {
        method: Method::Post,
        uri: "http://localhost/entries".to_string(),
        version: Version::Http2,
        headers: vec![
            header("authorization", b"Bearer 12345"),
            header("accept", b"text/plain"),
            header("accept", b"application/json\t;q=0.5"),
        ],
        body: b"{ \"value\": 42 }".to_vec(),
    };
    let converted = from_request(request).unwrap();
    assert_eq!(converted.method, SurfMethod::Post);
    assert_eq!(converted.url, "http://localhost/entries");
    assert_eq!(converted.version, SurfVersion::Http2_0);
    assert_eq!(
        converted.headers,
        vec![
            TextHeader { name: "authorization".to_string(), value: "Bearer 12345".to_string() },
            TextHeader { name: "accept".to_string(), value: "text/plain".to_string() },
            TextHeader {
                name: "accept".to_string(),
                value: "application/json\t;q=0.5".to_string()
            },
        ]
    );
    assert_eq!(converted.body, b"{ \"value\": 42 }".to_vec());
}

#[test]
fn header_value_that_is_not_text_is_refused() {
    let mut request = get("https://www.example.com");
    request.headers = vec![
        header("accept", b"text/plain"),
        header("x-raw", &[0x66, 0xC3, 0xA9]),
        header("x-later", &[0xFF]),
    ];
    let result = from_request(request);
    assert!(matches!(
        result,
        Err(SurfError::InvalidHeader(name, value)) if name == "x-raw" && value == [0x66, 0xC3, 0xA9]
    ));
}

#[test]
fn header_value_with_a_control_byte_is_refused() {
    let result = headers_to_surf(&vec![header("x-bell", &[0x07])]);
    assert!(matches!(
        result,
        Err(SurfError::InvalidHeader(name, value)) if name == "x-bell" && value == [0x07]
    ));
    let result = headers_to_surf(&vec![header("x-del", &[0x7F])]);
    assert!(matches!(result, Err(SurfError::InvalidHeader(_, _))));
}

#[test]
fn text_bytes_at_the_edges_are_accepted() {
    let converted = headers_to_surf(&vec![header("x-edges", &[0x20, 0x7E, 0x09])]).unwrap();
    assert_eq!(converted[0].value, " ~\t");
    let converted = headers_to_surf(&vec![header("x-empty", b"")]).unwrap();
    assert_eq!(converted[0].value, "");
}

#[test]
fn unshared_method_is_refused() {
    let mut request = get("https://www.example.com");
    request.method = Method::Other("PROPFIND".to_string());
    assert!(matches!(
        from_request(request),
        Err(SurfError::InvalidMethod(name)) if name == "PROPFIND"
    ));
}

#[test]
fn target_that_is_no_url_is_refused() {
    assert!(matches!(from_request(get("/only/a/path")), Err(SurfError::InvalidUrl(_))));
    assert!(matches!(from_request(get("")), Err(SurfError::InvalidUrl(_))));
    assert!(matches!(from_request(get("http://[broken")), Err(SurfError::InvalidUrl(_))));
}

#[test]
fn unsupported_version_is_refused() {
    let mut request = get("https://www.example.com");
    request.version = Version::Other("HTTP/4".to_string());
    assert!(matches!(
        from_request(request),
        Err(SurfError::InvalidHttpVersion(text)) if text == "HTTP/4"
    ));
}

#[test]
fn checks_come_in_order() {
    let everything_wrong = Request {
        method: Method::Other("BREW".to_string()),
        uri: "nowhere".to_string(),
        version: Version::Other("HTTP/4".to_string()),
        headers: vec![header("x-raw", &[0x80])],
        body: Vec::new(),
    };
    assert!(matches!(from_request(everything_wrong.clone()), Err(SurfError::InvalidMethod(_))));

    let mut request = everything_wrong.clone();
    request.method = Method::Get;
    assert!(matches!(from_request(request.clone()), Err(SurfError::InvalidUrl(_))));

    request.uri = "http://localhost/".to_string();
    assert!(matches!(from_request(request.clone()), Err(SurfError::InvalidHttpVersion(_))));

    request.version = Version::Http10;
    assert!(matches!(from_request(request.clone()), Err(SurfError::InvalidHeader(_, _))));

    request.headers.clear();
    assert_eq!(from_request(request).unwrap().version, SurfVersion::Http1_0);
}

#[test]
fn given_url_is_used_as_it_is() {
    let converted =
        from_request_with_url(get("ignored"), Ok("http://localhost/".to_string())).unwrap();
    assert_eq!(converted.url, "http://localhost/");
    let error = surf::Url::parse("nowhere").unwrap_err();
    let result = from_request_with_url(get("http://localhost/"), Err(error));
    assert!(matches!(result, Err(SurfError::InvalidUrl(e)) if e == error));
}
