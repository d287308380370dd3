use http_adapter::surf_adapter::SurfError;
use http_adapter::text::{append_bytes_list, append_decimal};
use http_adapter::ureq_adapter::UreqError;

#[test]
fn decimal_numerals() {
    for n in [0u16, 7, 9, 10, 42, 99, 100, 103, 425, 999, 1000, 9999, 10000, 65535] {
        let mut text = String::from("n=");
        append_decimal(&mut text, n);
        assert_eq!(text, format!("n={n}"));
    }
}

#[test]
fn every_decimal_numeral() {
    for n in 0..=u16::MAX {
        let mut text = String::new();
        append_decimal(&mut text, n);
        assert_eq!(text, n.to_string());
    }
}

#[test]
fn byte_lists() {
    for bytes in [vec![], vec![0u8], vec![1, 2, 3], vec![255, 0, 128, 10]] {
        let mut text = String::from("v=");
        append_bytes_list(&mut text, &bytes);
        assert_eq!(text, format!("v={bytes:?}"));
    }
}

#[test]
fn surf_messages() {
    assert_eq!(SurfError::InvalidStatusCode(103).message(), "Invalid status code: 103");
    assert_eq!(SurfError::InvalidMethod("BREW".to_string()).message(), "Invalid method: BREW");
    assert_eq!(
        SurfError::InvalidHttpVersion("HTTP/4".to_string()).message(),
        "Invalid HTTP version: HTTP/4"
    );
    assert_eq!(
        SurfError::InvalidHeader("x-raw".to_string(), vec![102, 195, 169]).message(),
        "Invalid header: x-raw value: [102, 195, 169]"
    );
    assert_eq!(
        SurfError::InvalidHeader("x-none".to_string(), Vec::new()).message(),
        "Invalid header: x-none value: []"
    );
}

#[test]
fn surf_messages_of_outside_errors() {
    let parse = surf::Url::parse("nowhere").unwrap_err();
    assert_eq!(SurfError::InvalidUrl(parse).message(), format!("Invalid URL: {parse}"));

    let taken = http::Response::builder().header("bad name", "v").body(()).unwrap_err();
    let expected = taken.to_string();
    assert_eq!(SurfError::Http(taken).message(), expected);

    let failed = surf::Error::from_str(surf::StatusCode::BadGateway, "no route");
    let expected = failed.to_string();
    assert_eq!(SurfError::Surf(failed).message(), expected);
}

#[test]
fn ureq_messages() {
    assert_eq!(UreqError::InvalidStatusCode(99).message(), "Invalid status code: 99");
    assert_eq!(
        UreqError::InvalidHttpVersion("HTTP/4".to_string()).message(),
        "Invalid HTTP version: HTTP/4"
    );
    assert_eq!(
        UreqError::InternalCommunicationError("Waker send channel is closed".to_string())
            .message(),
        "Internal communication error: Waker send channel is closed"
    );
}

#[test]
fn ureq_messages_of_outside_values() {
    let value = http::HeaderValue::from_bytes(b"caf\xc3\xa9 \"x\"").unwrap();
    assert_eq!(
        UreqError::InvalidHeaderValue(value).message(),
        "Invalid header value: \"caf\\xc3\\xa9 \\\"x\\\"\""
    );

    let io = std::io::Error::new(std::io::ErrorKind::UnexpectedEof, "cut short");
    assert_eq!(UreqError::Io(io).message(), "cut short");

    assert_eq!(
        UreqError::Ureq(ureq::Error::ConnectionFailed).message(),
        ureq::Error::ConnectionFailed.to_string()
    );

    let taken = http::Request::builder().uri("\\").body(()).unwrap_err();
    let expected = taken.to_string();
    assert_eq!(UreqError::Http(taken).message(), expected);
}
