//! The neutral request and response schema shared by every adapter.
//!
//! The values here are plain data: a request is a method, a target, a protocol
//! version, an ordered list of headers and a body; a response is a status code
//! with the same version, headers and body. Contracts elsewhere in the crate
//! are stated over the views defined in this module.

use vstd::prelude::*;

verus! {

/// An HTTP request method.
#[derive(Clone, Debug, PartialEq, Eq)]
pub enum Method {
    Get,
    Post,
    Put,
    Patch,
    Delete,
    Head,
    Connect,
    Options,
    Trace,
    /// Any other method, named by its token.
    Other(String),
}

/// The mathematical value of a [`Method`].
pub enum MethodView {
    Get,
    Post,
    Put,
    Patch,
    Delete,
    Head,
    Connect,
    Options,
    Trace,
    Other(Seq<char>),
}

impl View for Method {
    type V = MethodView;

    open spec fn view(&self) -> MethodView {
        match self {
            Method::Get => MethodView::Get,
            Method::Post => MethodView::Post,
            Method::Put => MethodView::Put,
            Method::Patch => MethodView::Patch,
            Method::Delete => MethodView::Delete,
            Method::Head => MethodView::Head,
            Method::Connect => MethodView::Connect,
            Method::Options => MethodView::Options,
            Method::Trace => MethodView::Trace,
            Method::Other(token) => MethodView::Other(token@),
        }
    }
}

/// A version of the HTTP protocol.
#[derive(Clone, Debug, PartialEq, Eq)]
pub enum Version {
    /// HTTP/0.9
    Http09,
    /// HTTP/1.0
    Http10,
    /// HTTP/1.1
    Http11,
    /// HTTP/2
    Http2,
    /// HTTP/3
    Http3,
    /// A version outside the five above, by its textual form.
    Other(String),
}

/// The mathematical value of a [`Version`].
pub enum VersionView {
    Http09,
    Http10,
    Http11,
    Http2,
    Http3,
    Other(Seq<char>),
}

impl View for Version {
    type V = VersionView;

    open spec fn view(&self) -> VersionView {
        match self {
            Version::Http09 => VersionView::Http09,
            Version::Http10 => VersionView::Http10,
            Version::Http11 => VersionView::Http11,
            Version::Http2 => VersionView::Http2,
            Version::Http3 => VersionView::Http3,
            Version::Other(text) => VersionView::Other(text@),
        }
    }
}

/// Smallest status code the schema admits.
pub const MIN_STATUS_CODE: u16 = 100;

/// Largest status code the schema admits.
pub const MAX_STATUS_CODE: u16 = 999;

/// Whether `code` is a status code of the schema.
pub open spec fn is_status_code(code: u16) -> bool {
    MIN_STATUS_CODE <= code <= MAX_STATUS_CODE
}

/// A response status code, always between 100 and 999.
#[derive(Clone, Copy, Debug, PartialEq, Eq)]
pub struct StatusCode {
    code: u16,
}

impl StatusCode {
    #[verifier::type_invariant]
    spec fn in_range(self) -> bool {
        is_status_code(self.code)
    }

    /// The numeric code.
    pub closed spec fn code(self) -> u16 {
        self.code
    }

    /// The status with the given numeric code, if the schema admits it.
    pub fn from_u16(code: u16) -> (status: Option<StatusCode>)
        ensures
            status is Some <==> is_status_code(code),
            status matches Some(s) ==> s.code() == code,
    {
        if MIN_STATUS_CODE <= code && code <= MAX_STATUS_CODE {
            Some(StatusCode { code })
        } else {
            None
        }
    }

    /// The numeric code.
    pub fn as_u16(&self) -> (code: u16)
        ensures
            code == self.code(),
            is_status_code(code),
    {
        proof {
            use_type_invariant(self);
        }
        self.code
    }
}

/// One header line: a name and the bytes of its value.
#[derive(Clone, Debug, PartialEq, Eq)]
pub struct Header {
    pub name: String,
    pub value: Vec<u8>,
}

/// The mathematical value of a [`Header`].
pub struct HeaderView {
    pub name: Seq<char>,
    pub value: Seq<u8>,
}

impl View for Header {
    type V = HeaderView;

    open spec fn view(&self) -> HeaderView {
        HeaderView { name: self.name@, value: self.value@ }
    }
}

/// Whether `b` may appear in a header value that reads as text: a printable
/// ASCII byte, a space or a tab.
pub open spec fn is_text_byte(b: u8) -> bool {
    (32 <= b && b < 127) || b == 9
}

/// Whether every byte of `bytes` is a text byte.
pub open spec fn is_text(bytes: Seq<u8>) -> bool {
    forall|i: int| 0 <= i < bytes.len() ==> is_text_byte(#[trigger] bytes[i])
}

/// The characters that the bytes of a text value stand for.
pub open spec fn text_of(bytes: Seq<u8>) -> Seq<char> {
    Seq::new(bytes.len(), |i: int| bytes[i] as char)
}

/// Whether `b` may appear in a header value of the neutral schema: any byte
/// from 32 up except DEL, or a tab.
pub open spec fn is_value_byte(b: u8) -> bool {
    (32 <= b && b != 127) || b == 9
}

/// Whether every byte of `bytes` may appear in a header value.
pub open spec fn is_value(bytes: Seq<u8>) -> bool {
    forall|i: int| 0 <= i < bytes.len() ==> is_value_byte(#[trigger] bytes[i])
}

/// The values of a list of headers, in order.
pub open spec fn header_views(headers: Seq<Header>) -> Seq<HeaderView> {
    Seq::new(headers.len(), |i: int| headers[i]@)
}

/// A request in the neutral schema.
#[derive(Clone, Debug, PartialEq, Eq)]
pub struct Request {
    pub method: Method,
    /// The target, as the text of an absolute URL.
    pub uri: String,
    pub version: Version,
    /// The headers in the order they are sent.
    pub headers: Vec<Header>,
    pub body: Vec<u8>,
}

/// The mathematical value of a [`Request`].
pub struct RequestView {
    pub method: MethodView,
    pub uri: Seq<char>,
    pub version: VersionView,
    pub headers: Seq<HeaderView>,
    pub body: Seq<u8>,
}

impl View for Request {
    type V = RequestView;

    open spec fn view(&self) -> RequestView {
        RequestView {
            method: self.method@,
            uri: self.uri@,
            version: self.version@,
            headers: header_views(self.headers@),
            body: self.body@,
        }
    }
}

/// A response in the neutral schema.
#[derive(Clone, Debug, PartialEq, Eq)]
pub struct Response {
    pub status: StatusCode,
    pub version: Version,
    /// The headers in the order they were received.
    pub headers: Vec<Header>,
    pub body: Vec<u8>,
}

/// The mathematical value of a [`Response`].
pub struct ResponseView {
    pub status: u16,
    pub version: VersionView,
    pub headers: Seq<HeaderView>,
    pub body: Seq<u8>,
}

impl View for Response {
    type V = ResponseView;

    open spec fn view(&self) -> ResponseView {
        ResponseView {
            status: self.status.code(),
            version: self.version@,
            headers: header_views(self.headers@),
            body: self.body@,
        }
    }
}

} // verus!
