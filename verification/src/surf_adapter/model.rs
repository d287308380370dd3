//! surf's side of a call, as plain data: the request that is handed to surf
//! and the head of the response that surf hands back.

use vstd::prelude::*;

use crate::surf_adapter::status::SurfStatusCode;

verus! {

/// A request method of surf's model that the neutral schema can name.
#[derive(Clone, Copy, Debug, PartialEq, Eq, Structural)]
pub enum SurfMethod {
    Get,
    Post,
    Put,
    Patch,
    Delete,
    Head,
    Connect,
    Options,
    Trace,
}

/// A protocol version of surf's model.
#[derive(Clone, Debug, PartialEq, Eq)]
pub enum SurfVersion {
    /// HTTP/0.9
    Http0_9,
    /// HTTP/1.0
    Http1_0,
    /// HTTP/1.1
    Http1_1,
    /// HTTP/2
    Http2_0,
    /// HTTP/3
    Http3_0,
    /// A version that surf knows and this crate does not, by its textual form.
    Other(String),
}

/// The mathematical value of a [`SurfVersion`].
pub enum SurfVersionView {
    Http0_9,
    Http1_0,
    Http1_1,
    Http2_0,
    Http3_0,
    Other(Seq<char>),
}

impl View for SurfVersion {
    type V = SurfVersionView;

    open spec fn view(&self) -> SurfVersionView {
        match self {
            SurfVersion::Http0_9 => SurfVersionView::Http0_9,
            SurfVersion::Http1_0 => SurfVersionView::Http1_0,
            SurfVersion::Http1_1 => SurfVersionView::Http1_1,
            SurfVersion::Http2_0 => SurfVersionView::Http2_0,
            SurfVersion::Http3_0 => SurfVersionView::Http3_0,
            SurfVersion::Other(text) => SurfVersionView::Other(text@),
        }
    }
}

/// The value of an optional version.
pub open spec fn version_option_view(version: Option<SurfVersion>) -> Option<SurfVersionView> {
    match version {
        Some(v) => Some(v@),
        None => None,
    }
}

/// One header line of surf's model: a name and a value, both text.
#[derive(Clone, Debug, PartialEq, Eq)]
pub struct TextHeader {
    pub name: String,
    pub value: String,
}

/// The mathematical value of a [`TextHeader`].
pub struct TextHeaderView {
    pub name: Seq<char>,
    pub value: Seq<char>,
}

impl View for TextHeader {
    type V = TextHeaderView;

    open spec fn view(&self) -> TextHeaderView {
        TextHeaderView { name: self.name@, value: self.value@ }
    }
}

/// The values of a list of text headers, in order.
pub open spec fn text_header_views(headers: Seq<TextHeader>) -> Seq<TextHeaderView> {
    Seq::new(headers.len(), |i: int| headers[i]@)
}

/// A request ready to be handed to surf.
#[derive(Clone, Debug, PartialEq, Eq)]
pub struct SurfRequest {
    pub method: SurfMethod,
    /// The target, as surf's URL parser serializes it.
    pub url: String,
    pub version: SurfVersion,
    /// The headers in the order they are to be appended.
    pub headers: Vec<TextHeader>,
    pub body: Vec<u8>,
}

/// The mathematical value of a [`SurfRequest`].
pub struct SurfRequestView {
    pub method: SurfMethod,
    pub url: Seq<char>,
    pub version: SurfVersionView,
    pub headers: Seq<TextHeaderView>,
    pub body: Seq<u8>,
}

impl View for SurfRequest {
    type V = SurfRequestView;

    open spec fn view(&self) -> SurfRequestView {
        SurfRequestView {
            method: self.method,
            url: self.url@,
            version: self.version@,
            headers: text_header_views(self.headers@),
            body: self.body@,
        }
    }
}

/// The head of a response as surf reports it, before the body is read.
#[derive(Clone, Debug, PartialEq, Eq)]
pub struct SurfResponse {
    pub status: SurfStatusCode,
    /// The version, where surf knows it.
    pub version: Option<SurfVersion>,
    /// The headers in the order surf lists them.
    pub headers: Vec<TextHeader>,
}

/// The mathematical value of a [`SurfResponse`].
pub struct SurfResponseView {
    pub status: SurfStatusCode,
    pub version: Option<SurfVersionView>,
    pub headers: Seq<TextHeaderView>,
}

impl View for SurfResponse {
    type V = SurfResponseView;

    open spec fn view(&self) -> SurfResponseView {
        SurfResponseView {
            status: self.status,
            version: version_option_view(self.version),
            headers: text_header_views(self.headers@),
        }
    }
}

} // verus!
