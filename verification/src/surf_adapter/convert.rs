//! Converting between the neutral schema and surf's model: methods and
//! versions by explicit tables, headers one at a time, then whole requests and
//! responses.

use vstd::prelude::*;

use crate::external::{
    header_value_to_str, parse_header_name, parse_header_value, parse_url, spec_header_name,
    spec_parse_url,
};
use crate::schema::{
    header_views, is_text, is_value, text_of, Header, HeaderView, Method, MethodView, Request,
    RequestView, Response, ResponseView, StatusCode, Version, VersionView,
};
use crate::surf_adapter::error::{SurfError, SurfErrorView};
use crate::surf_adapter::model::{
    text_header_views, version_option_view, SurfMethod, SurfRequest, SurfRequestView,
    SurfResponse, SurfResponseView, SurfVersion, SurfVersionView, TextHeader, TextHeaderView,
};
use crate::surf_adapter::status::{spec_status_from_surf, status_from_surf, SurfStatusCode};

verus! {

/// surf's method for a neutral method. A method outside the nine that both
/// sides name has none.
pub open spec fn spec_method_to_surf(method: MethodView) -> Result<SurfMethod, SurfErrorView> {
    match method {
        MethodView::Get => Ok(SurfMethod::Get),
        MethodView::Post => Ok(SurfMethod::Post),
        MethodView::Put => Ok(SurfMethod::Put),
        MethodView::Patch => Ok(SurfMethod::Patch),
        MethodView::Delete => Ok(SurfMethod::Delete),
        MethodView::Head => Ok(SurfMethod::Head),
        MethodView::Connect => Ok(SurfMethod::Connect),
        MethodView::Options => Ok(SurfMethod::Options),
        MethodView::Trace => Ok(SurfMethod::Trace),
        MethodView::Other(name) => Err(SurfErrorView::InvalidMethod(name)),
    }
}

/// The neutral method for one of surf's.
pub open spec fn spec_method_from_surf(method: SurfMethod) -> MethodView {
    match method {
        SurfMethod::Get => MethodView::Get,
        SurfMethod::Post => MethodView::Post,
        SurfMethod::Put => MethodView::Put,
        SurfMethod::Patch => MethodView::Patch,
        SurfMethod::Delete => MethodView::Delete,
        SurfMethod::Head => MethodView::Head,
        SurfMethod::Connect => MethodView::Connect,
        SurfMethod::Options => MethodView::Options,
        SurfMethod::Trace => MethodView::Trace,
    }
}

/// surf's version for a neutral version. A version outside the five that both
/// sides name has none.
pub open spec fn spec_version_to_surf(version: VersionView) -> Result<
    SurfVersionView,
    SurfErrorView,
> {
    match version {
        VersionView::Http09 => Ok(SurfVersionView::Http0_9),
        VersionView::Http10 => Ok(SurfVersionView::Http1_0),
        VersionView::Http11 => Ok(SurfVersionView::Http1_1),
        VersionView::Http2 => Ok(SurfVersionView::Http2_0),
        VersionView::Http3 => Ok(SurfVersionView::Http3_0),
        VersionView::Other(text) => Err(SurfErrorView::InvalidHttpVersion(text)),
    }
}

/// The neutral version for one of surf's. A version outside the five that
/// both sides name has none.
pub open spec fn spec_version_from_surf(version: SurfVersionView) -> Result<
    VersionView,
    SurfErrorView,
> {
    match version {
        SurfVersionView::Http0_9 => Ok(VersionView::Http09),
        SurfVersionView::Http1_0 => Ok(VersionView::Http10),
        SurfVersionView::Http1_1 => Ok(VersionView::Http11),
        SurfVersionView::Http2_0 => Ok(VersionView::Http2),
        SurfVersionView::Http3_0 => Ok(VersionView::Http3),
        SurfVersionView::Other(text) => Err(SurfErrorView::InvalidHttpVersion(text)),
    }
}

/// Whether the value of every header is text.
pub open spec fn all_text(headers: Seq<HeaderView>) -> bool {
    forall|i: int| 0 <= i < headers.len() ==> is_text((#[trigger] headers[i]).value)
}

/// Whether `k` is the place of the first header whose value is not text.
pub open spec fn is_first_non_text(headers: Seq<HeaderView>, k: int) -> bool {
    &&& 0 <= k < headers.len()
    &&& !is_text(headers[k].value)
    &&& forall|j: int| 0 <= j < k ==> is_text((#[trigger] headers[j]).value)
}

/// The text header that a neutral header with a text value becomes.
pub open spec fn spec_header_to_surf(header: HeaderView) -> TextHeaderView {
    TextHeaderView { name: header.name, value: text_of(header.value) }
}

/// surf's headers for the neutral ones: each in its place with its value as
/// text, or the error that names the first header whose value is not text.
pub open spec fn spec_headers_to_surf(headers: Seq<HeaderView>) -> Result<
    Seq<TextHeaderView>,
    SurfErrorView,
> {
    if all_text(headers) {
        Ok(Seq::new(headers.len(), |i: int| spec_header_to_surf(headers[i])))
    } else {
        let k = choose|k: int| is_first_non_text(headers, k);
        Err(SurfErrorView::InvalidHeader(headers[k].name, headers[k].value))
    }
}

/// The request handed to surf for a neutral request whose target parses as
/// `url`. The checks come in a fixed order: method, target, version, headers;
/// the first that fails gives the error.
pub open spec fn spec_from_request(request: RequestView, url: Option<Seq<char>>) -> Result<
    SurfRequestView,
    SurfErrorView,
> {
    match spec_method_to_surf(request.method) {
        Err(e) => Err(e),
        Ok(method) => match url {
            None => Err(SurfErrorView::InvalidUrl),
            Some(url) => match spec_version_to_surf(request.version) {
                Err(e) => Err(e),
                Ok(version) => match spec_headers_to_surf(request.headers) {
                    Err(e) => Err(e),
                    Ok(headers) => Ok(
                        SurfRequestView { method, url, version, headers, body: request.body },
                    ),
                },
            },
        },
    }
}

/// The neutral header for one of surf's: the normalized name and the bytes of
/// the value, where the neutral schema accepts both.
pub open spec fn spec_header_from_surf(header: TextHeaderView) -> Option<HeaderView> {
    let value = vstd::utf8::encode_utf8(header.value);
    match spec_header_name(header.name) {
        Some(name) => if is_value(value) {
            Some(HeaderView { name, value })
        } else {
            None
        },
        None => None,
    }
}

/// Whether the neutral schema accepts every one of surf's headers.
pub open spec fn all_neutral(headers: Seq<TextHeaderView>) -> bool {
    forall|i: int| 0 <= i < headers.len() ==> spec_header_from_surf(#[trigger] headers[i]) is Some
}

/// The neutral headers for surf's: each in its place, or an `Http` error where
/// the neutral schema refuses one of them.
pub open spec fn spec_headers_from_surf(headers: Seq<TextHeaderView>) -> Result<
    Seq<HeaderView>,
    SurfErrorView,
> {
    if all_neutral(headers) {
        Ok(Seq::new(headers.len(), |i: int| spec_header_from_surf(headers[i])->0))
    } else {
        Err(SurfErrorView::Http)
    }
}

/// The version of a response in the neutral schema. Where surf reports none,
/// it is HTTP/1.1.
pub open spec fn spec_response_version(version: Option<SurfVersionView>) -> Result<
    VersionView,
    SurfErrorView,
> {
    match version {
        Some(v) => spec_version_from_surf(v),
        None => Ok(VersionView::Http11),
    }
}

/// The status and version of a response in the neutral schema. The status is
/// checked first.
pub open spec fn spec_response_head(
    status: SurfStatusCode,
    version: Option<SurfVersionView>,
) -> Result<(u16, VersionView), SurfErrorView> {
    match spec_status_from_surf(status) {
        Err(e) => Err(e),
        Ok(code) => match spec_response_version(version) {
            Err(e) => Err(e),
            Ok(v) => Ok((code, v)),
        },
    }
}

/// The neutral response for the head that surf reported and the body that was
/// read. The checks come in a fixed order: status, version, headers.
pub open spec fn spec_to_response(response: SurfResponseView, body: Seq<u8>) -> Result<
    ResponseView,
    SurfErrorView,
> {
    match spec_response_head(response.status, response.version) {
        Err(e) => Err(e),
        Ok((status, version)) => match spec_headers_from_surf(response.headers) {
            Err(e) => Err(e),
            Ok(headers) => Ok(ResponseView { status, version, headers, body }),
        },
    }
}

/// The value of a result that carries plain data or a [`SurfError`].
pub open spec fn plain_result<T>(result: Result<T, SurfError>) -> Result<T, SurfErrorView> {
    match result {
        Ok(t) => Ok(t),
        Err(e) => Err(e@),
    }
}

/// The value of a result that carries viewed data or a [`SurfError`].
pub open spec fn viewed_result<T: View>(result: Result<T, SurfError>) -> Result<
    T::V,
    SurfErrorView,
> {
    match result {
        Ok(t) => Ok(t@),
        Err(e) => Err(e@),
    }
}

/// The value of a list of headers or a [`SurfError`].
pub open spec fn text_headers_result(result: Result<Vec<TextHeader>, SurfError>) -> Result<
    Seq<TextHeaderView>,
    SurfErrorView,
> {
    match result {
        Ok(headers) => Ok(text_header_views(headers@)),
        Err(e) => Err(e@),
    }
}

/// The value of a list of headers or a [`SurfError`].
pub open spec fn headers_result(result: Result<Vec<Header>, SurfError>) -> Result<
    Seq<HeaderView>,
    SurfErrorView,
> {
    match result {
        Ok(headers) => Ok(header_views(headers@)),
        Err(e) => Err(e@),
    }
}

/// The value of the outcome of parsing a target.
pub open spec fn parsed_url(url: Result<String, surf::http::url::ParseError>) -> Option<
    Seq<char>,
> {
    match url {
        Ok(s) => Some(s@),
        Err(_) => None,
    }
}

/// Converts a neutral method to surf's. A method that surf's model does not
/// share is refused with `InvalidMethod`, which carries its name.
pub fn method_to_surf(method: &Method) -> (result: Result<SurfMethod, SurfError>)
    ensures
        plain_result(result) == spec_method_to_surf(method@),
{
    match method {
        Method::Get => Ok(SurfMethod::Get),
        Method::Post => Ok(SurfMethod::Post),
        Method::Put => Ok(SurfMethod::Put),
        Method::Patch => Ok(SurfMethod::Patch),
        Method::Delete => Ok(SurfMethod::Delete),
        Method::Head => Ok(SurfMethod::Head),
        Method::Connect => Ok(SurfMethod::Connect),
        Method::Options => Ok(SurfMethod::Options),
        Method::Trace => Ok(SurfMethod::Trace),
        Method::Other(name) => Err(SurfError::InvalidMethod(name.clone())),
    }
}

/// Converts one of surf's methods to the neutral method of the same name.
pub fn method_from_surf(method: SurfMethod) -> (result: Method)
    ensures
        result@ == spec_method_from_surf(method),
{
    match method {
        SurfMethod::Get => Method::Get,
        SurfMethod::Post => Method::Post,
        SurfMethod::Put => Method::Put,
        SurfMethod::Patch => Method::Patch,
        SurfMethod::Delete => Method::Delete,
        SurfMethod::Head => Method::Head,
        SurfMethod::Connect => Method::Connect,
        SurfMethod::Options => Method::Options,
        SurfMethod::Trace => Method::Trace,
    }
}

/// Converts a neutral version to surf's. A version that surf's model does not
/// share is refused with `InvalidHttpVersion`, which carries its text.
pub fn version_to_surf(version: &Version) -> (result: Result<SurfVersion, SurfError>)
    ensures
        viewed_result(result) == spec_version_to_surf(version@),
{
    match version {
        Version::Http09 => Ok(SurfVersion::Http0_9),
        Version::Http10 => Ok(SurfVersion::Http1_0),
        Version::Http11 => Ok(SurfVersion::Http1_1),
        Version::Http2 => Ok(SurfVersion::Http2_0),
        Version::Http3 => Ok(SurfVersion::Http3_0),
        Version::Other(text) => Err(SurfError::InvalidHttpVersion(text.clone())),
    }
}

/// Converts one of surf's versions to the neutral one. A version that the
/// neutral schema does not share is refused with `InvalidHttpVersion`, which
/// carries its text.
pub fn version_from_surf(version: &SurfVersion) -> (result: Result<Version, SurfError>)
    ensures
        viewed_result(result) == spec_version_from_surf(version@),
{
    match version {
        SurfVersion::Http0_9 => Ok(Version::Http09),
        SurfVersion::Http1_0 => Ok(Version::Http10),
        SurfVersion::Http1_1 => Ok(Version::Http11),
        SurfVersion::Http2_0 => Ok(Version::Http2),
        SurfVersion::Http3_0 => Ok(Version::Http3),
        SurfVersion::Other(text) => Err(SurfError::InvalidHttpVersion(text.clone())),
    }
}

/// Converts neutral headers to surf's, which must be text. The first header
/// whose value is not text is refused with `InvalidHeader`, which carries its
/// name and the bytes of its value.
pub fn headers_to_surf(headers: &Vec<Header>) -> (result: Result<Vec<TextHeader>, SurfError>)
    ensures
        text_headers_result(result) == spec_headers_to_surf(header_views(headers@)),
{
    let ghost views = header_views(headers@);
    let mut out: Vec<TextHeader> = Vec::new();
    let mut i: usize = 0;
    while i < headers.len()
        invariant
            i <= headers.len(),
            views == header_views(headers@),
            out.len() == i,
            forall|j: int| 0 <= j < i ==> is_text((#[trigger] views[j]).value),
            forall|j: int| 0 <= j < i ==> (#[trigger] out[j])@ == spec_header_to_surf(views[j]),
        decreases headers.len() - i,
    {
        let header = &headers[i];
        match header_value_to_str(header.value.as_slice()) {
            Some(value) => {
                out.push(TextHeader { name: header.name.clone(), value });
            },
            None => {
                let name = header.name.clone();
                let value = header.value.clone();
                proof {
                    // the header at `i` is the first that is not text, and
                    // there is only one first
                    assert(is_first_non_text(views, i as int));
                    let k = choose|k: int| is_first_non_text(views, k);
                    assert(k == i);
                }
                return Err(SurfError::InvalidHeader(name, value));
            },
        }
        i += 1;
    }
    proof {
        assert(text_header_views(out@) =~= Seq::new(
            views.len(),
            |i: int| spec_header_to_surf(views[i]),
        ));
    }
    Ok(out)
}

/// Converts a neutral request to the request handed to surf, given what
/// surf's URL parser made of the target.
///
/// The method, the target, the version and the headers are checked in that
/// order, and the first that has no place in surf's model gives the error:
/// `InvalidMethod`, `InvalidUrl`, `InvalidHttpVersion` or `InvalidHeader`.
/// Where all pass, the request holds surf's method and version, the URL as
/// parsed, every header in its place with its value as text, and the body
/// unchanged.
pub fn from_request_with_url(
    request: Request,
    url: Result<String, surf::http::url::ParseError>,
) -> (result: Result<SurfRequest, SurfError>)
    ensures
        viewed_result(result) == spec_from_request(request@, parsed_url(url)),
        spec_method_to_surf(request.method@) is Ok ==> match url {
            Err(refusal) => result == Err::<SurfRequest, SurfError>(SurfError::InvalidUrl(refusal)),
            Ok(_) => true,
        },
{
    let method = match method_to_surf(&request.method) {
        Ok(m) => m,
        Err(e) => {
            return Err(e);
        },
    };
    let url = match url {
        Ok(u) => u,
        Err(e) => {
            return Err(SurfError::InvalidUrl(e));
        },
    };
    let version = match version_to_surf(&request.version) {
        Ok(v) => v,
        Err(e) => {
            return Err(e);
        },
    };
    let headers = match headers_to_surf(&request.headers) {
        Ok(h) => h,
        Err(e) => {
            return Err(e);
        },
    };
    Ok(SurfRequest { method, url, version, headers, body: request.body })
}

/// Converts a neutral request to the request handed to surf.
///
/// The target is parsed by surf's URL parser, and the rest is
/// [`from_request_with_url`]. No part of this touches the network: a request
/// that is refused here is never sent.
pub fn from_request(request: Request) -> (result: Result<SurfRequest, SurfError>)
    ensures
        viewed_result(result) == spec_from_request(request@, spec_parse_url(request.uri@)),
{
    let url = parse_url(request.uri.as_str());
    from_request_with_url(request, url)
}

/// Converts surf's headers to neutral ones. Where the neutral schema refuses
/// a name or a value, the result is the `Http` error with the schema's own
/// error inside.
///
/// Each header is judged by itself. The bound that `http` puts on the number
/// of distinct names in one header map is met only when such a map is built.
pub fn headers_from_surf(headers: &Vec<TextHeader>) -> (result: Result<Vec<Header>, SurfError>)
    ensures
        headers_result(result) == spec_headers_from_surf(text_header_views(headers@)),
{
    let ghost views = text_header_views(headers@);
    let mut out: Vec<Header> = Vec::new();
    let mut i: usize = 0;
    while i < headers.len()
        invariant
            i <= headers.len(),
            views == text_header_views(headers@),
            out.len() == i,
            forall|j: int| 0 <= j < i ==> spec_header_from_surf(#[trigger] views[j]) is Some,
            forall|j: int|
                0 <= j < i ==> (#[trigger] out[j])@ == spec_header_from_surf(views[j])->0,
        decreases headers.len() - i,
    {
        let header = &headers[i];
        let name = match parse_header_name(header.name.as_str()) {
            Ok(n) => n,
            Err(e) => {
                return Err(SurfError::Http(e));
            },
        };
        let value = match parse_header_value(header.value.as_str()) {
            Ok(v) => v,
            Err(e) => {
                assert(spec_header_from_surf(views[i as int]) is None);
                return Err(SurfError::Http(e));
            },
        };
        out.push(Header { name, value });
        i += 1;
    }
    proof {
        assert(header_views(out@) =~= Seq::new(
            views.len(),
            |i: int| spec_header_from_surf(views[i])->0,
        ));
    }
    Ok(out)
}

/// Converts the status and version that surf reported to the neutral ones.
///
/// This is the part of [`to_response`] that can fail before the body is read:
/// a status without a neutral equivalent gives `InvalidStatusCode`, then a
/// version without one gives `InvalidHttpVersion`.
pub fn response_head(status: SurfStatusCode, version: &Option<SurfVersion>) -> (result: Result<
    (StatusCode, Version),
    SurfError,
>)
    ensures
        match result {
            Ok((s, v)) => spec_response_head(status, version_option_view(*version)) == Ok::<
                (u16, VersionView),
                SurfErrorView,
            >((s.code(), v@)),
            Err(e) => spec_response_head(status, version_option_view(*version)) == Err::<
                (u16, VersionView),
                SurfErrorView,
            >(e@),
        },
{
    let status = match status_from_surf(status) {
        Ok(s) => s,
        Err(e) => {
            return Err(e);
        },
    };
    let version = match version {
        Some(v) => match version_from_surf(v) {
            Ok(v) => v,
            Err(e) => {
                return Err(e);
            },
        },
        None => Version::Http11,
    };
    Ok((status, version))
}

/// Converts the head of a response that surf reported, with the body that was
/// read, to a neutral response.
///
/// The status, the version and the headers are checked in that order, and the
/// first that has no place in the neutral schema gives the error:
/// `InvalidStatusCode`, `InvalidHttpVersion` or `Http`. Where all pass, the
/// response holds the status of the same number, the version of the same
/// name (HTTP/1.1 where surf reported none), every header in its place under
/// its normalized name, and the body unchanged.
pub fn to_response(response: SurfResponse, body: Vec<u8>) -> (result: Result<
    Response,
    SurfError,
>)
    ensures
        viewed_result(result) == spec_to_response(response@, body@),
{
    let (status, version) = match response_head(response.status, &response.version) {
        Ok(head) => head,
        Err(e) => {
            return Err(e);
        },
    };
    let headers = match headers_from_surf(&response.headers) {
        Ok(h) => h,
        Err(e) => {
            return Err(e);
        },
    };
    Ok(Response { status, version, headers, body })
}

} // verus!
