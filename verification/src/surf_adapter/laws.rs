//! What holds of the conversions as a whole.

use vstd::prelude::*;

use crate::external::spec_header_name;
use crate::schema::{
    is_status_code, is_text, is_value, HeaderView, MethodView, RequestView, VersionView,
};
use crate::surf_adapter::convert::{
    all_neutral, all_text, is_first_non_text, spec_from_request, spec_header_from_surf,
    spec_headers_to_surf, spec_method_from_surf, spec_method_to_surf, spec_to_response,
    spec_version_from_surf, spec_version_to_surf,
};
use crate::surf_adapter::error::SurfErrorView;
use crate::surf_adapter::model::{
    SurfMethod, SurfRequestView, SurfResponseView, SurfVersionView,
};
use crate::surf_adapter::status::{
    lemma_catalogue, spec_status_from_surf, spec_status_to_surf, SurfStatusCode,
};

verus! {

/// Whether an error says that a value has no place in the other model, as
/// opposed to a failure of the call itself.
pub open spec fn is_conversion_error(error: SurfErrorView) -> bool {
    error is InvalidMethod || error is InvalidStatusCode || error is InvalidHttpVersion
        || error is InvalidHeader || error is InvalidUrl
}

/// A method that surf's model shares survives the way there and back.
pub proof fn lemma_method_round_trip(method: MethodView)
    requires
        spec_method_to_surf(method) is Ok,
    ensures
        spec_method_from_surf(spec_method_to_surf(method)->Ok_0) == method,
{
}

/// Each of surf's methods survives the way to the neutral schema and back.
pub proof fn lemma_surf_method_round_trip(method: SurfMethod)
    ensures
        spec_method_to_surf(spec_method_from_surf(method)) == Ok::<SurfMethod, SurfErrorView>(
            method,
        ),
{
}

/// A version that surf's model shares survives the way there and back.
pub proof fn lemma_version_round_trip(version: VersionView)
    requires
        spec_version_to_surf(version) is Ok,
    ensures
        spec_version_from_surf(spec_version_to_surf(version)->Ok_0) == Ok::<
            VersionView,
            SurfErrorView,
        >(version),
{
}

/// A version of surf's that the neutral schema shares survives the way there
/// and back.
pub proof fn lemma_surf_version_round_trip(version: SurfVersionView)
    requires
        spec_version_from_surf(version) is Ok,
    ensures
        spec_version_to_surf(spec_version_from_surf(version)->Ok_0) == Ok::<
            SurfVersionView,
            SurfErrorView,
        >(version),
{
}

/// A status code that surf's model shares survives the way there and back.
pub proof fn lemma_status_round_trip(code: u16)
    requires
        spec_status_to_surf(code) is Ok,
    ensures
        spec_status_from_surf(spec_status_to_surf(code)->Ok_0) == Ok::<u16, SurfErrorView>(code),
{
}

/// A status of surf's that the neutral schema shares survives the way there
/// and back.
pub proof fn lemma_surf_status_round_trip(status: SurfStatusCode)
    requires
        spec_status_from_surf(status) is Ok,
    ensures
        spec_status_to_surf(spec_status_from_surf(status)->Ok_0) == Ok::<
            SurfStatusCode,
            SurfErrorView,
        >(status),
{
    let code = status.code();
    let s = choose|s: SurfStatusCode| s.code() == code && !s.is_uncovered();
    lemma_catalogue(s, status);
}

/// Every status of surf's catalogue other than Early Hints and Too Early
/// converts to the neutral status of the same number, and those two are
/// refused with their number.
pub proof fn lemma_catalogued_status_converts(status: SurfStatusCode)
    ensures
        !status.is_uncovered() ==> spec_status_from_surf(status) == Ok::<u16, SurfErrorView>(
            status.code(),
        ),
        status.is_uncovered() ==> spec_status_from_surf(status) == Err::<u16, SurfErrorView>(
            SurfErrorView::InvalidStatusCode(status.code()),
        ),
        is_status_code(status.code()),
{
}

/// Headers are converted to text unless one of them has a value that is not
/// text; then the error names the first such header.
pub proof fn lemma_headers_to_surf(headers: Seq<HeaderView>)
    ensures
        spec_headers_to_surf(headers) is Ok <==> all_text(headers),
        spec_headers_to_surf(headers) matches Err(e) ==> exists|k: int|
            is_first_non_text(headers, k) && e == SurfErrorView::InvalidHeader(
                headers[k].name,
                headers[k].value,
            ),
{
    if !all_text(headers) {
        lemma_first_non_text_exists(headers, headers.len() as int);
    }
}

/// Among the first `n` headers, if one has a value that is not text, then
/// there is a first such header.
proof fn lemma_first_non_text_exists(headers: Seq<HeaderView>, n: int)
    requires
        0 <= n <= headers.len(),
    ensures
        (exists|i: int| 0 <= i < n && !is_text(headers[i].value)) ==> exists|k: int|
            is_first_non_text(headers, k),
    decreases n,
{
    if n > 0 {
        lemma_first_non_text_exists(headers, n - 1);
        if forall|j: int| 0 <= j < n - 1 ==> is_text((#[trigger] headers[j]).value) {
            if !is_text(headers[n - 1].value) {
                assert(is_first_non_text(headers, n - 1));
            }
        }
    }
}

/// A request with a header whose value is not text is refused, whatever else
/// it holds, and the error is one of conversion: the request never reaches
/// the network.
pub proof fn lemma_non_text_header_is_refused(
    request: RequestView,
    url: Option<Seq<char>>,
    i: int,
)
    requires
        0 <= i < request.headers.len(),
        !is_text(request.headers[i].value),
    ensures
        spec_from_request(request, url) matches Err(e) && is_conversion_error(e),
{
    lemma_headers_to_surf(request.headers);
}

/// A request that asks for a protocol version outside surf's model is
/// refused; where the method and the target are in order, the error is
/// `InvalidHttpVersion` with the version's text.
pub proof fn lemma_unshared_version_is_refused(
    request: RequestView,
    url: Option<Seq<char>>,
    text: Seq<char>,
)
    requires
        request.version == VersionView::Other(text),
    ensures
        spec_from_request(request, url) is Err,
        spec_method_to_surf(request.method) is Ok && url is Some ==> spec_from_request(
            request,
            url,
        ) == Err::<SurfRequestView, SurfErrorView>(
            SurfErrorView::InvalidHttpVersion(text),
        ),
{
}

/// Whether a header is one that the neutral schema accepts: its name is the
/// normalized form of some name, and its value holds only value bytes.
pub open spec fn is_neutral_header(header: HeaderView) -> bool {
    &&& exists|text: Seq<char>| spec_header_name(text) == Some(header.name)
    &&& is_value(header.value)
}

/// A response that comes out of the conversion holds a status code of the
/// neutral schema, as many headers as surf reported, each of them one that
/// the neutral schema accepts, and the body that was read.
pub proof fn lemma_response_is_neutral(response: SurfResponseView, body: Seq<u8>)
    requires
        spec_to_response(response, body) is Ok,
    ensures
        ({
            let out = spec_to_response(response, body)->Ok_0;
            &&& out.status == response.status.code()
            &&& is_status_code(out.status)
            &&& out.headers.len() == response.headers.len()
            &&& forall|i: int|
                0 <= i < out.headers.len() ==> is_neutral_header(#[trigger] out.headers[i])
            &&& out.body == body
        }),
{
    let out = spec_to_response(response, body)->Ok_0;
    assert forall|i: int| 0 <= i < out.headers.len() implies is_neutral_header(
        #[trigger] out.headers[i],
    ) by {
        // the name is what the schema made of surf's name for this header
        assert(spec_header_name(response.headers[i].name) == Some(out.headers[i].name));
    }
}

} // verus!
