//! The trusted boundary: the outside types that this crate carries, and every
//! call it makes into `http` and `url` (reached through `surf`), with the
//! contract each call is assumed to meet.
//!
//! Nothing in this module is proved. Each function names the outside function
//! it calls and says what is claimed of it. The types are opaque: they are
//! carried from where they arise to whoever asked, and never looked into.

use vstd::prelude::*;

use crate::schema::{is_text, is_value, text_of};

verus! {

/// `http::Error`, the error of the neutral schema's own validation. Opaque.
#[verifier::external_type_specification]
#[verifier::external_body]
pub struct ExHttpError(http::Error);

/// `surf::Error`, the error of a call made through surf. Opaque.
#[verifier::external_type_specification]
#[verifier::external_body]
pub struct ExSurfError(surf::Error);

/// `url::ParseError`, as re-exported by `surf`. Opaque.
#[verifier::external_type_specification]
#[verifier::external_body]
pub struct ExUrlParseError(surf::http::url::ParseError);

/// `ureq::Error`, the error of a call made through ureq. Opaque.
#[verifier::external_type_specification]
#[verifier::external_body]
pub struct ExUreqError(ureq::Error);

/// `std::io::Error`, the error of reading a response body. Opaque.
#[verifier::external_type_specification]
#[verifier::external_body]
pub struct ExIoError(std::io::Error);

/// `http::HeaderValue`, a header value of the `http` crate. Opaque.
#[verifier::external_type_specification]
#[verifier::external_body]
pub struct ExHeaderValue(http::HeaderValue);

/// What `url::Url::parse` makes of `text`: the serialization of the parsed
/// URL, or `None` where the parser refuses the text.
pub uninterp spec fn spec_parse_url(text: Seq<char>) -> Option<Seq<char>>;

/// What `http::HeaderName::try_from` makes of `text`: the normalized
/// (lower-case) name, or `None` where the text is not a header name.
pub uninterp spec fn spec_header_name(text: Seq<char>) -> Option<Seq<char>>;

/// Calls `http::HeaderValue::to_str` on the value made of `bytes`.
///
/// Claimed: the call succeeds exactly when every byte is printable ASCII, a
/// space or a tab, and the text then has one character per byte.
#[verifier::external_body]
pub(crate) fn header_value_to_str(bytes: &[u8]) -> (text: Option<String>)
    ensures
        text is Some <==> is_text(bytes@),
        text matches Some(s) ==> s@ == text_of(bytes@),
{
    let value = http::HeaderValue::from_bytes(bytes).ok()?;
    value.to_str().ok().map(String::from)
}

/// Calls `url::Url::parse` (as `surf::Url`) and serializes the URL it returns.
///
/// Claimed: the outcome is a function of the text alone.
#[verifier::external_body]
pub(crate) fn parse_url(text: &str) -> (url: Result<String, surf::http::url::ParseError>)
    ensures
        match url {
            Ok(s) => spec_parse_url(text@) == Some(s@),
            Err(_) => spec_parse_url(text@) is None,
        },
{
    surf::Url::parse(text).map(String::from)
}

/// Calls `http::HeaderName::try_from` and returns the normalized name.
///
/// Claimed: the outcome is a function of the text alone.
#[verifier::external_body]
pub(crate) fn parse_header_name(text: &str) -> (name: Result<String, http::Error>)
    ensures
        match name {
            Ok(s) => spec_header_name(text@) == Some(s@),
            Err(_) => spec_header_name(text@) is None,
        },
{
    match http::HeaderName::try_from(text) {
        Ok(name) => Ok(name.as_str().to_owned()),
        Err(e) => Err(http::Error::from(e)),
    }
}

/// Calls `http::HeaderValue::try_from` and returns the bytes of the value.
///
/// Claimed: the call succeeds exactly when every byte of the text's UTF-8
/// encoding is 32 or more and not DEL, or a tab; the value then holds exactly
/// those bytes.
#[verifier::external_body]
pub(crate) fn parse_header_value(text: &str) -> (value: Result<Vec<u8>, http::Error>)
    ensures
        value is Ok <==> is_value(vstd::utf8::encode_utf8(text@)),
        value matches Ok(bytes) ==> bytes@ == vstd::utf8::encode_utf8(text@),
{
    match http::HeaderValue::try_from(text) {
        Ok(value) => Ok(value.as_bytes().to_vec()),
        Err(e) => Err(http::Error::from(e)),
    }
}

/// An `http::HeaderValue` as its `Debug` impl writes it: between double
/// quotes, with bytes that are not printable escaped.
#[verifier::external_body]
pub(crate) fn header_value_debug_text(value: &http::HeaderValue) -> (text: String) {
    format!("{:?}", value)
}

} // verus!
