//! The errors of the surf adapter.

use vstd::prelude::*;

use crate::text::{append_bytes_list, append_decimal, spec_bytes_list, spec_decimal};

verus! {

/// Why a request could not be carried out through surf.
#[derive(Debug)]
pub enum SurfError {
    /// The response could not be expressed in the neutral schema.
    Http(http::Error),
    /// surf failed to carry out the call.
    Surf(surf::Error),
    /// surf has no method of this name.
    InvalidMethod(String),
    /// The neutral schema has no status for this code of surf's.
    InvalidStatusCode(u16),
    /// The other side has no protocol version of this name.
    InvalidHttpVersion(String),
    /// The value of the named header is not text.
    InvalidHeader(String, Vec<u8>),
    /// The target is not a URL that surf accepts.
    InvalidUrl(surf::http::url::ParseError),
}

/// The mathematical value of a [`SurfError`]: its kind and the offending plain
/// value. The errors of outside libraries are left out.
pub enum SurfErrorView {
    Http,
    Surf,
    InvalidMethod(Seq<char>),
    InvalidStatusCode(u16),
    InvalidHttpVersion(Seq<char>),
    InvalidHeader(Seq<char>, Seq<u8>),
    InvalidUrl,
}

impl View for SurfError {
    type V = SurfErrorView;

    open spec fn view(&self) -> SurfErrorView {
        match self {
            SurfError::Http(_) => SurfErrorView::Http,
            SurfError::Surf(_) => SurfErrorView::Surf,
            SurfError::InvalidMethod(name) => SurfErrorView::InvalidMethod(name@),
            SurfError::InvalidStatusCode(code) => SurfErrorView::InvalidStatusCode(*code),
            SurfError::InvalidHttpVersion(text) => SurfErrorView::InvalidHttpVersion(text@),
            SurfError::InvalidHeader(name, value) => SurfErrorView::InvalidHeader(name@, value@),
            SurfError::InvalidUrl(_) => SurfErrorView::InvalidUrl,
        }
    }
}

/// The fixed opening of the message for each kind of error; empty for the
/// kinds whose whole message is that of an outside library.
pub open spec fn spec_message_prefix(error: SurfErrorView) -> Seq<char> {
    match error {
        SurfErrorView::Http => Seq::empty(),
        SurfErrorView::Surf => Seq::empty(),
        SurfErrorView::InvalidMethod(_) => "Invalid method: "@,
        SurfErrorView::InvalidStatusCode(_) => "Invalid status code: "@,
        SurfErrorView::InvalidHttpVersion(_) => "Invalid HTTP version: "@,
        SurfErrorView::InvalidHeader(_, _) => "Invalid header: "@,
        SurfErrorView::InvalidUrl => "Invalid URL: "@,
    }
}

/// The message for each kind of error that is made of plain values alone.
pub open spec fn spec_message(error: SurfErrorView) -> Option<Seq<char>> {
    match error {
        SurfErrorView::InvalidMethod(name) => Some("Invalid method: "@ + name),
        SurfErrorView::InvalidStatusCode(code) => Some(
            "Invalid status code: "@ + spec_decimal(code as nat),
        ),
        SurfErrorView::InvalidHttpVersion(text) => Some("Invalid HTTP version: "@ + text),
        SurfErrorView::InvalidHeader(name, value) => Some(
            "Invalid header: "@ + name + " value: "@ + spec_bytes_list(value),
        ),
        _ => None,
    }
}

impl SurfError {
    /// The message that describes this error to a reader.
    ///
    /// For the kinds made of plain values the message is fixed by
    /// [`spec_message`]. For an invalid URL it opens with `Invalid URL: ` and
    /// goes on with the parser's own words; for `Http` and `Surf` it is the
    /// outside error's own message.
    pub fn message(&self) -> (text: String)
        ensures
            spec_message(self@) matches Some(m) ==> text@ == m,
            spec_message_prefix(self@).is_prefix_of(text@),
    {
        match self {
            SurfError::Http(e) => e.to_string(),
            SurfError::Surf(e) => e.to_string(),
            SurfError::InvalidMethod(name) => {
                let mut text = String::from_str("Invalid method: ");
                text.append(name.as_str());
                text
            },
            SurfError::InvalidStatusCode(code) => {
                let mut text = String::from_str("Invalid status code: ");
                append_decimal(&mut text, *code);
                text
            },
            SurfError::InvalidHttpVersion(version) => {
                let mut text = String::from_str("Invalid HTTP version: ");
                text.append(version.as_str());
                text
            },
            SurfError::InvalidHeader(name, value) => {
                let mut text = String::from_str("Invalid header: ");
                text.append(name.as_str());
                text.append(" value: ");
                append_bytes_list(&mut text, value);
                text
            },
            SurfError::InvalidUrl(e) => {
                let mut text = String::from_str("Invalid URL: ");
                let detail = e.to_string();
                text.append(detail.as_str());
                text
            },
        }
    }
}

} // verus!
