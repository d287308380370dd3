//! The errors of the ureq adapter.

use vstd::prelude::*;

use crate::external::header_value_debug_text;
use crate::text::{append_decimal, spec_decimal};

verus! {

/// Why a request could not be carried out through ureq.
#[derive(Debug)]
pub enum UreqError {
    /// A request or response could not be expressed in the neutral schema.
    Http(http::Error),
    /// ureq failed to carry out the call.
    Ureq(ureq::Error),
    /// The response body could not be read to its end.
    Io(std::io::Error),
    /// The header value is not text.
    InvalidHeaderValue(http::HeaderValue),
    /// The other side has no protocol version of this name.
    InvalidHttpVersion(String),
    /// The number is not a status code.
    InvalidStatusCode(u16),
    /// The caller and the worker of a call lost each other.
    InternalCommunicationError(String),
}

/// The mathematical value of a [`UreqError`]: its kind and the offending plain
/// value. The values of outside libraries are left out.
pub enum UreqErrorView {
    Http,
    Ureq,
    Io,
    InvalidHeaderValue,
    InvalidHttpVersion(Seq<char>),
    InvalidStatusCode(u16),
    InternalCommunicationError(Seq<char>),
}

impl View for UreqError {
    type V = UreqErrorView;

    open spec fn view(&self) -> UreqErrorView {
        match self {
            UreqError::Http(_) => UreqErrorView::Http,
            UreqError::Ureq(_) => UreqErrorView::Ureq,
            UreqError::Io(_) => UreqErrorView::Io,
            UreqError::InvalidHeaderValue(_) => UreqErrorView::InvalidHeaderValue,
            UreqError::InvalidHttpVersion(text) => UreqErrorView::InvalidHttpVersion(text@),
            UreqError::InvalidStatusCode(code) => UreqErrorView::InvalidStatusCode(*code),
            UreqError::InternalCommunicationError(text) => {
                UreqErrorView::InternalCommunicationError(text@)
            },
        }
    }
}

/// The fixed opening of the message for each kind of error; empty for the
/// kinds whose whole message is that of an outside library.
pub open spec fn spec_message_prefix(error: UreqErrorView) -> Seq<char> {
    match error {
        UreqErrorView::Http => Seq::empty(),
        UreqErrorView::Ureq => Seq::empty(),
        UreqErrorView::Io => Seq::empty(),
        UreqErrorView::InvalidHeaderValue => "Invalid header value: "@,
        UreqErrorView::InvalidHttpVersion(_) => "Invalid HTTP version: "@,
        UreqErrorView::InvalidStatusCode(_) => "Invalid status code: "@,
        UreqErrorView::InternalCommunicationError(_) => "Internal communication error: "@,
    }
}

/// The message for each kind of error that is made of plain values alone.
pub open spec fn spec_message(error: UreqErrorView) -> Option<Seq<char>> {
    match error {
        UreqErrorView::InvalidHttpVersion(text) => Some("Invalid HTTP version: "@ + text),
        UreqErrorView::InvalidStatusCode(code) => Some(
            "Invalid status code: "@ + spec_decimal(code as nat),
        ),
        UreqErrorView::InternalCommunicationError(text) => Some(
            "Internal communication error: "@ + text,
        ),
        _ => None,
    }
}

impl UreqError {
    /// The message that describes this error to a reader.
    ///
    /// For the kinds made of plain values the message is fixed by
    /// [`spec_message`]. For an invalid header value it opens with
    /// `Invalid header value: ` and goes on with the value as `http` prints
    /// it; for `Http`, `Ureq` and `Io` it is the outside error's own message.
    pub fn message(&self) -> (text: String)
        ensures
            spec_message(self@) matches Some(m) ==> text@ == m,
            spec_message_prefix(self@).is_prefix_of(text@),
    {
        match self {
            UreqError::Http(e) => e.to_string(),
            UreqError::Ureq(e) => e.to_string(),
            UreqError::Io(e) => e.to_string(),
            UreqError::InvalidHeaderValue(value) => {
                let mut text = String::from_str("Invalid header value: ");
                let detail = header_value_debug_text(value);
                text.append(detail.as_str());
                text
            },
            UreqError::InvalidHttpVersion(version) => {
                let mut text = String::from_str("Invalid HTTP version: ");
                text.append(version.as_str());
                text
            },
            UreqError::InvalidStatusCode(code) => {
                let mut text = String::from_str("Invalid status code: ");
                append_decimal(&mut text, *code);
                text
            },
            UreqError::InternalCommunicationError(detail) => {
                let mut text = String::from_str("Internal communication error: ");
                text.append(detail.as_str());
                text
            },
        }
    }
}

} // verus!
