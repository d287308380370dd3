//! The status codes of surf's model and their relation to the neutral schema.
//!
//! surf reports a status as one of a fixed catalogue of named codes. The
//! neutral schema holds the bare number. Every catalogued status maps to the
//! status of the same number, except the two that the neutral side does not
//! take over: Early Hints and Too Early.

use vstd::prelude::*;

use crate::schema::{is_status_code, StatusCode};
use crate::surf_adapter::error::{SurfErrorView, SurfError};

verus! {

/// A status of surf's catalogue.
#[derive(Clone, Copy, Debug, PartialEq, Eq, Structural)]
pub enum SurfStatusCode {
    /// 100 Continue
    Continue,
    /// 101 Switching Protocols
    SwitchingProtocols,
    /// 103 Early Hints
    EarlyHints,
    /// 200 OK
    Okay,
    /// 201 Created
    Created,
    /// 202 Accepted
    Accepted,
    /// 203 Non Authoritative Information
    NonAuthoritativeInformation,
    /// 204 No Content
    NoContent,
    /// 205 Reset Content
    ResetContent,
    /// 206 Partial Content
    PartialContent,
    /// 207 Multi Status
    MultiStatus,
    /// 226 Im Used
    ImUsed,
    /// 300 Multiple Choice
    MultipleChoice,
    /// 301 Moved Permanently
    MovedPermanently,
    /// 302 Found
    Found,
    /// 303 See Other
    SeeOther,
    /// 304 Not Modified
    NotModified,
    /// 307 Temporary Redirect
    TemporaryRedirect,
    /// 308 Permanent Redirect
    PermanentRedirect,
    /// 400 Bad Request
    BadRequest,
    /// 401 Unauthorized
    Unauthorized,
    /// 402 Payment Required
    PaymentRequired,
    /// 403 Forbidden
    Forbidden,
    /// 404 Not Found
    NotFound,
    /// 405 Method Not Allowed
    MethodNotAllowed,
    /// 406 Not Acceptable
    NotAcceptable,
    /// 407 Proxy Authentication Required
    ProxyAuthenticationRequired,
    /// 408 Request Timeout
    RequestTimeout,
    /// 409 Conflict
    Conflict,
    /// 410 Gone
    Gone,
    /// 411 Length Required
    LengthRequired,
    /// 412 Precondition Failed
    PreconditionFailed,
    /// 413 Payload Too Large
    PayloadTooLarge,
    /// 414 Uri Too Long
    UriTooLong,
    /// 415 Unsupported Media Type
    UnsupportedMediaType,
    /// 416 Requested Range Not Satisfiable
    RequestedRangeNotSatisfiable,
    /// 417 Expectation Failed
    ExpectationFailed,
    /// 418 Im A Teapot
    ImATeapot,
    /// 421 Misdirected Request
    MisdirectedRequest,
    /// 422 Unprocessable Entity
    UnprocessableEntity,
    /// 423 Locked
    Locked,
    /// 424 Failed Dependency
    FailedDependency,
    /// 425 Too Early
    TooEarly,
    /// 426 Upgrade Required
    UpgradeRequired,
    /// 428 Precondition Required
    PreconditionRequired,
    /// 429 Too Many Requests
    TooManyRequests,
    /// 431 Request Header Fields Too Large
    RequestHeaderFieldsTooLarge,
    /// 451 Unavailable For Legal Reasons
    UnavailableForLegalReasons,
    /// 500 Internal Server Error
    InternalServerError,
    /// 501 Not Implemented
    NotImplemented,
    /// 502 Bad Gateway
    BadGateway,
    /// 503 Service Unavailable
    ServiceUnavailable,
    /// 504 Gateway Timeout
    GatewayTimeout,
    /// 505 Http Version Not Supported
    HttpVersionNotSupported,
    /// 506 Variant Also Negotiates
    VariantAlsoNegotiates,
    /// 507 Insufficient Storage
    InsufficientStorage,
    /// 508 Loop Detected
    LoopDetected,
    /// 510 Not Extended
    NotExtended,
    /// 511 Network Authentication Required
    NetworkAuthenticationRequired,
}

impl SurfStatusCode {
    /// The number of this status.
    pub open spec fn spec_code(self) -> u16 {
        match self {
            SurfStatusCode::Continue => 100,
            SurfStatusCode::SwitchingProtocols => 101,
            SurfStatusCode::EarlyHints => 103,
            SurfStatusCode::Okay => 200,
            SurfStatusCode::Created => 201,
            SurfStatusCode::Accepted => 202,
            SurfStatusCode::NonAuthoritativeInformation => 203,
            SurfStatusCode::NoContent => 204,
            SurfStatusCode::ResetContent => 205,
            SurfStatusCode::PartialContent => 206,
            SurfStatusCode::MultiStatus => 207,
            SurfStatusCode::ImUsed => 226,
            SurfStatusCode::MultipleChoice => 300,
            SurfStatusCode::MovedPermanently => 301,
            SurfStatusCode::Found => 302,
            SurfStatusCode::SeeOther => 303,
            SurfStatusCode::NotModified => 304,
            SurfStatusCode::TemporaryRedirect => 307,
            SurfStatusCode::PermanentRedirect => 308,
            SurfStatusCode::BadRequest => 400,
            SurfStatusCode::Unauthorized => 401,
            SurfStatusCode::PaymentRequired => 402,
            SurfStatusCode::Forbidden => 403,
            SurfStatusCode::NotFound => 404,
            SurfStatusCode::MethodNotAllowed => 405,
            SurfStatusCode::NotAcceptable => 406,
            SurfStatusCode::ProxyAuthenticationRequired => 407,
            SurfStatusCode::RequestTimeout => 408,
            SurfStatusCode::Conflict => 409,
            SurfStatusCode::Gone => 410,
            SurfStatusCode::LengthRequired => 411,
            SurfStatusCode::PreconditionFailed => 412,
            SurfStatusCode::PayloadTooLarge => 413,
            SurfStatusCode::UriTooLong => 414,
            SurfStatusCode::UnsupportedMediaType => 415,
            SurfStatusCode::RequestedRangeNotSatisfiable => 416,
            SurfStatusCode::ExpectationFailed => 417,
            SurfStatusCode::ImATeapot => 418,
            SurfStatusCode::MisdirectedRequest => 421,
            SurfStatusCode::UnprocessableEntity => 422,
            SurfStatusCode::Locked => 423,
            SurfStatusCode::FailedDependency => 424,
            SurfStatusCode::TooEarly => 425,
            SurfStatusCode::UpgradeRequired => 426,
            SurfStatusCode::PreconditionRequired => 428,
            SurfStatusCode::TooManyRequests => 429,
            SurfStatusCode::RequestHeaderFieldsTooLarge => 431,
            SurfStatusCode::UnavailableForLegalReasons => 451,
            SurfStatusCode::InternalServerError => 500,
            SurfStatusCode::NotImplemented => 501,
            SurfStatusCode::BadGateway => 502,
            SurfStatusCode::ServiceUnavailable => 503,
            SurfStatusCode::GatewayTimeout => 504,
            SurfStatusCode::HttpVersionNotSupported => 505,
            SurfStatusCode::VariantAlsoNegotiates => 506,
            SurfStatusCode::InsufficientStorage => 507,
            SurfStatusCode::LoopDetected => 508,
            SurfStatusCode::NotExtended => 510,
            SurfStatusCode::NetworkAuthenticationRequired => 511,
        }
    }

    /// The number of this status.
    #[verifier::when_used_as_spec(spec_code)]
    pub fn code(self) -> (code: u16)
        ensures
            code == self.spec_code(),
    {
        match self {
            SurfStatusCode::Continue => 100,
            SurfStatusCode::SwitchingProtocols => 101,
            SurfStatusCode::EarlyHints => 103,
            SurfStatusCode::Okay => 200,
            SurfStatusCode::Created => 201,
            SurfStatusCode::Accepted => 202,
            SurfStatusCode::NonAuthoritativeInformation => 203,
            SurfStatusCode::NoContent => 204,
            SurfStatusCode::ResetContent => 205,
            SurfStatusCode::PartialContent => 206,
            SurfStatusCode::MultiStatus => 207,
            SurfStatusCode::ImUsed => 226,
            SurfStatusCode::MultipleChoice => 300,
            SurfStatusCode::MovedPermanently => 301,
            SurfStatusCode::Found => 302,
            SurfStatusCode::SeeOther => 303,
            SurfStatusCode::NotModified => 304,
            SurfStatusCode::TemporaryRedirect => 307,
            SurfStatusCode::PermanentRedirect => 308,
            SurfStatusCode::BadRequest => 400,
            SurfStatusCode::Unauthorized => 401,
            SurfStatusCode::PaymentRequired => 402,
            SurfStatusCode::Forbidden => 403,
            SurfStatusCode::NotFound => 404,
            SurfStatusCode::MethodNotAllowed => 405,
            SurfStatusCode::NotAcceptable => 406,
            SurfStatusCode::ProxyAuthenticationRequired => 407,
            SurfStatusCode::RequestTimeout => 408,
            SurfStatusCode::Conflict => 409,
            SurfStatusCode::Gone => 410,
            SurfStatusCode::LengthRequired => 411,
            SurfStatusCode::PreconditionFailed => 412,
            SurfStatusCode::PayloadTooLarge => 413,
            SurfStatusCode::UriTooLong => 414,
            SurfStatusCode::UnsupportedMediaType => 415,
            SurfStatusCode::RequestedRangeNotSatisfiable => 416,
            SurfStatusCode::ExpectationFailed => 417,
            SurfStatusCode::ImATeapot => 418,
            SurfStatusCode::MisdirectedRequest => 421,
            SurfStatusCode::UnprocessableEntity => 422,
            SurfStatusCode::Locked => 423,
            SurfStatusCode::FailedDependency => 424,
            SurfStatusCode::TooEarly => 425,
            SurfStatusCode::UpgradeRequired => 426,
            SurfStatusCode::PreconditionRequired => 428,
            SurfStatusCode::TooManyRequests => 429,
            SurfStatusCode::RequestHeaderFieldsTooLarge => 431,
            SurfStatusCode::UnavailableForLegalReasons => 451,
            SurfStatusCode::InternalServerError => 500,
            SurfStatusCode::NotImplemented => 501,
            SurfStatusCode::BadGateway => 502,
            SurfStatusCode::ServiceUnavailable => 503,
            SurfStatusCode::GatewayTimeout => 504,
            SurfStatusCode::HttpVersionNotSupported => 505,
            SurfStatusCode::VariantAlsoNegotiates => 506,
            SurfStatusCode::InsufficientStorage => 507,
            SurfStatusCode::LoopDetected => 508,
            SurfStatusCode::NotExtended => 510,
            SurfStatusCode::NetworkAuthenticationRequired => 511,
        }
    }

    /// The catalogued status with the given number, if there is one.
    pub fn from_code(code: u16) -> (status: Option<SurfStatusCode>)
        ensures
            match status {
                Some(s) => s.code() == code,
                None => !is_catalogued(code),
            },
    {
        match code {
            100 => Some(SurfStatusCode::Continue),
            101 => Some(SurfStatusCode::SwitchingProtocols),
            103 => Some(SurfStatusCode::EarlyHints),
            200 => Some(SurfStatusCode::Okay),
            201 => Some(SurfStatusCode::Created),
            202 => Some(SurfStatusCode::Accepted),
            203 => Some(SurfStatusCode::NonAuthoritativeInformation),
            204 => Some(SurfStatusCode::NoContent),
            205 => Some(SurfStatusCode::ResetContent),
            206 => Some(SurfStatusCode::PartialContent),
            207 => Some(SurfStatusCode::MultiStatus),
            226 => Some(SurfStatusCode::ImUsed),
            300 => Some(SurfStatusCode::MultipleChoice),
            301 => Some(SurfStatusCode::MovedPermanently),
            302 => Some(SurfStatusCode::Found),
            303 => Some(SurfStatusCode::SeeOther),
            304 => Some(SurfStatusCode::NotModified),
            307 => Some(SurfStatusCode::TemporaryRedirect),
            308 => Some(SurfStatusCode::PermanentRedirect),
            400 => Some(SurfStatusCode::BadRequest),
            401 => Some(SurfStatusCode::Unauthorized),
            402 => Some(SurfStatusCode::PaymentRequired),
            403 => Some(SurfStatusCode::Forbidden),
            404 => Some(SurfStatusCode::NotFound),
            405 => Some(SurfStatusCode::MethodNotAllowed),
            406 => Some(SurfStatusCode::NotAcceptable),
            407 => Some(SurfStatusCode::ProxyAuthenticationRequired),
            408 => Some(SurfStatusCode::RequestTimeout),
            409 => Some(SurfStatusCode::Conflict),
            410 => Some(SurfStatusCode::Gone),
            411 => Some(SurfStatusCode::LengthRequired),
            412 => Some(SurfStatusCode::PreconditionFailed),
            413 => Some(SurfStatusCode::PayloadTooLarge),
            414 => Some(SurfStatusCode::UriTooLong),
            415 => Some(SurfStatusCode::UnsupportedMediaType),
            416 => Some(SurfStatusCode::RequestedRangeNotSatisfiable),
            417 => Some(SurfStatusCode::ExpectationFailed),
            418 => Some(SurfStatusCode::ImATeapot),
            421 => Some(SurfStatusCode::MisdirectedRequest),
            422 => Some(SurfStatusCode::UnprocessableEntity),
            423 => Some(SurfStatusCode::Locked),
            424 => Some(SurfStatusCode::FailedDependency),
            425 => Some(SurfStatusCode::TooEarly),
            426 => Some(SurfStatusCode::UpgradeRequired),
            428 => Some(SurfStatusCode::PreconditionRequired),
            429 => Some(SurfStatusCode::TooManyRequests),
            431 => Some(SurfStatusCode::RequestHeaderFieldsTooLarge),
            451 => Some(SurfStatusCode::UnavailableForLegalReasons),
            500 => Some(SurfStatusCode::InternalServerError),
            501 => Some(SurfStatusCode::NotImplemented),
            502 => Some(SurfStatusCode::BadGateway),
            503 => Some(SurfStatusCode::ServiceUnavailable),
            504 => Some(SurfStatusCode::GatewayTimeout),
            505 => Some(SurfStatusCode::HttpVersionNotSupported),
            506 => Some(SurfStatusCode::VariantAlsoNegotiates),
            507 => Some(SurfStatusCode::InsufficientStorage),
            508 => Some(SurfStatusCode::LoopDetected),
            510 => Some(SurfStatusCode::NotExtended),
            511 => Some(SurfStatusCode::NetworkAuthenticationRequired),
            _ => None,
        }
    }

    /// Whether the neutral schema has no status for this one.
    pub open spec fn spec_is_uncovered(self) -> bool {
        self == SurfStatusCode::EarlyHints || self == SurfStatusCode::TooEarly
    }

    /// Whether the neutral schema has no status for this one.
    #[verifier::when_used_as_spec(spec_is_uncovered)]
    pub fn is_uncovered(self) -> (uncovered: bool)
        ensures
            uncovered == self.spec_is_uncovered(),
    {
        match self {
            SurfStatusCode::EarlyHints | SurfStatusCode::TooEarly => true,
            _ => false,
        }
    }
}

/// Whether some status of the catalogue has the number `code`.
pub open spec fn is_catalogued(code: u16) -> bool {
    exists|s: SurfStatusCode| s.code() == code
}

/// The neutral status for a status of the catalogue.
pub open spec fn spec_status_from_surf(status: SurfStatusCode) -> Result<u16, SurfErrorView> {
    if status.is_uncovered() {
        Err(SurfErrorView::InvalidStatusCode(status.code()))
    } else {
        Ok(status.code())
    }
}

/// The status of the catalogue for a neutral status code.
pub open spec fn spec_status_to_surf(code: u16) -> Result<SurfStatusCode, SurfErrorView> {
    if exists|s: SurfStatusCode| s.code() == code && !s.is_uncovered() {
        Ok(choose|s: SurfStatusCode| s.code() == code && !s.is_uncovered())
    } else {
        Err(SurfErrorView::InvalidStatusCode(code))
    }
}

/// Every catalogued number is a status code of the neutral schema, and no two
/// statuses of the catalogue share a number.
pub proof fn lemma_catalogue(a: SurfStatusCode, b: SurfStatusCode)
    ensures
        is_status_code(a.code()),
        a.code() == b.code() ==> a == b,
{
}

/// Converts a status of surf's catalogue to the neutral status of the same
/// number. Early Hints and Too Early are refused with `InvalidStatusCode`.
pub fn status_from_surf(status: SurfStatusCode) -> (result: Result<StatusCode, SurfError>)
    ensures
        match result {
            Ok(s) => spec_status_from_surf(status) == Ok::<u16, SurfErrorView>(s.code()),
            Err(e) => spec_status_from_surf(status) == Err::<u16, SurfErrorView>(e@),
        },
{
    let code = status.code();
    if status.is_uncovered() {
        return Err(SurfError::InvalidStatusCode(code));
    }
    proof {
        lemma_catalogue(status, status);
    }
    match StatusCode::from_u16(code) {
        Some(s) => Ok(s),
        None => Err(SurfError::InvalidStatusCode(code)),
    }
}

/// Converts a neutral status to the status of surf's catalogue with the same
/// number. A number outside the catalogue, and the numbers of Early Hints and
/// Too Early, are refused with `InvalidStatusCode`.
pub fn status_to_surf(status: StatusCode) -> (result: Result<SurfStatusCode, SurfError>)
    ensures
        match result {
            Ok(s) => spec_status_to_surf(status.code()) == Ok::<SurfStatusCode, SurfErrorView>(s),
            Err(e) => spec_status_to_surf(status.code()) == Err::<SurfStatusCode, SurfErrorView>(e@),
        },
{
    let code = status.as_u16();
    match SurfStatusCode::from_code(code) {
        Some(s) => {
            if s.is_uncovered() {
                proof {
                    assert forall|t: SurfStatusCode| t.code() == code implies t.is_uncovered() by {
                        lemma_catalogue(s, t);
                    }
                }
                Err(SurfError::InvalidStatusCode(code))
            } else {
                proof {
                    let t = choose|t: SurfStatusCode| t.code() == code && !t.is_uncovered();
                    lemma_catalogue(s, t);
                }
                Ok(s)
            }
        },
        None => Err(SurfError::InvalidStatusCode(code)),
    }
}

} // verus!
