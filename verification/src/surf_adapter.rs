//! The adapter for surf, a client with a request and response model of its
//! own: separate enumerations for methods, status codes and protocol versions,
//! and headers that are text.

pub mod convert;
pub mod error;
pub mod laws;
pub mod model;
pub mod status;

pub use convert::{
    from_request, from_request_with_url, headers_from_surf, headers_to_surf, method_from_surf,
    method_to_surf, response_head, to_response, version_from_surf, version_to_surf,
};
pub use error::{SurfError, SurfErrorView};
pub use model::{SurfMethod, SurfRequest, SurfResponse, SurfVersion, TextHeader};
pub use status::{status_from_surf, status_to_surf, SurfStatusCode};
