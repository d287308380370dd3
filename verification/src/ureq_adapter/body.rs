//! Collecting the body of a response that ureq hands over as a reader.

use vstd::prelude::*;

use crate::ureq_adapter::error::UreqError;

verus! {

/// The number of bytes reserved for a body whose length is not announced, or
/// is announced as more than the machine can address.
pub const DEFAULT_BODY_CAPACITY: usize = 4096;

/// The number of bytes to reserve for a body of the announced length.
pub open spec fn spec_body_capacity(content_length: Option<u64>) -> usize {
    match content_length {
        Some(n) => if n <= usize::MAX {
            n as usize
        } else {
            DEFAULT_BODY_CAPACITY
        },
        None => DEFAULT_BODY_CAPACITY,
    }
}

/// The number of bytes to reserve before a body is read: the announced length
/// where there is one that fits in `usize`, and 4096 otherwise.
pub fn body_capacity(content_length: Option<u64>) -> (capacity: usize)
    ensures
        capacity == spec_body_capacity(content_length),
{
    match content_length {
        Some(n) => if n <= usize::MAX as u64 {
            n as usize
        } else {
            DEFAULT_BODY_CAPACITY
        },
        None => DEFAULT_BODY_CAPACITY,
    }
}

/// Joins the head of a response with what reading its body gave: the head and
/// the bytes where the body was read to its end, and the `Io` error with the
/// reader's error inside where it was not.
pub fn to_response<H>(head: H, read: Result<Vec<u8>, std::io::Error>) -> (result: Result<
    (H, Vec<u8>),
    UreqError,
>)
    ensures
        match read {
            Ok(body) => result == Ok::<(H, Vec<u8>), UreqError>((head, body)),
            Err(e) => result == Err::<(H, Vec<u8>), UreqError>(UreqError::Io(e)),
        },
{
    match read {
        Ok(body) => Ok((head, body)),
        Err(e) => Err(UreqError::Io(e)),
    }
}

} // verus!
