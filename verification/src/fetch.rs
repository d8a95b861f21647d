//! The decisions of the image fetcher. The network transfer itself is the
//! caller's: it hands over the response's status and declared content length,
//! and this module says whether the body is worth reading and how large a
//! buffer to pre-size for it.

use crate::errors::Error;
use vstd::prelude::*;

verus! {

/// A success HTTP status as the fetcher accepts it.
pub open spec fn status_ok(status: u16) -> bool {
    200 <= status < 300
}

/// Validates the upstream response's metadata before any body is read: a
/// non-success status is an upstream failure, and a missing or zero declared
/// content length fails the size precondition even on a success status. On
/// success the declared length comes back for pre-sizing the read buffer.
pub fn check_response_meta(status: u16, content_length: Option<u64>) -> (r: Result<u64, Error>)
    ensures
        !status_ok(status) ==> r == Err::<u64, Error>(Error::Upstream),
        status_ok(status) ==> match content_length {
            Some(n) => if n >= 1 {
                r == Ok::<u64, Error>(n)
            } else {
                r == Err::<u64, Error>(Error::SizeUnknown)
            },
            None => r == Err::<u64, Error>(Error::SizeUnknown),
        },
{
    if !(200 <= status && status < 300) {
        return Err(Error::Upstream);
    }
    match content_length {
        Some(n) => {
            if n >= 1 {
                Ok(n)
            } else {
                Err(Error::SizeUnknown)
            }
        },
        None => Err(Error::SizeUnknown),
    }
}

} // verus!
