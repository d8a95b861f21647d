//! The closed error taxonomy of the pipeline: one variant per failure
//! category, so that the boundary layer can pattern-match on the kind.

use vstd::prelude::*;

verus! {

/// Why a resize request failed.
#[derive(Debug, Clone, Copy, PartialEq, Eq, Structural)]
pub enum Error {
    /// Malformed input: an unrecognized mode, or a dimension that is not a
    /// positive integer.
    InvalidInput,
    /// The URL's host is absent or not on the allow-list.
    ForbiddenHost,
    /// The upstream response carried a non-success status code.
    Upstream,
    /// The upstream response declared no content length, or declared zero.
    /// Treated as a fetch failure, kept distinct so callers can tell the
    /// size precondition from a bad status.
    SizeUnknown,
    /// The fetched bytes did not decode as a supported image.
    Decode,
    /// An invariant violation inside the resize or encode step: a defect,
    /// not a user error.
    Internal,
}

} // verus!
