//! Error taxonomy shared by the extent-map query and the position prober.

use vstd::prelude::*;

verus! {

/// Errno value Linux uses for an operation the filesystem does not support.
pub const EOPNOTSUPP_CODE: i32 = 95;

/// Errno value Linux uses for "no such device or address"; the seek
/// primitive overloads it to say that nothing lies at or past the target.
pub const ENXIO_CODE: i32 = 6;

/// A failure of one of the kernel primitives, classified so that callers can
/// tell a filesystem that cannot report extents from an ordinary I/O error.
#[derive(Clone, Copy, Debug, PartialEq, Eq, Structural)]
pub enum QueryError {
    /// The extent-map query is unavailable on this filesystem; the caller
    /// may fall back to scanning with the position prober.
    UnsupportedFilesystem,
    /// Any other failure, carrying the originating OS error code verbatim.
    OsFailure(i32),
}

/// How a nonzero errno from the extent-map query is classified.
pub open spec fn spec_fiemap_error(errno: i32) -> QueryError {
    if errno == EOPNOTSUPP_CODE {
        QueryError::UnsupportedFilesystem
    } else {
        QueryError::OsFailure(errno)
    }
}

/// Classify the errno left behind by a failed extent-map query: the
/// "not supported" code becomes the distinct fallback-worthy variant, every
/// other code is surfaced verbatim.
pub fn fiemap_error_of(errno: i32) -> (e: QueryError)
    ensures
        e == spec_fiemap_error(errno),
{
    if errno == EOPNOTSUPP_CODE {
        QueryError::UnsupportedFilesystem
    } else {
        QueryError::OsFailure(errno)
    }
}

} // verus!
