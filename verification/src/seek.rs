//! The position prober: classification of an absolute-seek outcome.

use vstd::prelude::*;

use crate::error::{QueryError, ENXIO_CODE};

verus! {

/// Outcome of probing one logical offset: either the cursor now stands at a
/// concrete offset, or nothing lies at or past the target.
#[derive(Clone, Copy, Debug, PartialEq, Eq, Structural)]
pub enum SeekOff {
    /// The cursor was repositioned to this absolute offset.
    Offset(u64),
    /// No valid position exists at or beyond the requested offset.
    EOF,
}

/// How a raw seek outcome (resulting offset, or errno) is classified: the
/// "no such device or address" code is a normal terminal result, not an
/// error; every other errno is surfaced verbatim.
pub open spec fn spec_classify_seek(res: Result<u64, i32>) -> Result<SeekOff, QueryError> {
    match res {
        Ok(off) => Ok(SeekOff::Offset(off)),
        Err(errno) => if errno == ENXIO_CODE {
            Ok(SeekOff::EOF)
        } else {
            Err(QueryError::OsFailure(errno))
        },
    }
}

/// Translate a raw seek outcome into a `SeekOff`, mapping the designated
/// end-of-region errno to the marker instead of propagating it as an error.
pub fn classify_seek(res: Result<u64, i32>) -> (r: Result<SeekOff, QueryError>)
    ensures
        r == spec_classify_seek(res),
{
    match res {
        Ok(off) => Ok(SeekOff::Offset(off)),
        Err(errno) => if errno == ENXIO_CODE {
            Ok(SeekOff::EOF)
        } else {
            Err(QueryError::OsFailure(errno))
        },
    }
}

/// An owned file descriptor, the handle both kernel primitives operate on.
/// Opaque here: the library never opens, closes or reads through it.
#[verifier::external_type_specification]
#[verifier::external_body]
pub struct ExOwnedFd(rustix::fd::OwnedFd);

/// Relies on `rustix::fs::seek` with `SeekFrom::Start`, which performs
/// `lseek(fd, to, SEEK_SET)`: on success the cursor now stands at the
/// requested absolute offset and exactly that offset is returned; on failure
/// the raw OS error code is handed back.
#[verifier::external_body]
fn seek_from_start(fd: &rustix::fd::OwnedFd, to: u64) -> (r: Result<u64, i32>)
    ensures
        r matches Ok(off) ==> off == to,
{
    match rustix::fs::seek(fd, rustix::fs::SeekFrom::Start(to)) {
        Ok(off) => Ok(off),
        Err(e) => Err(e.raw_os_error()),
    }
}

/// Reposition the handle's cursor to the given absolute byte offset. A
/// successful probe yields exactly the requested offset; the designated
/// end-of-region errno is translated into the `EOF` marker rather than
/// surfacing as an error, so a returned failure is always an ordinary OS
/// failure and never carries that code.
pub fn lseek_to(fd: &rustix::fd::OwnedFd, to: u64) -> (r: Result<SeekOff, QueryError>)
    ensures
        r matches Ok(SeekOff::Offset(off)) ==> off == to,
        r matches Err(e) ==> e is OsFailure,
        r matches Err(QueryError::OsFailure(code)) ==> code != ENXIO_CODE,
{
    classify_seek(seek_from_start(fd, to))
}

} // verus!
