//! Primitives for discovering which byte ranges of a sparse file are
//! physically allocated.
//!
//! Two independent building blocks are offered, both meant to run against an
//! already-open file handle:
//!
//! * the extent-map query: a fixed-layout request record handed to the
//!   kernel, which fills in a bounded list of allocated extents; and
//! * the position prober: an absolute seek whose "no such device or address"
//!   outcome is translated into an explicit end-of-region marker.
//!
//! The kernel calls themselves sit behind thin unverified shims; everything
//! that interprets their inputs and outputs — request construction, error
//! classification, pagination over the bounded extent buffer — is verified
//! here.

pub mod error;
pub mod extent;
pub mod seek;
