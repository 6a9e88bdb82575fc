//! Verified core of an image-link maintenance tool: link probing strategy,
//! HTTP error classification, and the bounded-download / temp-file rules.
//!
//! Network and filesystem access live outside this crate; the logic here is
//! pure and fully specified, taking the observed status codes, transport
//! failures, body sizes and directory listings as plain values.

use vstd::prelude::*;

pub mod classify;
pub mod download;
pub mod probe;
pub mod tempfiles;
pub mod text;
pub mod validator;

verus! {

/// Upper bound, in bytes, on any downloaded body (50 MiB).
pub const MAX_DOWNLOAD_SIZE: u64 = 50 * 1024 * 1024;

} // verus!
