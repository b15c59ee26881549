//! The error surfaced by every operation that can fail at the OS level.

use vstd::prelude::*;

verus! {

/// A syscall failure (flag query or set, registration, read, write, seek).
///
/// Carries the raw OS error code (`errno`) when one was reported; `None`
/// stands for a failure without a code, such as a descriptor that accepts
/// no further bytes during a whole-buffer write.
#[derive(Clone, Copy, Debug)]
pub struct OsError {
    /// The raw OS error code, if one was reported.
    pub code: Option<i32>,
}

} // verus!
