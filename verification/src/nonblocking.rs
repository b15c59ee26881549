//! The nonblocking-mode controller: querying and setting the `O_NONBLOCK`
//! status flag of a raw descriptor.
//!
//! The flag is never cached: each query and each update reads the live OS
//! state, so the controller cannot diverge from mutation done elsewhere.
//! The read-modify-write in [`set_nonblocking`] is not atomic; it is correct
//! only under exclusive access to the descriptor's flag state.

use vstd::prelude::*;

use crate::error::OsError;
use crate::os;

verus! {

/// The `O_NONBLOCK` bit of a descriptor's status flags, as Linux defines it.
pub const NONBLOCK_MASK: i32 = 0o4000;

/// The status-flag word `flags` with the nonblocking bit set (`enable`) or
/// cleared (`!enable`), all other bits untouched.
pub open spec fn with_nonblock(flags: i32, enable: bool) -> i32 {
    if enable {
        flags | NONBLOCK_MASK
    } else {
        flags & !NONBLOCK_MASK
    }
}

/// Whether the status-flag word `flags` has the nonblocking bit set.
pub open spec fn has_nonblock(flags: i32) -> bool {
    flags & NONBLOCK_MASK != 0
}

/// Computes [`with_nonblock`] on a live flag word.
pub fn flags_with_nonblock(flags: i32, enable: bool) -> (new: i32)
    ensures
        new == with_nonblock(flags, enable),
{
    let mask = os::o_nonblock();
    if enable {
        flags | mask
    } else {
        flags & !mask
    }
}

/// Computes [`has_nonblock`] on a live flag word.
pub fn flags_have_nonblock(flags: i32) -> (b: bool)
    ensures
        b == has_nonblock(flags),
{
    let mask = os::o_nonblock();
    flags & mask != 0
}

/// Law: updating the flag does exactly what was asked, and nothing else.
/// The updated word reports the requested mode, and every other bit of the
/// word is untouched.
pub proof fn lemma_with_nonblock_bits(flags: i32, enable: bool)
    ensures
        has_nonblock(with_nonblock(flags, enable)) == enable,
        with_nonblock(flags, enable) & !NONBLOCK_MASK == flags & !NONBLOCK_MASK,
{
    assert((flags | 0o4000i32) & 0o4000i32 != 0) by (bit_vector);
    assert((flags & !0o4000i32) & 0o4000i32 == 0) by (bit_vector);
    assert((flags | 0o4000i32) & !0o4000i32 == flags & !0o4000i32) by (bit_vector);
    assert((flags & !0o4000i32) & !0o4000i32 == flags & !0o4000i32) by (bit_vector);
}

/// Law: flag toggling round-trips. A later update fully overwrites an
/// earlier one, so toggling in either direction, any number of times, lands
/// on the word the last update alone would produce; in particular a repeated
/// update is idempotent.
pub proof fn lemma_with_nonblock_overwrites(flags: i32, first: bool, second: bool)
    ensures
        with_nonblock(with_nonblock(flags, first), second) == with_nonblock(flags, second),
{
    assert((flags | 0o4000i32) | 0o4000i32 == flags | 0o4000i32) by (bit_vector);
    assert((flags & !0o4000i32) | 0o4000i32 == flags | 0o4000i32) by (bit_vector);
    assert((flags | 0o4000i32) & !0o4000i32 == flags & !0o4000i32) by (bit_vector);
    assert((flags & !0o4000i32) & !0o4000i32 == flags & !0o4000i32) by (bit_vector);
}

/// Reads the descriptor's status flags and reports whether nonblocking mode
/// is on. The answer is live OS state, so no more can be promised of it than
/// that it reflects the flags the query returned; it fails exactly when the
/// flag query itself fails (invalid or closed descriptor).
pub fn get_nonblocking(fd: i32) -> (r: Result<bool, OsError>) {
    match os::fcntl_getfl(fd) {
        Ok(flags) => Ok(flags_have_nonblock(flags)),
        Err(e) => Err(e),
    }
}

/// Turns nonblocking mode on or off: reads the current status flags,
/// computes [`with_nonblock`] of them, and writes the result back. The
/// read-modify-write is not atomic; callers need exclusive control of the
/// descriptor. It fails exactly when the flag query or the flag write fails.
pub fn set_nonblocking(fd: i32, nonblocking: bool) -> (r: Result<(), OsError>) {
    match os::fcntl_getfl(fd) {
        Ok(previous) => {
            let new = flags_with_nonblock(previous, nonblocking);
            os::fcntl_setfl(fd, new)
        },
        Err(e) => Err(e),
    }
}

} // verus!
