//! Standard-stream duplication: close-on-exec duplicates of the process's
//! standard streams, independent of any existing buffered wrapper, so the
//! caller gets a descriptor not shared with other consumers of the stream.

use vstd::prelude::*;

use crate::error::OsError;
use crate::os;

verus! {

/// The POSIX descriptor number of standard input.
pub const STDIN_FD: i32 = 0;

/// The POSIX descriptor number of standard output.
pub const STDOUT_FD: i32 = 1;

/// The POSIX descriptor number of standard error.
pub const STDERR_FD: i32 = 2;

/// A close-on-exec duplicate of `fd`, on a fresh descriptor number. The
/// duplicate has its own lifetime: closing it leaves `fd` open, and it is
/// not in nonblocking mode unless `fd` already was (the two share status
/// flags through the open file description).
pub fn dup_cloexec(fd: i32) -> (r: Result<i32, OsError>)
    ensures
        r matches Ok(newfd) ==> newfd >= 0,
{
    os::fcntl_dupfd_cloexec(fd, 0)
}

/// A close-on-exec duplicate of standard input. Unlike the process-wide
/// buffered handle, the duplicate is unbuffered.
pub fn raw_stdin() -> (r: Result<i32, OsError>)
    ensures
        r matches Ok(newfd) ==> newfd >= 0,
{
    dup_cloexec(STDIN_FD)
}

/// A close-on-exec duplicate of standard output. Unlike the process-wide
/// buffered handle, the duplicate is unbuffered.
pub fn raw_stdout() -> (r: Result<i32, OsError>)
    ensures
        r matches Ok(newfd) ==> newfd >= 0,
{
    dup_cloexec(STDOUT_FD)
}

/// A close-on-exec duplicate of standard error. Unlike the process-wide
/// buffered handle, the duplicate is unbuffered.
pub fn raw_stderr() -> (r: Result<i32, OsError>)
    ensures
        r matches Ok(newfd) ==> newfd >= 0,
{
    dup_cloexec(STDERR_FD)
}

} // verus!
