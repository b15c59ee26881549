//! Trusted wrappers around the OS calls the library relies on: `fcntl` flag
//! queries and updates, descriptor duplication, and raw reads, writes and
//! seeks. Verus believes each contract; the bodies only make the call and
//! convert the error to [`OsError`](crate::error::OsError).

use vstd::prelude::*;

use crate::error::OsError;
use crate::nonblocking::NONBLOCK_MASK;

verus! {

/// Relies on `libc::O_NONBLOCK`: the Linux value of the nonblocking status
/// flag, `0o4000`.
#[verifier::external_body]
pub(crate) fn o_nonblock() -> (r: i32)
    ensures
        r == NONBLOCK_MASK,
{
    libc::O_NONBLOCK
}

/// Relies on `libc::EPERM`: the Linux "operation not permitted" error code,
/// `1`.
#[verifier::external_body]
pub(crate) fn eperm() -> (r: i32)
    ensures
        r == 1,
{
    libc::EPERM
}

/// Relies on `nix::fcntl::fcntl` with `F_GETFL`: returns the descriptor's
/// current status flags, or the reported `errno` when the query fails.
/// Nothing is promised of the flags themselves: they are live OS state.
#[verifier::external_body]
pub(crate) fn fcntl_getfl(fd: i32) -> (r: Result<i32, OsError>) {
    match nix::fcntl::fcntl(fd, nix::fcntl::FcntlArg::F_GETFL) {
        Ok(flags) => Ok(flags),
        Err(e) => Err(OsError { code: Some(e as i32) }),
    }
}

/// Relies on `nix::fcntl::fcntl` with `F_SETFL`: writes the given status
/// flags to the descriptor, or reports the `errno` on failure.
#[verifier::external_body]
pub(crate) fn fcntl_setfl(fd: i32, flags: i32) -> (r: Result<(), OsError>) {
    let arg = nix::fcntl::FcntlArg::F_SETFL(nix::fcntl::OFlag::from_bits_truncate(flags));
    match nix::fcntl::fcntl(fd, arg) {
        Ok(_) => Ok(()),
        Err(e) => Err(OsError { code: Some(e as i32) }),
    }
}

/// Relies on `nix::fcntl::fcntl` with `F_DUPFD_CLOEXEC`: duplicates the
/// descriptor onto the lowest free descriptor number at or above `min`,
/// with close-on-exec set on the duplicate.
#[verifier::external_body]
pub(crate) fn fcntl_dupfd_cloexec(fd: i32, min: i32) -> (r: Result<i32, OsError>)
    ensures
        r matches Ok(newfd) ==> newfd >= min,
{
    match nix::fcntl::fcntl(fd, nix::fcntl::FcntlArg::F_DUPFD_CLOEXEC(min)) {
        Ok(newfd) => Ok(newfd),
        Err(e) => Err(OsError { code: Some(e as i32) }),
    }
}

/// Relies on `nix::unistd::read`: one `read(2)` attempt. On success at most
/// `buf.len()` bytes at the front of `buf` are replaced; the buffer's length
/// never changes, and bytes past the count read keep their old values.
#[verifier::external_body]
pub(crate) fn read_fd(fd: i32, buf: &mut Vec<u8>) -> (r: Result<usize, OsError>)
    ensures
        final(buf)@.len() == old(buf)@.len(),
        r matches Ok(n) ==> n <= old(buf)@.len() && forall|i: int|
            n <= i < old(buf)@.len() ==> final(buf)@[i] == old(buf)@[i],
{
    match nix::unistd::read(fd, buf.as_mut_slice()) {
        Ok(n) => Ok(n),
        Err(e) => Err(OsError { code: Some(e as i32) }),
    }
}

/// Relies on `nix::unistd::write`: one `write(2)` attempt on `buf[off..]`.
/// On success the count written is at most the number of bytes offered.
#[verifier::external_body]
pub(crate) fn write_fd_from(fd: i32, buf: &Vec<u8>, off: usize) -> (r: Result<usize, OsError>)
    requires
        off <= buf@.len(),
    ensures
        r matches Ok(n) ==> off + n <= buf@.len(),
{
    match nix::unistd::write(fd, &buf[off..]) {
        Ok(n) => Ok(n),
        Err(e) => Err(OsError { code: Some(e as i32) }),
    }
}

/// Relies on `nix::unistd::lseek` with `SEEK_SET`: on success the returned
/// offset is exactly the one requested, and `lseek(2)` accepts only a
/// nonnegative one.
#[verifier::external_body]
pub(crate) fn lseek_set(fd: i32, off: i64) -> (r: Result<i64, OsError>)
    ensures
        r matches Ok(p) ==> p == off && off >= 0,
{
    match nix::unistd::lseek(fd, off, nix::unistd::Whence::SeekSet) {
        Ok(p) => Ok(p),
        Err(e) => Err(OsError { code: Some(e as i32) }),
    }
}

/// Relies on `nix::unistd::lseek` with `SEEK_CUR`: on success the returned
/// offset is the new, nonnegative position.
#[verifier::external_body]
pub(crate) fn lseek_cur(fd: i32, off: i64) -> (r: Result<i64, OsError>)
    ensures
        r matches Ok(p) ==> p >= 0,
{
    match nix::unistd::lseek(fd, off, nix::unistd::Whence::SeekCur) {
        Ok(p) => Ok(p),
        Err(e) => Err(OsError { code: Some(e as i32) }),
    }
}

/// Relies on `nix::unistd::lseek` with `SEEK_END`: on success the returned
/// offset is the new, nonnegative position.
#[verifier::external_body]
pub(crate) fn lseek_end(fd: i32, off: i64) -> (r: Result<i64, OsError>)
    ensures
        r matches Ok(p) ==> p >= 0,
{
    match nix::unistd::lseek(fd, off, nix::unistd::Whence::SeekEnd) {
        Ok(p) => Ok(p),
        Err(e) => Err(OsError { code: Some(e as i32) }),
    }
}

} // verus!
