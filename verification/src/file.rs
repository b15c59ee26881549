//! The pollable-file adapter: wraps a raw descriptor, registers it with the
//! poller, and falls back to a synthetic always-ready registration for
//! descriptors the poller cannot track.

use vstd::prelude::*;

use crate::error::OsError;
use crate::nonblocking;
use crate::os;
use crate::reactor;

verus! {

/// Where to seek from, for [`File::seek`].
#[derive(Clone, Copy, Debug, PartialEq, Eq, Structural)]
pub enum SeekFrom {
    /// An absolute offset from the start of the file.
    Start(u64),
    /// A signed offset from the current position.
    Current(i64),
    /// A signed offset from the end of the file.
    End(i64),
}

/// Tells the adapter's fallback heuristic apart from fatal registration
/// failures: exactly the "operation not permitted" code signals a
/// descriptor the poller cannot track (a regular file). This is a
/// documented platform heuristic, not a portable guarantee.
pub fn is_unpollable_signal(e: &OsError) -> (b: bool)
    ensures
        b == (e.code == Some(1i32)),
{
    let ep = os::eperm();
    match e.code {
        Some(c) => c == ep,
        None => false,
    }
}

/// Wraps a raw descriptor so it can be registered with a readiness poller.
///
/// Registration normally hands the descriptor to the poller's OS selector.
/// When the selector refuses it with the "operation not permitted" signal
/// (the signature of an unpollable regular file), the adapter reverts
/// nonblocking mode — it has no meaning for a descriptor the poller cannot
/// track — and substitutes a user-space registration that is permanently
/// ready in both directions, so reads and writes proceed as ordinary
/// blocking-equivalent calls without ever waiting on the poller.
///
/// The adapter must be the exclusive owner of the descriptor's flag state
/// for its lifetime; it never closes the descriptor.
#[derive(Debug)]
pub struct File {
    fd: i32,
    evented: Option<mio::Registration>,
}

impl File {
    /// The wrapped raw descriptor.
    pub closed spec fn fd_spec(&self) -> int {
        self.fd as int
    }

    /// Whether the adapter took the fallback path: the synthetic
    /// registration is present and the poller does not track the
    /// descriptor.
    pub closed spec fn in_fallback(&self) -> bool {
        self.evented is Some
    }

    /// Wraps `fd` without touching its flags. The caller attests that the
    /// descriptor is already in nonblocking mode; wrapping one that is not
    /// leads to reads and writes that block the whole scheduler.
    pub fn raw_new(fd: i32) -> (f: File)
        ensures
            f.fd_spec() == fd,
            !f.in_fallback(),
    {
        File { fd, evented: None }
    }

    /// Enables nonblocking mode on `fd` (idempotent if already on) and
    /// wraps it. Fails exactly when the flag update fails; no adapter is
    /// produced then.
    pub fn new_nb(fd: i32) -> (r: Result<File, OsError>)
        ensures
            r matches Ok(f) ==> f.fd_spec() == fd && !f.in_fallback(),
    {
        match nonblocking::set_nonblocking(fd, true) {
            Ok(()) => Ok(File::raw_new(fd)),
            Err(e) => Err(e),
        }
    }

    /// The wrapped raw descriptor, for diagnostics or manual flag queries.
    pub fn as_raw_fd(&self) -> (fd: i32)
        ensures
            fd == self.fd_spec(),
    {
        self.fd
    }

    /// Whether the adapter is in fallback mode.
    pub fn is_fallback(&self) -> (b: bool)
        ensures
            b == self.in_fallback(),
    {
        match &self.evented {
            Some(_) => true,
            None => false,
        }
    }

    /// Asks the poller to track the descriptor for the given interest.
    ///
    /// On the normal path the OS selector takes the descriptor and the
    /// adapter stays out of fallback mode. When the selector refuses with
    /// the unpollable signal ([`is_unpollable_signal`]), nonblocking mode
    /// is reverted, a permanently-ready user-space registration is put in
    /// its place, and registration still succeeds. Any other failure — of
    /// the selector, of the flag revert, or of the substitute registration
    /// — is returned unchanged and leaves the fallback state as it was.
    pub fn register(
        &mut self,
        poll: &mio::Poll,
        token: &mio::Token,
        interest: &mio::Ready,
        opts: &mio::PollOpt,
    ) -> (r: Result<(), OsError>)
        ensures
            final(self).fd_spec() == old(self).fd_spec(),
            r matches Err(_) ==> final(self).in_fallback() == old(self).in_fallback(),
            old(self).in_fallback() ==> final(self).in_fallback(),
    {
        match reactor::evented_fd_register(poll, self.fd, token, interest, opts) {
            Ok(()) => Ok(()),
            Err(e) => {
                if !is_unpollable_signal(&e) {
                    return Err(e);
                }
                match nonblocking::set_nonblocking(self.fd, false) {
                    Ok(()) => {},
                    Err(e2) => {
                        return Err(e2);
                    },
                }
                let (reg, setter) = reactor::registration_new();
                match reactor::registration_register(&reg, poll, token, interest, opts) {
                    Ok(()) => {},
                    Err(e2) => {
                        return Err(e2);
                    },
                }
                match reactor::set_readiness_read_write(&setter) {
                    Ok(()) => {},
                    Err(e2) => {
                        return Err(e2);
                    },
                }
                self.evented = Some(reg);
                Ok(())
            },
        }
    }

    /// Updates the poller's tracking: through the OS selector on the normal
    /// path, through the substitute registration in fallback mode.
    pub fn reregister(
        &self,
        poll: &mio::Poll,
        token: &mio::Token,
        interest: &mio::Ready,
        opts: &mio::PollOpt,
    ) -> (r: Result<(), OsError>) {
        match &self.evented {
            None => reactor::evented_fd_reregister(poll, self.fd, token, interest, opts),
            Some(reg) => reactor::registration_reregister(reg, poll, token, interest, opts),
        }
    }

    /// Stops the poller's tracking: through the OS selector on the normal
    /// path, through the substitute registration in fallback mode.
    pub fn deregister(&self, poll: &mio::Poll) -> (r: Result<(), OsError>) {
        match &self.evented {
            None => reactor::evented_fd_deregister(poll, self.fd),
            Some(reg) => reactor::registration_deregister(reg, poll),
        }
    }

    /// One read attempt on the descriptor, into the front of `buf`. The
    /// buffer keeps its length, and bytes past the count read keep their
    /// old values. Failures, including "would block" on a nonblocking
    /// descriptor, pass through unchanged.
    pub fn read(&mut self, buf: &mut Vec<u8>) -> (r: Result<usize, OsError>)
        ensures
            final(self).fd_spec() == old(self).fd_spec(),
            final(self).in_fallback() == old(self).in_fallback(),
            final(buf)@.len() == old(buf)@.len(),
            r matches Ok(n) ==> n <= old(buf)@.len() && forall|i: int|
                n <= i < old(buf)@.len() ==> final(buf)@[i] == old(buf)@[i],
    {
        os::read_fd(self.fd, buf)
    }

    /// One write attempt offering all of `buf`; the count accepted is at
    /// most `buf.len()`. Failures pass through unchanged.
    pub fn write(&mut self, buf: &Vec<u8>) -> (r: Result<usize, OsError>)
        ensures
            final(self).fd_spec() == old(self).fd_spec(),
            final(self).in_fallback() == old(self).in_fallback(),
            r matches Ok(n) ==> n <= buf@.len(),
    {
        os::write_fd_from(self.fd, buf, 0)
    }

    /// Writes the whole of `buf`, retrying after partial writes. The first
    /// failure is returned unchanged; a descriptor that accepts no further
    /// bytes yields an error without a code.
    pub fn write_all(&mut self, buf: &Vec<u8>) -> (r: Result<(), OsError>)
        ensures
            final(self).fd_spec() == old(self).fd_spec(),
            final(self).in_fallback() == old(self).in_fallback(),
    {
        let n = buf.len();
        let mut off: usize = 0;
        while off < n
            invariant
                n == buf@.len(),
                off <= n,
                self.fd_spec() == old(self).fd_spec(),
                self.in_fallback() == old(self).in_fallback(),
            decreases n - off,
        {
            match os::write_fd_from(self.fd, buf, off) {
                Ok(written) => {
                    if written == 0 {
                        return Err(OsError { code: None });
                    }
                    off = off + written;
                },
                Err(e) => {
                    return Err(e);
                },
            }
        }
        Ok(())
    }

    /// Flushing is a direct pass-through: a raw descriptor buffers nothing,
    /// so there is nothing to flush and the call never suspends.
    pub fn flush(&mut self) -> (r: Result<(), OsError>)
        ensures
            final(self).fd_spec() == old(self).fd_spec(),
            final(self).in_fallback() == old(self).in_fallback(),
            r is Ok,
    {
        Ok(())
    }

    /// Moves the descriptor's file offset. Seeking to `Start(o)` lands
    /// exactly on `o`; the offset returned is the new position. Failures
    /// pass through unchanged.
    pub fn seek(&mut self, pos: SeekFrom) -> (r: Result<u64, OsError>)
        requires
            pos matches SeekFrom::Start(o) ==> o <= i64::MAX,
        ensures
            final(self).fd_spec() == old(self).fd_spec(),
            final(self).in_fallback() == old(self).in_fallback(),
            pos matches SeekFrom::Start(o) ==> (r matches Ok(p) ==> p == o),
    {
        let raw = match pos {
            SeekFrom::Start(o) => os::lseek_set(self.fd, o as i64),
            SeekFrom::Current(o) => os::lseek_cur(self.fd, o),
            SeekFrom::End(o) => os::lseek_end(self.fd, o),
        };
        match raw {
            Ok(p) => Ok(p as u64),
            Err(e) => Err(e),
        }
    }
}

} // verus!
