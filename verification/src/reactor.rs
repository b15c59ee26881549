//! Trusted declarations and wrappers for the poller the adapter registers
//! with: the poll handle, registration tokens, interest and option words,
//! and the user-space registration used by the always-ready fallback.
//! Verus sees these types as opaque and believes each wrapper's contract;
//! the bodies only make the call and convert the error.

use vstd::prelude::*;

use crate::error::OsError;

verus! {

#[verifier::external_type_specification]
#[verifier::external_body]
pub struct ExPoll(mio::Poll);

#[verifier::external_type_specification]
#[verifier::external_body]
pub struct ExToken(mio::Token);

#[verifier::external_type_specification]
#[verifier::external_body]
pub struct ExReady(mio::Ready);

#[verifier::external_type_specification]
#[verifier::external_body]
pub struct ExPollOpt(mio::PollOpt);

#[verifier::external_type_specification]
#[verifier::external_body]
pub struct ExRegistration(mio::Registration);

#[verifier::external_type_specification]
#[verifier::external_body]
pub struct ExSetReadiness(mio::SetReadiness);

/// Relies on `mio::unix::EventedFd::register`: asks the poller's OS selector
/// to track the raw descriptor. This is the call that fails with `EPERM`
/// for descriptors the selector cannot track (regular files).
#[verifier::external_body]
pub(crate) fn evented_fd_register(
    poll: &mio::Poll,
    fd: i32,
    token: &mio::Token,
    interest: &mio::Ready,
    opts: &mio::PollOpt,
) -> (r: Result<(), OsError>) {
    match mio::Evented::register(&mio::unix::EventedFd(&fd), poll, *token, *interest, *opts) {
        Ok(()) => Ok(()),
        Err(e) => Err(OsError { code: e.raw_os_error() }),
    }
}

/// Relies on `mio::unix::EventedFd::reregister`: updates the OS selector's
/// tracking of the raw descriptor.
#[verifier::external_body]
pub(crate) fn evented_fd_reregister(
    poll: &mio::Poll,
    fd: i32,
    token: &mio::Token,
    interest: &mio::Ready,
    opts: &mio::PollOpt,
) -> (r: Result<(), OsError>) {
    match mio::Evented::reregister(&mio::unix::EventedFd(&fd), poll, *token, *interest, *opts) {
        Ok(()) => Ok(()),
        Err(e) => Err(OsError { code: e.raw_os_error() }),
    }
}

/// Relies on `mio::unix::EventedFd::deregister`: stops the OS selector's
/// tracking of the raw descriptor.
#[verifier::external_body]
pub(crate) fn evented_fd_deregister(poll: &mio::Poll, fd: i32) -> (r: Result<(), OsError>) {
    match mio::Evented::deregister(&mio::unix::EventedFd(&fd), poll) {
        Ok(()) => Ok(()),
        Err(e) => Err(OsError { code: e.raw_os_error() }),
    }
}

/// Relies on `mio::Registration::new2`: a fresh user-space registration and
/// the handle that sets its readiness, not yet registered with any poll.
#[verifier::external_body]
pub(crate) fn registration_new() -> (pair: (mio::Registration, mio::SetReadiness)) {
    mio::Registration::new2()
}

/// Relies on `mio::Evented::register` for `mio::Registration`: associates
/// the user-space registration with the poll under the given token.
#[verifier::external_body]
pub(crate) fn registration_register(
    reg: &mio::Registration,
    poll: &mio::Poll,
    token: &mio::Token,
    interest: &mio::Ready,
    opts: &mio::PollOpt,
) -> (r: Result<(), OsError>) {
    match mio::Evented::register(reg, poll, *token, *interest, *opts) {
        Ok(()) => Ok(()),
        Err(e) => Err(OsError { code: e.raw_os_error() }),
    }
}

/// Relies on `mio::Evented::reregister` for `mio::Registration`: updates the
/// token, interest and options of the user-space registration.
#[verifier::external_body]
pub(crate) fn registration_reregister(
    reg: &mio::Registration,
    poll: &mio::Poll,
    token: &mio::Token,
    interest: &mio::Ready,
    opts: &mio::PollOpt,
) -> (r: Result<(), OsError>) {
    match mio::Evented::reregister(reg, poll, *token, *interest, *opts) {
        Ok(()) => Ok(()),
        Err(e) => Err(OsError { code: e.raw_os_error() }),
    }
}

/// Relies on `mio::Evented::deregister` for `mio::Registration`: detaches
/// the user-space registration from the poll.
#[verifier::external_body]
pub(crate) fn registration_deregister(reg: &mio::Registration, poll: &mio::Poll) -> (r: Result<
    (),
    OsError,
>) {
    match mio::Evented::deregister(reg, poll) {
        Ok(()) => Ok(()),
        Err(e) => Err(OsError { code: e.raw_os_error() }),
    }
}

/// Relies on `mio::SetReadiness::set_readiness`: marks the paired
/// registration ready for both reading and writing, the permanent synthetic
/// readiness of the fallback path.
#[verifier::external_body]
pub(crate) fn set_readiness_read_write(s: &mio::SetReadiness) -> (r: Result<(), OsError>) {
    match s.set_readiness(mio::Ready::readable() | mio::Ready::writable()) {
        Ok(()) => Ok(()),
        Err(e) => Err(OsError { code: e.raw_os_error() }),
    }
}

} // verus!
