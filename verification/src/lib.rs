//! Adapters that make Unix file-descriptor-bearing objects usable with a
//! readiness-based I/O reactor.
//!
//! The crate has two cooperating pieces. A nonblocking-mode controller
//! queries and sets the `O_NONBLOCK` status flag of a raw descriptor. A
//! pollable-file adapter wraps a descriptor, registers it with a poller and
//! falls back to a synthetic always-ready registration for descriptors the
//! poller cannot track (regular files, which produce `EPERM` on
//! registration). A small delimiter framing codec shares the read path.

pub mod codec;
pub mod error;
pub mod file;
pub mod nonblocking;
pub mod os;
pub mod reactor;
pub mod stdio;

pub use error::OsError;
pub use file::{File, SeekFrom, is_unpollable_signal};
pub use nonblocking::{get_nonblocking, set_nonblocking};
pub use stdio::{dup_cloexec, raw_stderr, raw_stdin, raw_stdout};
