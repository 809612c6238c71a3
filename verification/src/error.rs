//! Error taxonomy of the supervision engine.
//!
//! The kinds mirror what callers must distinguish: lookup failures,
//! failures of the external runtime command, I/O failures around pipes and
//! mounts, unimplemented surface, and misuse of the one-shot notification
//! channel.

use vstd::prelude::*;

verus! {

/// One failure of the supervision engine.
#[derive(Debug, Clone, PartialEq, Eq)]
pub enum Error {
    /// A container id, exec id or process was not found, the process state
    /// was queried while still unknown, or a one-shot wait receiver was
    /// already consumed.
    NotFound,
    /// A container with the same id already exists in the registry.
    AlreadyExists,
    /// A path could not be resolved to an absolute form.
    InvalidPath,
    /// A stdio destination string was not a recognized URI.
    InvalidUri,
    /// The operating system could not start the external runtime binary.
    SpawnFailed,
    /// The external runtime command ran and exited with a non-zero status.
    CommandFailed { status: i32, stdout: String, stderr: String },
    /// The external runtime command exceeded its configured timeout.
    CommandTimeout,
    /// A named pipe path was replaced by another file between capability
    /// acquisition and use: the device/inode check failed.
    IdentityMismatch,
    /// A pipe peer went away: the exit-notification sender was dropped
    /// without sending, or a copy hit a closed descriptor.
    BrokenPipe,
    /// The exit-notification receiver was dropped before the process
    /// finished; nobody is interested in the result.
    ConnectionRefused,
    /// The operation is a recognized part of the surface but intentionally
    /// not implemented by this engine.
    Unimplemented,
    /// The pid file left by the external runtime did not hold decimal
    /// digits.
    MalformedPidFile,
    /// The persisted options file does not follow the engine's encoding.
    MalformedOptionsFile,
    /// A rootfs mount entry failed to apply; the applied prefix was
    /// unmounted again.
    MountFailed { index: usize },
    /// An operating-system call failed; `errno` carries the raw code.
    Sys { errno: i32 },
}

impl Error {
    /// True of every failure caused by the external runtime command.
    pub open spec fn is_command_failure(self) -> bool {
        self is SpawnFailed || self is CommandFailed || self is CommandTimeout
    }
}

} // verus!
