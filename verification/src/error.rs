//! The ways in which an installation can go wrong.

use vstd::prelude::*;

verus! {

/// Why an installation stopped, or why one of its steps did not succeed.
#[derive(Clone, Copy, Debug, PartialEq, Eq, Structural)]
pub enum InstallError {
    /// No installation directory is defined for the platform.
    UnsupportedPlatform,
    /// The user's home directory could not be determined.
    HomeDirectoryUnavailable,
    /// The installation directory could not be created.
    DirectoryCreateFailed,
    /// The running process could not tell where its executable lies, or
    /// that path names no file.
    SelfPathUnavailable,
    /// The executable could not be copied to its destination.
    CopyFailed,
    /// The shell profile could not be opened or read.
    ProfileFileOpenFailed,
    /// The shell profile could not be written.
    ProfileWriteFailed,
    /// The command that updates the user's `PATH` on Windows could not be
    /// started.
    PathMechanismFailed,
}

impl InstallError {
    /// Whether the installation cannot go on after this error. Only a
    /// failure to start the `PATH` command on Windows is survivable: the
    /// executable is in place by then.
    pub open spec fn fatal(self) -> bool {
        self != InstallError::PathMechanismFailed
    }

    /// Whether the installation cannot go on after this error.
    pub fn is_fatal(&self) -> (fatal: bool)
        ensures
            fatal == self.fatal(),
    {
        match self {
            InstallError::PathMechanismFailed => false,
            _ => true,
        }
    }

    /// The status with which a process that met this error should end:
    /// 1 after a fatal error, 0 otherwise.
    pub open spec fn status(self) -> int {
        if self.fatal() {
            1
        } else {
            0
        }
    }

    /// The status with which a process that met this error should end.
    pub fn exit_status(&self) -> (code: i32)
        ensures
            code == self.status(),
    {
        if self.is_fatal() {
            1
        } else {
            0
        }
    }
}

} // verus!
