//! What can go wrong, and how far each failure reaches.

use vstd::prelude::*;

verus! {

#[derive(Clone, Copy, Debug, PartialEq, Eq, Structural)]
pub enum ShellError {
    /// The window-event hook could not be installed.
    HookInstallFailure,
    /// A desktop index past the known desktops.
    InvalidDesktopIndex,
    /// A window or monitor handle that no longer names anything.
    StaleHandle,
    /// The system refused a command for one window.
    OSCommandFailure,
}

impl ShellError {
    pub open spec fn spec_is_fatal(&self) -> bool {
        *self == ShellError::HookInstallFailure
    }

    /// Only a failed hook installation stops the shell; every other error
    /// ends with the operation that raised it.
    pub fn is_fatal(&self) -> (fatal: bool)
        ensures
            fatal == self.spec_is_fatal(),
    {
        match self {
            ShellError::HookInstallFailure => true,
            ShellError::InvalidDesktopIndex => false,
            ShellError::StaleHandle => false,
            ShellError::OSCommandFailure => false,
        }
    }

    pub open spec fn spec_message(&self) -> Seq<char> {
        match self {
            ShellError::HookInstallFailure => "failed to install the window event hook"@,
            ShellError::InvalidDesktopIndex => "invalid desktop index"@,
            ShellError::StaleHandle => "stale handle"@,
            ShellError::OSCommandFailure => "system command failed"@,
        }
    }

    /// A short description for logs and for the caller.
    pub fn message(&self) -> (text: String)
        ensures
            text@ == self.spec_message(),
    {
        match self {
            ShellError::HookInstallFailure => "failed to install the window event hook".to_owned(),
            ShellError::InvalidDesktopIndex => "invalid desktop index".to_owned(),
            ShellError::StaleHandle => "stale handle".to_owned(),
            ShellError::OSCommandFailure => "system command failed".to_owned(),
        }
    }
}

} // verus!
