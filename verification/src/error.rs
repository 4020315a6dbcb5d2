//! The failures this library reports.

use vstd::prelude::*;

verus! {

/// Everything that can go wrong while detecting a shell, resolving its rc
/// files, or mutating one of them.
#[derive(Debug)]
pub enum ShellError {
    /// Shell detection failed for the described reason.
    DetectionFailed(String),
    /// The `SHELL` environment variable is not set.
    NoShellVar,
    /// No home directory could be resolved.
    NoHomeDir,
    /// An underlying read or write of an rc file failed; the payload carries
    /// the description of the failure.
    RcFileError(String),
    /// The host platform has no POSIX-like shells.
    UnsupportedPlatform,
    /// A shell binary could not be executed.
    CommandFailed,
    /// A shell binary printed output that is not valid UTF-8.
    InvalidUtf8Output,
    /// The `ZDOTDIR` variable is empty.
    EmptyZdotdir,
    /// The `HOME` variable is empty.
    EmptyHomeEnvVar,
    /// Neither `ZDOTDIR` nor `HOME` yields an rc-file location.
    EmptyHomeAndZdotdir,
    /// The rc file targeted by a mutation does not exist; the payload is its
    /// file name.
    RCFileNotFound(String),
}

impl ShellError {
    /// The wording of each error, for display to a user.
    pub open spec fn message_spec(self) -> Seq<char> {
        match self {
            ShellError::DetectionFailed(reason) => "Shell detection failed: "@ + reason@,
            ShellError::NoShellVar => "Shell environment variable not found"@,
            ShellError::NoHomeDir => "Home directory not found"@,
            ShellError::RcFileError(reason) => "Failed to access RC file: "@ + reason@,
            ShellError::UnsupportedPlatform => "Unsupported platform"@,
            ShellError::CommandFailed => "Failed to execute shell command"@,
            ShellError::InvalidUtf8Output => "Invalid UTF-8 in shell output"@,
            ShellError::EmptyZdotdir => "ZDOTDIR environment variable is empty"@,
            ShellError::EmptyHomeEnvVar => "Home environment variable is empty"@,
            ShellError::EmptyHomeAndZdotdir => "Home environment and ZDOTDIR variables are empty"@,
            ShellError::RCFileNotFound(name) => "RC file not found: "@ + name@,
        }
    }

    /// A human-readable description of the error.
    pub fn message(&self) -> (r: String)
        ensures
            r@ == self.message_spec(),
    {
        match self {
            ShellError::DetectionFailed(reason) => "Shell detection failed: ".to_owned().concat(
                reason.as_str(),
            ),
            ShellError::NoShellVar => "Shell environment variable not found".to_owned(),
            ShellError::NoHomeDir => "Home directory not found".to_owned(),
            ShellError::RcFileError(reason) => "Failed to access RC file: ".to_owned().concat(
                reason.as_str(),
            ),
            ShellError::UnsupportedPlatform => "Unsupported platform".to_owned(),
            ShellError::CommandFailed => "Failed to execute shell command".to_owned(),
            ShellError::InvalidUtf8Output => "Invalid UTF-8 in shell output".to_owned(),
            ShellError::EmptyZdotdir => "ZDOTDIR environment variable is empty".to_owned(),
            ShellError::EmptyHomeEnvVar => "Home environment variable is empty".to_owned(),
            ShellError::EmptyHomeAndZdotdir =>
                "Home environment and ZDOTDIR variables are empty".to_owned(),
            ShellError::RCFileNotFound(name) => "RC file not found: ".to_owned().concat(
                name.as_str(),
            ),
        }
    }
}

} // verus!
