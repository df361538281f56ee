//! The failures that the core reports to its caller.

use vstd::prelude::*;
use vstd::string::*;

verus! {

/// The family of an earlier installer whose artifacts were found on disk.
#[derive(Clone, Copy, Debug, PartialEq, Eq, Structural)]
pub enum ConflictKind {
    /// An installation, or leftover metadata, of multirust.
    Multirust,
    /// A Rust toolchain installed system-wide by the standalone installer.
    Rust,
    /// Metadata written by the rustup.sh shell installer.
    RustupSh,
}

/// Why an operation was refused or could not be completed.
#[derive(Clone, Debug, PartialEq, Eq)]
pub enum Error {
    /// Artifacts of another installer were found; `advice` names them and
    /// says how to get rid of them.
    Conflict { kind: ConflictKind, advice: String },
    /// `$HOME` is not the home directory of the effective user, and the
    /// installation runs unattended.
    PrivilegeMismatch { env_home: String, user_home: String },
    /// A downloaded binary does not have the published checksum.
    Integrity { expected: String },
    /// An override names a custom toolchain that is not on disk.
    ToolchainNotInstalled(String),
    /// A file or network operation failed; the text is the caller's report.
    Io(String),
    /// The operation exists only on another platform family.
    PlatformUnsupportedOperation,
}

/// The view of an [`Error`]: its strings as sequences of characters.
pub enum ErrorView {
    Conflict { kind: ConflictKind, advice: Seq<char> },
    PrivilegeMismatch { env_home: Seq<char>, user_home: Seq<char> },
    Integrity { expected: Seq<char> },
    ToolchainNotInstalled(Seq<char>),
    Io(Seq<char>),
    PlatformUnsupportedOperation,
}

impl View for Error {
    type V = ErrorView;

    open spec fn view(&self) -> ErrorView {
        match self {
            Error::Conflict { kind, advice } => ErrorView::Conflict {
                kind: *kind,
                advice: advice@,
            },
            Error::PrivilegeMismatch { env_home, user_home } => ErrorView::PrivilegeMismatch {
                env_home: env_home@,
                user_home: user_home@,
            },
            Error::Integrity { expected } => ErrorView::Integrity { expected: expected@ },
            Error::ToolchainNotInstalled(name) => ErrorView::ToolchainNotInstalled(name@),
            Error::Io(report) => ErrorView::Io(report@),
            Error::PlatformUnsupportedOperation => ErrorView::PlatformUnsupportedOperation,
        }
    }
}

impl ErrorView {
    /// The one-line message shown to the user for this failure.
    pub open spec fn message(self) -> Seq<char> {
        match self {
            ErrorView::Conflict { kind, advice } => match kind {
                ConflictKind::Multirust => "cannot install while multirust is installed"@,
                ConflictKind::Rust => "cannot install while Rust is installed"@,
                ConflictKind::RustupSh => "cannot install while rustup.sh is installed"@,
            },
            ErrorView::PrivilegeMismatch { env_home, user_home } => "$HOME is '"@ + env_home
                + "' but the home directory of the effective user is '"@ + user_home
                + "': you may be using sudo"@,
            ErrorView::Integrity { expected } => "checksum failed: expected "@ + expected,
            ErrorView::ToolchainNotInstalled(name) => "toolchain '"@ + name
                + "' is not installed"@,
            ErrorView::Io(report) => report,
            ErrorView::PlatformUnsupportedOperation =>
                "operation is not supported on this platform"@,
        }
    }
}

impl Error {
    /// The one-line message shown to the user for this failure.
    ///
    /// For `Conflict` it is a fixed sentence that tells which installer
    /// was found; the paths to run or to delete stand in `advice`, which is
    /// shown beside it. Every other message holds what the failure holds:
    /// the two home directories, the expected checksum, the toolchain, or
    /// the caller's report.
    pub fn message(&self) -> (text: String)
        ensures
            text@ == self@.message(),
    {
        match self {
            Error::Conflict { kind, advice: _ } => match kind {
                ConflictKind::Multirust => String::from_str(
                    "cannot install while multirust is installed",
                ),
                ConflictKind::Rust => String::from_str("cannot install while Rust is installed"),
                ConflictKind::RustupSh => String::from_str(
                    "cannot install while rustup.sh is installed",
                ),
            },
            Error::PrivilegeMismatch { env_home, user_home } => {
                let text = String::from_str("$HOME is '");
                let text = text.concat(env_home.as_str());
                let text = text.concat("' but the home directory of the effective user is '");
                let text = text.concat(user_home.as_str());
                text.concat("': you may be using sudo")
            },
            Error::Integrity { expected } => {
                let text = String::from_str("checksum failed: expected ");
                text.concat(expected.as_str())
            },
            Error::ToolchainNotInstalled(name) => {
                let text = String::from_str("toolchain '");
                let text = text.concat(name.as_str());
                text.concat("' is not installed")
            },
            Error::Io(report) => report.clone(),
            Error::PlatformUnsupportedOperation => String::from_str(
                "operation is not supported on this platform",
            ),
        }
    }
}

} // verus!
