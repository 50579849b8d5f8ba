//! The failures that the adapter reports on its own account.

use crate::options::Format;
use vstd::prelude::*;
use vstd::string::*;

verus! {

/// The operating system's categories of I/O errors.
#[verifier::external_type_specification]
pub struct ExErrorKind(std::io::ErrorKind);

/// Why the operating system could not start the child process.
#[derive(Clone, Copy, Debug, PartialEq, Eq, Structural)]
pub enum StartFailure {
    /// The executable vanished between discovery and dispatch.
    NotFound,
    /// The executable exists but may not be executed.
    PermissionDenied,
    /// The system is temporarily out of the resources a child needs.
    WouldBlock,
    /// Any other reason.
    Other,
}

impl StartFailure {
    /// The class of each category of I/O error: three categories have a
    /// class of their own, all others share the generic one.
    pub open spec fn spec_classify(kind: std::io::ErrorKind) -> StartFailure {
        match kind {
            std::io::ErrorKind::NotFound => StartFailure::NotFound,
            std::io::ErrorKind::PermissionDenied => StartFailure::PermissionDenied,
            std::io::ErrorKind::WouldBlock => StartFailure::WouldBlock,
            _ => StartFailure::Other,
        }
    }

    /// Classifies the error that the operating system gave when it refused
    /// to start the child.
    pub fn classify(kind: std::io::ErrorKind) -> (class: StartFailure)
        ensures
            class == StartFailure::spec_classify(kind),
    {
        match kind {
            std::io::ErrorKind::NotFound => StartFailure::NotFound,
            std::io::ErrorKind::PermissionDenied => StartFailure::PermissionDenied,
            std::io::ErrorKind::WouldBlock => StartFailure::WouldBlock,
            _ => StartFailure::Other,
        }
    }

    /// The fixed text for each class of start failure.
    pub open spec fn spec_message(self) -> Seq<char> {
        match self {
            StartFailure::NotFound => "dub executable not found or not accessible"@,
            StartFailure::PermissionDenied => "Permission denied when executing dub"@,
            StartFailure::WouldBlock => "System resources temporarily unavailable"@,
            StartFailure::Other => "Failed to execute dub"@,
        }
    }

    /// The message shown to the operator.
    pub fn message(self) -> (text: &'static str)
        ensures
            text@ == self.spec_message(),
    {
        match self {
            StartFailure::NotFound => "dub executable not found or not accessible",
            StartFailure::PermissionDenied => "Permission denied when executing dub",
            StartFailure::WouldBlock => "System resources temporarily unavailable",
            StartFailure::Other => "Failed to execute dub",
        }
    }
}

/// A failure of the adapter itself, as opposed to a result of the tool.
#[derive(Clone, Copy, Debug, PartialEq, Eq, Structural)]
pub enum DubError {
    /// No candidate executable answered the liveness probe.
    Resolution,
    /// The manifest that a conversion to the given format reads is missing.
    MissingSource(Format),
    /// The child process could not be started.
    Start(StartFailure),
}

impl DubError {
    /// The text of each failure.
    pub open spec fn spec_message(self) -> Seq<char> {
        match self {
            DubError::Resolution => "dub executable not found. Install DUB from https://dub.pm"@,
            DubError::MissingSource(format) => "Source file '"@ + format.spec_source_file()
                + "' not found"@,
            DubError::Start(failure) => failure.spec_message(),
        }
    }

    /// The message shown to the operator.
    pub fn message(&self) -> (text: String)
        ensures
            text@ == self.spec_message(),
    {
        match self {
            DubError::Resolution => String::from_str(
                "dub executable not found. Install DUB from https://dub.pm",
            ),
            DubError::MissingSource(format) => {
                let mut text = String::from_str("Source file '");
                text.append(format.source_file());
                text.append("' not found");
                text
            },
            DubError::Start(failure) => String::from_str(failure.message()),
        }
    }
}

} // verus!
