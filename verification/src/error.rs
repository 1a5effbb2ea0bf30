//! The failures that installing tools and running a script can end in.

use vstd::prelude::*;

verus! {

/// The kind of a failure.
#[derive(Clone, Copy, Debug, PartialEq, Eq, Structural)]
pub enum FailureKind {
    /// The configuration is malformed.
    Argument,
    /// A version cannot be parsed, or "latest" was asked where it cannot be had.
    Version,
    /// The transport failed or answered with something other than success.
    Network,
    /// An archive could not be unpacked.
    Extraction,
    /// A file or a directory could not be created or copied.
    FileSystem,
    /// A runtime that the build tool needs cannot be reached.
    HostUnavailable,
    /// A child process ended without an exit code.
    Execution,
}

/// A failure: its kind and a message for the user.
#[derive(Clone, Debug, PartialEq, Eq)]
pub struct Failure {
    pub kind: FailureKind,
    pub message: String,
}

/// What an `Failure` is in contracts.
pub struct FailureView {
    pub kind: FailureKind,
    pub message: Seq<char>,
}

impl View for Failure {
    type V = FailureView;

    open spec fn view(&self) -> FailureView {
        FailureView { kind: self.kind, message: self.message@ }
    }
}

impl Failure {
    /// Makes a failure of the given kind with the given message.
    pub fn new(kind: FailureKind, message: &str) -> (failure: Failure)
        ensures
            failure@ == (FailureView { kind, message: message@ }),
    {
        Failure { kind, message: String::from_str(message) }
    }

    /// Puts `context` in front of the message, as the step that failed.
    pub fn within(self, context: &str) -> (failure: Failure)
        ensures
            failure@ == (FailureView { kind: self.kind, message: context@ + " "@ + self.message@ }),
    {
        let mut message = String::from_str(context);
        message.append(" ");
        message.append(self.message.as_str());
        Failure { kind: self.kind, message }
    }
}

} // verus!
