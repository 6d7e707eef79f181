//! The one error type of the library.

use vstd::prelude::*;

verus! {

/// What went wrong, by category. Every error is fatal to the run.
#[derive(Clone, Copy, Debug, PartialEq, Eq, Structural)]
pub enum ErrorKind {
    /// The home directory cannot be found, or a configuration text is malformed.
    ConfigError,
    /// The manifest is missing where one is needed, or present where none may be.
    ManifestError,
    /// A dependency does not say enough to find its source.
    ResolutionError,
    /// No credential can be offered to the remote.
    AuthError,
    /// The version-control backend reported a failure.
    BackendError,
    /// A path expression names a variable that is not set.
    EnvironmentError,
}

/// An error: its category and a line of detail for the operator.
#[derive(Debug, PartialEq, Eq)]
pub struct SyncError {
    pub kind: ErrorKind,
    pub detail: String,
}

/// A `SyncError` as a plain value.
pub struct SyncErrorView {
    pub kind: ErrorKind,
    pub detail: Seq<char>,
}

impl View for SyncError {
    type V = SyncErrorView;

    open spec fn view(&self) -> SyncErrorView {
        SyncErrorView { kind: self.kind, detail: self.detail@ }
    }
}

impl Clone for SyncError {
    fn clone(&self) -> (copy: Self)
        ensures
            copy@ == self@,
    {
        SyncError { kind: self.kind, detail: self.detail.clone() }
    }
}

impl SyncError {
    /// An error of the given category with the given detail.
    pub fn new(kind: ErrorKind, detail: &str) -> (error: SyncError)
        ensures
            error@ == (SyncErrorView { kind, detail: detail@ }),
    {
        SyncError { kind, detail: detail.to_owned() }
    }

    /// The category's name, as shown to the operator.
    pub open spec fn label(kind: ErrorKind) -> Seq<char> {
        match kind {
            ErrorKind::ConfigError => "ConfigError"@,
            ErrorKind::ManifestError => "ManifestError"@,
            ErrorKind::ResolutionError => "ResolutionError"@,
            ErrorKind::AuthError => "AuthError"@,
            ErrorKind::BackendError => "BackendError"@,
            ErrorKind::EnvironmentError => "EnvironmentError"@,
        }
    }

    /// The line shown to the operator: the category, a colon and the detail.
    pub fn message(&self) -> (line: String)
        ensures
            line@ == Self::label(self.kind) + ": "@ + self.detail@,
    {
        let label: &'static str = match self.kind {
            ErrorKind::ConfigError => "ConfigError",
            ErrorKind::ManifestError => "ManifestError",
            ErrorKind::ResolutionError => "ResolutionError",
            ErrorKind::AuthError => "AuthError",
            ErrorKind::BackendError => "BackendError",
            ErrorKind::EnvironmentError => "EnvironmentError",
        };
        let mut line = label.to_owned();
        line.append(": ");
        line.append(self.detail.as_str());
        line
    }
}

} // verus!
