//! The failures that the terminal manager reports to its callers.

use vstd::prelude::*;

verus! {

/// Why an operation of the terminal manager failed.
///
/// The variants that stem from the operating system carry the text of the
/// failure as the backend reported it.
#[derive(Debug, PartialEq, Eq)]
pub enum TerminalError {
    /// The backend could not provide a pseudo-terminal or one of its handles.
    PtyAllocation(String),
    /// The shell process could not be started.
    SpawnFailure(String),
    /// No session is registered under the identifier.
    SessionNotFound,
    /// Writing to, or flushing, the session's input failed.
    WriteFailure(String),
}

/// The calls into the operating system that can fail while a session is
/// created or written to.
#[derive(Debug, Clone, Copy, PartialEq, Eq)]
pub enum BackendCall {
    /// Opening the pseudo-terminal pair.
    OpenPty,
    /// Starting the shell on the slave side.
    SpawnCommand,
    /// Obtaining the read handle of the master side.
    CloneReader,
    /// Obtaining the write handle of the master side.
    TakeWriter,
    /// Writing bytes to a session's input.
    Write,
    /// Flushing a session's input.
    Flush,
}

impl TerminalError {
    /// The text shown to the caller for this error.
    pub open spec fn spec_message(self) -> Seq<char> {
        match self {
            TerminalError::PtyAllocation(detail) => detail@,
            TerminalError::SpawnFailure(detail) => detail@,
            TerminalError::SessionNotFound => "Session not found"@,
            TerminalError::WriteFailure(detail) => detail@,
        }
    }

    /// Renders the error as the text handed to the caller.
    pub fn message(&self) -> (text: String)
        ensures
            text@ == self.spec_message(),
    {
        match self {
            TerminalError::PtyAllocation(detail) => detail.clone(),
            TerminalError::SpawnFailure(detail) => detail.clone(),
            TerminalError::SessionNotFound => "Session not found".to_owned(),
            TerminalError::WriteFailure(detail) => detail.clone(),
        }
    }

    /// The error that a failure of `call` is reported as: the
    /// pseudo-terminal and its two handles count as the allocation, the
    /// shell as the spawn, and writing and flushing as the write.
    pub open spec fn spec_from_backend(call: BackendCall, detail: String) -> TerminalError {
        match call {
            BackendCall::OpenPty => TerminalError::PtyAllocation(detail),
            BackendCall::SpawnCommand => TerminalError::SpawnFailure(detail),
            BackendCall::CloneReader => TerminalError::PtyAllocation(detail),
            BackendCall::TakeWriter => TerminalError::PtyAllocation(detail),
            BackendCall::Write => TerminalError::WriteFailure(detail),
            BackendCall::Flush => TerminalError::WriteFailure(detail),
        }
    }

    /// Classifies a failure of `call`, keeping the backend's text.
    pub fn from_backend(call: BackendCall, detail: String) -> (error: TerminalError)
        ensures
            error == Self::spec_from_backend(call, detail),
            error.spec_message() == detail@,
    {
        match call {
            BackendCall::OpenPty => TerminalError::PtyAllocation(detail),
            BackendCall::SpawnCommand => TerminalError::SpawnFailure(detail),
            BackendCall::CloneReader => TerminalError::PtyAllocation(detail),
            BackendCall::TakeWriter => TerminalError::PtyAllocation(detail),
            BackendCall::Write => TerminalError::WriteFailure(detail),
            BackendCall::Flush => TerminalError::WriteFailure(detail),
        }
    }
}

/// Turns what `call` returned into the manager's own result: a value passes
/// through, and a failure becomes the error that `call` is reported as.
pub fn backend_result<T>(call: BackendCall, outcome: Result<T, String>) -> (result: Result<
    T,
    TerminalError,
>)
    ensures
        result == (match outcome {
            Ok(value) => Ok(value),
            Err(detail) => Err(TerminalError::spec_from_backend(call, detail)),
        }),
{
    match outcome {
        Ok(value) => Ok(value),
        Err(detail) => Err(TerminalError::from_backend(call, detail)),
    }
}

} // verus!
