//! The data that crosses the provider boundary. The library never performs
//! I/O itself: it asks for an operation as a [`ProviderOp`] value, and the
//! adapter around it runs the external program or touches the filesystem and
//! hands back the plain result.

use vstd::prelude::*;

verus! {

/// The captured output of an external command that started and exited
/// successfully.
#[derive(Debug, Clone)]
pub struct CommandOutput {
    pub stdout: String,
    pub stderr: String,
}

/// One operation the library asks its surroundings to perform.
#[derive(Debug, Clone)]
pub enum ProviderOp {
    /// Run an external program with arguments and environment overrides.
    RunCommand { program: String, args: Vec<String>, env: Vec<(String, String)> },
    /// Test whether a path exists.
    CheckExists { path: String },
    /// Create a directory and its parents.
    CreateDirAll { path: String },
    /// Copy a file byte for byte.
    CopyFile { src: String, dst: String },
}

/// The result of one performed [`ProviderOp`], in the same order of kinds.
#[derive(Debug)]
pub enum ProviderEvent {
    CommandDone(Result<CommandOutput, crate::errors::CommandError>),
    ExistsResult(bool),
    DirCreated(Result<(), crate::errors::FileError>),
    FileCopied(Result<(), crate::errors::FileError>),
}

impl ProviderOp {
    /// Whether `e` is the kind of event that answers this operation.
    pub open spec fn answered_by(&self, e: ProviderEvent) -> bool {
        match self {
            ProviderOp::RunCommand { .. } => e is CommandDone,
            ProviderOp::CheckExists { .. } => e is ExistsResult,
            ProviderOp::CreateDirAll { .. } => e is DirCreated,
            ProviderOp::CopyFile { .. } => e is FileCopied,
        }
    }
}

} // verus!
