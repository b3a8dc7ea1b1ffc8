//! Error values for every layer: command execution, filesystem access,
//! workspace metadata, project scaffolding arguments, and the aggregate
//! verdict. Each carries its own context and renders a message through a
//! `message` method with a character-exact contract.

use vstd::prelude::*;
use vstd::string::StringExecFns;
use crate::text::quoted_args;
use crate::text::quoted_args_seq;

verus! {

/// Failure of an external command: either the process ran and exited
/// nonzero, or it could not be started at all.
#[derive(Debug, Clone)]
pub enum CommandError {
    CommandFailed { command: String, args: Vec<String>, stdout: String },
    SpawnFailed { command: String, reason: String },
}

impl CommandError {
    /// The human-readable description of the failure.
    pub fn message(&self) -> (r: String)
        ensures
            (match self {
                CommandError::CommandFailed { command, args, stdout } => r@
                    == "Command '"@ + command@ + "' with args "@
                    + quoted_args_seq(args@.map_values(|a: String| a@))
                    + " failed \n STDOUT: "@ + stdout@,
                CommandError::SpawnFailed { command, reason } => r@
                    == "Command '"@ + command@ + "' failed to start: "@ + reason@,
            }),
    {
        match self {
            CommandError::CommandFailed { command, args, stdout } => {
                let mut out = String::from_str("Command '");
                out.append(command.as_str());
                out.append("' with args ");
                let rendered = quoted_args(args);
                out.append(rendered.as_str());
                out.append(" failed \n STDOUT: ");
                out.append(stdout.as_str());
                out
            },
            CommandError::SpawnFailed { command, reason } => {
                let mut out = String::from_str("Command '");
                out.append(command.as_str());
                out.append("' failed to start: ");
                out.append(reason.as_str());
                out
            },
        }
    }
}

/// Failure of a filesystem operation, carrying the offending path and the
/// OS-level description.
#[derive(Debug, Clone)]
pub struct FileError {
    pub path: String,
    pub cause: String,
}

impl FileError {
    /// The human-readable description of the failure.
    pub fn message(&self) -> (r: String)
        ensures
            r@ == "unable to access path: "@ + self.path@ + ", error: "@
                + self.cause@,
    {
        let mut out = String::from_str("unable to access path: ");
        out.append(self.path.as_str());
        out.append(", error: ");
        out.append(self.cause.as_str());
        out
    }
}

/// Workspace-level discovery failure: the working directory does not hold a
/// usable crate or workspace. Fatal to the whole invocation.
#[derive(Debug, Clone)]
pub struct MetadataError {
    pub working_dir: String,
    pub reason: String,
}

impl MetadataError {
    /// The human-readable description of the failure.
    pub fn message(&self) -> (r: String)
        ensures
            r@ == "unable to read workspace metadata from: "@ + self.working_dir@
                + ", error: "@ + self.reason@,
    {
        let mut out = String::from_str("unable to read workspace metadata from: ");
        out.append(self.working_dir.as_str());
        out.append(", error: ");
        out.append(self.reason.as_str());
        out
    }
}

/// A driver-kit configuration section that is present but cannot be parsed.
/// Package-level: it fails that member only, never the whole workspace.
#[derive(Debug, Clone)]
pub struct MalformedDriverConfig {
    pub reason: String,
}

impl MalformedDriverConfig {
    /// The human-readable description of the failure.
    pub fn message(&self) -> (r: String)
        ensures
            r@ == "Error Parsing WDK metadata from Cargo.toml: "@ + self.reason@,
    {
        let mut out = String::from_str("Error Parsing WDK metadata from Cargo.toml: ");
        out.append(self.reason.as_str());
        out
    }
}

/// The reason a project name is rejected.
#[derive(Debug, Clone)]
pub enum InvalidDriverProjectNameError {
    EmptyProjectNameError,
    NonAlphanumericProjectNameError,
    InvalidStartCharacter,
    ReservedName(String),
}

impl InvalidDriverProjectNameError {
    /// The human-readable description of the rejection.
    pub fn message(&self) -> (r: String)
        ensures
            (match self {
                InvalidDriverProjectNameError::EmptyProjectNameError => r@
                    == "Project name cannot be empty"@,
                InvalidDriverProjectNameError::NonAlphanumericProjectNameError => r@
                    == "Project name must only contain alphanumeric characters, '-' and '_'"@,
                InvalidDriverProjectNameError::InvalidStartCharacter => r@
                    == "Project name must start with an alphabetic character"@,
                InvalidDriverProjectNameError::ReservedName(name) => r@
                    == "Project name cannot be a reserved keyword: "@ + name@,
            }),
    {
        match self {
            InvalidDriverProjectNameError::EmptyProjectNameError => String::from_str(
                "Project name cannot be empty",
            ),
            InvalidDriverProjectNameError::NonAlphanumericProjectNameError => String::from_str(
                "Project name must only contain alphanumeric characters, '-' and '_'",
            ),
            InvalidDriverProjectNameError::InvalidStartCharacter => String::from_str(
                "Project name must start with an alphabetic character",
            ),
            InvalidDriverProjectNameError::ReservedName(name) => {
                let mut out = String::from_str("Project name cannot be a reserved keyword: ");
                out.append(name.as_str());
                out
            },
        }
    }
}

/// Rejection of a `new`-subcommand argument value.
#[derive(Debug, Clone)]
pub enum NewProjectArgsError {
    InvalidDriverProjectNameError(String, InvalidDriverProjectNameError),
    InvalidDriverTypeError(String),
}

impl NewProjectArgsError {
    /// The human-readable description of the rejection.
    pub fn message(&self) -> (r: String)
        ensures
            (match self {
                NewProjectArgsError::InvalidDriverProjectNameError(name, e) => r@
                    == "Invalid driver project name: "@ + name@ + ", error: "@
                    + e.message_seq(),
                NewProjectArgsError::InvalidDriverTypeError(t) => r@
                    == "Invalid driver type: "@ + t@,
            }),
    {
        match self {
            NewProjectArgsError::InvalidDriverProjectNameError(name, e) => {
                let mut out = String::from_str("Invalid driver project name: ");
                out.append(name.as_str());
                out.append(", error: ");
                let detail = e.message();
                out.append(detail.as_str());
                out
            },
            NewProjectArgsError::InvalidDriverTypeError(t) => {
                let mut out = String::from_str("Invalid driver type: ");
                out.append(t.as_str());
                out
            },
        }
    }
}

impl InvalidDriverProjectNameError {
    /// What `message` returns, as a sequence.
    pub open spec fn message_seq(&self) -> Seq<char> {
        match self {
            InvalidDriverProjectNameError::EmptyProjectNameError =>
                "Project name cannot be empty"@,
            InvalidDriverProjectNameError::NonAlphanumericProjectNameError =>
                "Project name must only contain alphanumeric characters, '-' and '_'"@,
            InvalidDriverProjectNameError::InvalidStartCharacter =>
                "Project name must start with an alphabetic character"@,
            InvalidDriverProjectNameError::ReservedName(name) =>
                "Project name cannot be a reserved keyword: "@ + name@,
        }
    }
}

/// Failure while scaffolding a new driver crate.
#[derive(Debug, Clone)]
pub enum NewDriverError {
    CargoNewCommand(CommandError),
    FileSystem(FileError),
    TemplateNotFound(String),
    Io(String),
}

impl NewDriverError {
    /// The human-readable description of the failure.
    pub fn message(&self) -> (r: String)
        ensures
            (match self {
                NewDriverError::CargoNewCommand(e) => r@
                    == "Error executing cargo new, error: "@ + e.message_seq(),
                NewDriverError::FileSystem(e) => r@
                    == "File System Error, error: "@ + e.message_seq(),
                NewDriverError::TemplateNotFound(t) => r@
                    == "Template file not found: "@ + t@,
                NewDriverError::Io(_) => r@ == "IO Error"@,
            }),
    {
        match self {
            NewDriverError::CargoNewCommand(e) => {
                let mut out = String::from_str("Error executing cargo new, error: ");
                let detail = e.message();
                out.append(detail.as_str());
                out
            },
            NewDriverError::FileSystem(e) => {
                let mut out = String::from_str("File System Error, error: ");
                let detail = e.message();
                out.append(detail.as_str());
                out
            },
            NewDriverError::TemplateNotFound(t) => {
                let mut out = String::from_str("Template file not found: ");
                out.append(t.as_str());
                out
            },
            NewDriverError::Io(_) => String::from_str("IO Error"),
        }
    }
}

impl CommandError {
    /// What `message` returns, as a sequence.
    pub open spec fn message_seq(&self) -> Seq<char> {
        match self {
            CommandError::CommandFailed { command, args, stdout } => "Command '"@
                + command@ + "' with args "@
                + quoted_args_seq(args@.map_values(|a: String| a@))
                + " failed \n STDOUT: "@ + stdout@,
            CommandError::SpawnFailed { command, reason } => "Command '"@ + command@
                + "' failed to start: "@ + reason@,
        }
    }
}

impl FileError {
    /// What `message` returns, as a sequence.
    pub open spec fn message_seq(&self) -> Seq<char> {
        "unable to access path: "@ + self.path@ + ", error: "@ + self.cause@
    }
}

/// Failure while creating a new driver project.
#[derive(Debug, Clone)]
pub enum NewProjectError {
    NewDriver(NewDriverError),
}

impl NewProjectError {
    /// The human-readable description of the failure.
    pub fn message(&self) -> (r: String)
        ensures
            (match self {
                NewProjectError::NewDriver(e) => r@
                    == "Error creating new driver project, error: "@ + e.message_seq(),
            }),
    {
        match self {
            NewProjectError::NewDriver(e) => {
                let mut out = String::from_str("Error creating new driver project, error: ");
                let detail = e.message();
                out.append(detail.as_str());
                out
            },
        }
    }
}

impl NewDriverError {
    /// What `message` returns, as a sequence.
    pub open spec fn message_seq(&self) -> Seq<char> {
        match self {
            NewDriverError::CargoNewCommand(e) => "Error executing cargo new, error: "@
                + e.message_seq(),
            NewDriverError::FileSystem(e) => "File System Error, error: "@
                + e.message_seq(),
            NewDriverError::TemplateNotFound(t) => "Template file not found: "@ + t@,
            NewDriverError::Io(_) => "IO Error"@,
        }
    }
}

} // verus!
