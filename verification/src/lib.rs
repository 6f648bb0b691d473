//! Verified core of a service supervisor: it turns an executable file into a
//! boot-persistent unit of the init system's manager and manages its
//! lifecycle, reporting live resource usage.
//!
//! The library holds the pure logic: naming, unit-file synthesis, lifecycle
//! decisions and plans, and resource-usage arithmetic. The surrounding
//! binary performs the I/O (message bus, file system, subprocesses) and
//! feeds plain values in and out.
use vstd::prelude::*;

pub mod lifecycle;
pub mod proc_stats;
pub mod service_names;
pub mod status;
pub mod text;
pub mod unit_file;
pub mod unit_path;

verus! {

/// The error taxonomy of the library. Naming and validation errors are
/// detected before any mutation; adapter errors are surfaced, never
/// swallowed; a multi-step operation that fails late reports a partial
/// failure because earlier steps already took effect.
#[derive(Debug, Clone, Copy, PartialEq, Eq)]
pub enum ServiceError {
    /// A path or unit is absent.
    NotFound,
    /// Create was asked to write a unit file that already exists, without
    /// permission to overwrite it.
    AlreadyExists,
    /// A malformed short or full service name.
    InvalidName,
    /// No interpreter could be resolved for the target file.
    InterpreterNotFound,
    /// The unprivileged invoking identity could not be recovered.
    PrivilegeError,
    /// The external manager rejected an operation.
    AdapterError,
    /// A multi-step operation completed some steps and failed a later one.
    PartialFailure,
    /// A process-statistics file did not have the expected shape.
    MalformedProcessStat,
}

impl ServiceError {
    /// A short human-readable description of the error.
    pub fn message(&self) -> (r: &'static str)
        ensures
            r@.len() > 0,
    {
        let m: &'static str = match self {
            ServiceError::NotFound => "no such file or service",
            ServiceError::AlreadyExists => "a unit file already exists at the target path",
            ServiceError::InvalidName => "malformed service name",
            ServiceError::InterpreterNotFound => "could not resolve an interpreter for the file",
            ServiceError::PrivilegeError => "could not recover the unprivileged invoking user",
            ServiceError::AdapterError => "the service manager rejected the operation",
            ServiceError::PartialFailure => "a later step of the operation failed",
            ServiceError::MalformedProcessStat => "unexpected shape of a process statistics file",
        };
        proof {
            reveal_strlit("no such file or service");
            reveal_strlit("a unit file already exists at the target path");
            reveal_strlit("malformed service name");
            reveal_strlit("could not resolve an interpreter for the file");
            reveal_strlit("could not recover the unprivileged invoking user");
            reveal_strlit("the service manager rejected the operation");
            reveal_strlit("a later step of the operation failed");
            reveal_strlit("unexpected shape of a process statistics file");
        }
        m
    }
}

/// The commands of the tool, as the command line hands them over: plain
/// values only, paths already rendered as text.
#[derive(Debug, Clone, PartialEq, Eq)]
pub enum Commands {
    /// Create a service for a file at the given path.
    Create {
        path: String,
        name: Option<String>,
        start: bool,
        enable: bool,
        auto_restart: bool,
        interpreter: Option<String>,
        env_vars: Option<String>,
        internal_args: Vec<String>,
    },
    /// Open a text editor to create or edit the unit file of a service.
    Edit { name: String, editor: String },
    /// Start a service.
    Start { name: String },
    /// Stop a service.
    Stop { name: String },
    /// Enable a service to start on boot.
    Enable { name: String },
    /// Disable a service from starting on boot.
    Disable { name: String },
    /// Delete a service, stopping and disabling it first.
    Delete { name: String },
    /// Show the status of every managed service.
    Status {},
    /// Show the journal of a service.
    Logs { name: String, lines: u32, follow: bool },
    /// Reload a service whose unit carries a reload directive.
    Reload { name: String },
    /// Print the unit file of a service.
    Cat { name: String },
    /// Print the paths a service lives at.
    Which { name: String },
}

} // verus!
