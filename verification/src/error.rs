//! The typed failures of launch, validation and diagnosis, each rendered
//! for the caller as a single human-readable string.

use vstd::prelude::*;

verus! {

/// A failure of one of the supervisor's operations. I/O causes that reach
/// the supervisor from the platform are carried as their rendered text.
#[derive(Debug, PartialEq, Eq)]
pub enum Error {
    /// A filesystem or pipe operation failed, with the underlying cause.
    Io(String),
    /// The launch configuration holds no data path.
    DataPathRequired,
    /// The configured data path does not exist on the filesystem.
    DataPathNotExist(String),
    /// The resolved server binary path does not exist.
    BinaryNotFound(String),
    /// The server binary's metadata could not be read.
    Metadata(String, String),
    /// Spawning the server binary failed.
    BinaryExecution(String),
    /// The server binary exited unsuccessfully during diagnosis.
    BinaryFailed(String),
}

/// The human-readable rendering of an error.
pub open spec fn error_message_seq(e: &Error) -> Seq<char> {
    match e {
        Error::Io(m) => m@,
        Error::DataPathRequired => "Data path is required"@,
        Error::DataPathNotExist(p) => "Data path does not exist: "@ + p@,
        Error::BinaryNotFound(p) => "RustFS binary not found at "@ + p@,
        Error::Metadata(p, m) => "Failed to read metadata for "@ + p@ + ": "@ + m@,
        Error::BinaryExecution(m) => "Failed to execute RustFS binary: "@ + m@,
        Error::BinaryFailed(s) => "RustFS binary failed with exit code: "@ + s@,
    }
}

impl Error {
    /// Renders the error as its single human-readable string.
    pub fn message(&self) -> (r: String)
        ensures
            r@ == error_message_seq(self),
    {
        match self {
            Error::Io(m) => m.clone(),
            Error::DataPathRequired => "Data path is required".to_owned(),
            Error::DataPathNotExist(p) => {
                let mut r = "Data path does not exist: ".to_owned();
                r.append(p.as_str());
                r
            },
            Error::BinaryNotFound(p) => {
                let mut r = "RustFS binary not found at ".to_owned();
                r.append(p.as_str());
                r
            },
            Error::Metadata(p, m) => {
                let mut r = "Failed to read metadata for ".to_owned();
                r.append(p.as_str());
                r.append(": ");
                r.append(m.as_str());
                r
            },
            Error::BinaryExecution(m) => {
                let mut r = "Failed to execute RustFS binary: ".to_owned();
                r.append(m.as_str());
                r
            },
            Error::BinaryFailed(s) => {
                let mut r = "RustFS binary failed with exit code: ".to_owned();
                r.append(s.as_str());
                r
            },
        }
    }
}

} // verus!
