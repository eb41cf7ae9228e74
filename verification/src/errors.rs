//! Errors reported by the library.
use vstd::prelude::*;
use crate::io::metadata::DeviceMetadata;

verus! {

/// Broad class of an [`Error`].
#[derive(Debug, Clone, Copy, PartialEq, Eq, Structural)]
pub enum ErrorKind {
    ContainerError,
    DeviceError,
    CommandError,
}

/// An error of a given kind with a message.
#[derive(Debug)]
pub struct Error {
    pub kind: ErrorKind,
    pub message: String,
}

impl Error {
    /// An error of `kind` carrying `msg`.
    pub fn new(kind: ErrorKind, msg: &str) -> (e: Error)
        ensures
            e.kind == kind,
            e.message@ == msg@,
    {
        Error { kind, message: String::from_str(msg) }
    }
}

/// Errors raised by containers.
#[derive(Debug)]
pub enum ContainerError {
    MiscError { name: String, msg: String },
    ContainerEmpty,
    ContainerNotEmpty,
    KeyExists { key: String },
}

/// Errors raised by devices.
#[derive(Debug)]
pub enum DeviceError {
    HWFault { metadata: DeviceMetadata },
    NoCommand { metadata: DeviceMetadata },
    ValueExpected { metadata: DeviceMetadata },
}

/// Errors raised when persisting data.
#[derive(Debug)]
pub enum FilesystemError {
    SerializationError { msg: String },
    PermissionError { path: String },
}

/// The error returned when a device has no command to run.
pub fn no_internal_closure() -> (e: Error)
    ensures
        e.kind == ErrorKind::CommandError,
        e.message@ == "Device has no internal closure"@,
{
    Error::new(ErrorKind::CommandError, "Device has no internal closure")
}

} // verus!
