use vstd::prelude::*;

use nix::errno::Errno;

verus! {

/// An error number as the operating system reports it.
#[verifier::external_type_specification]
#[verifier::external_body]
pub struct ExErrno(Errno);

/// What went wrong in an operation of the runtime.
#[derive(Debug)]
pub enum ErrorKind {
    /// A system call failed with this error number.
    Nix { error: Errno },
    /// A rule of the container lifecycle was broken.
    OCI { error: OCIError },
    /// A string handed to the kernel holds a NUL character at this position.
    Null { position: usize },
}

#[derive(Debug)]
pub struct Error {
    pub inner: ErrorKind,
}

/// A broken rule of the container lifecycle, with a description for the user.
#[derive(Debug)]
pub struct OCIError {
    pub kind: OCIErrorKind,
    pub description: String,
}

#[derive(Clone, Copy, PartialEq, Eq, Debug, Structural)]
pub enum OCIErrorKind {
    /// The container is not in the status that the operation requires.
    InvaliedStatus,
}

impl OCIError {
    pub fn new(kind: OCIErrorKind, description: &str) -> (r: Self)
        ensures
            r.kind == kind,
            r.description@ == description@,
    {
        OCIError { kind, description: String::from_str(description) }
    }
}

impl Error {
    pub fn new(inner: ErrorKind) -> (r: Error)
        ensures
            r.inner == inner,
    {
        Error { inner }
    }

    pub fn kind(&self) -> (r: &ErrorKind)
        ensures
            r == &self.inner,
    {
        &self.inner
    }
}

impl From<ErrorKind> for Error {
    fn from(kind: ErrorKind) -> (r: Error) {
        Error { inner: kind }
    }
}

impl vstd::std_specs::convert::FromSpecImpl<ErrorKind> for Error {
    open spec fn obeys_from_spec() -> bool {
        true
    }

    open spec fn from_spec(kind: ErrorKind) -> Error {
        Error { inner: kind }
    }
}

impl From<OCIError> for Error {
    fn from(error: OCIError) -> (r: Error) {
        Error { inner: ErrorKind::OCI { error } }
    }
}

impl vstd::std_specs::convert::FromSpecImpl<OCIError> for Error {
    open spec fn obeys_from_spec() -> bool {
        true
    }

    open spec fn from_spec(error: OCIError) -> Error {
        Error { inner: ErrorKind::OCI { error } }
    }
}

impl From<Errno> for Error {
    fn from(error: Errno) -> (r: Error) {
        Error { inner: ErrorKind::Nix { error } }
    }
}

impl vstd::std_specs::convert::FromSpecImpl<Errno> for Error {
    open spec fn obeys_from_spec() -> bool {
        true
    }

    open spec fn from_spec(error: Errno) -> Error {
        Error { inner: ErrorKind::Nix { error } }
    }
}

} // verus!
