//! Errors of the library.
use vstd::prelude::*;

verus! {

/// What went wrong.
#[derive(Clone, Copy, Debug, PartialEq, Eq, Structural)]
pub enum ErrorKind {
    /// A cost outside `4..=31`.
    InvalidCost,
    /// An empty password, one longer than 72 bytes, or one with a zero byte.
    InvalidPassword,
    /// A salt string that is too short or not of the crypt string format.
    InvalidSaltFormat,
    /// Any other argument that the library cannot take.
    InvalidArgument,
    /// The operating system's random source could not supply bytes.
    RandomSourceFailure,
    /// An error code reported from below the validated layer.
    InternalCipherFault,
}

/// BCrypt hashing error.
#[derive(Debug)]
pub struct CryptError {
    /// The kind of error.
    pub kind: ErrorKind,
    /// C error code.
    pub errno: i32,
    /// Optional message.
    pub desc: Option<String>,
}

/// Relies on libc::EINVAL: the code for an invalid argument, 22 on Linux.
#[verifier::external_body]
fn errno_invalid() -> (r: i32)
    ensures
        r == 22,
{
    libc::EINVAL
}

/// Relies on libc::EIO: the code for an input/output error, 5 on Linux.
#[verifier::external_body]
fn errno_io() -> (r: i32)
    ensures
        r == 5,
{
    libc::EIO
}

impl CryptError {
    /// An error carrying a raw error code.
    pub fn new(errno: i32, desc: Option<String>) -> (r: CryptError)
        ensures
            r.kind == ErrorKind::InternalCipherFault,
            r.errno == errno,
            r.desc == desc,
    {
        CryptError { kind: ErrorKind::InternalCipherFault, errno, desc }
    }

    /// An invalid-argument error with a message.
    pub fn invalid_arg(desc: String) -> (r: CryptError)
        ensures
            r.kind == ErrorKind::InvalidArgument,
            r.errno == 22,
            r.desc == Some(desc),
    {
        CryptError::with_kind(ErrorKind::InvalidArgument, desc)
    }

    /// An error of kind `kind` with a message; input errors carry `EINVAL`
    /// (22), a failed random source `EIO` (5).
    pub fn with_kind(kind: ErrorKind, desc: String) -> (r: CryptError)
        ensures
            r.kind == kind,
            r.errno == if kind == ErrorKind::RandomSourceFailure { 5i32 } else { 22i32 },
            r.desc == Some(desc),
    {
        let errno = if kind == ErrorKind::RandomSourceFailure {
            errno_io()
        } else {
            errno_invalid()
        };
        CryptError { kind, errno, desc: Some(desc) }
    }

    /// The error code.
    pub fn errno(&self) -> (r: i32)
        ensures
            r == self.errno,
    {
        self.errno
    }

    /// The kind of error.
    pub fn kind(&self) -> (r: ErrorKind)
        ensures
            r == self.kind,
    {
        self.kind
    }
}

} // verus!
