//! The two ways in which an operation on a GPIO device fails.

use nix::errno::Errno;
use vstd::prelude::*;
use vstd::std_specs::convert::FromSpecImpl;

verus! {

/// `nix::errno::Errno`, the error number that the kernel gives when it
/// rejects an exchange. Nothing is known of a value but its identity.
#[verifier::external_type_specification]
#[verifier::external_body]
pub struct ExErrno(nix::errno::Errno);

/// `std::io::Error`, the error of a failed file operation. Nothing is known
/// of a value but its identity.
#[verifier::external_type_specification]
#[verifier::external_body]
pub struct ExIoError(std::io::Error);

/// A failed operation: either the device file could not be opened, or the
/// kernel rejected or could not service an exchange.
#[derive(Debug)]
pub enum Error {
    /// The underlying file operation failed.
    IOError(std::io::Error),
    /// The kernel rejected the exchange.
    IoctlError(Errno),
}

impl Error {
    /// True for a failure of the file operation.
    pub fn is_io(&self) -> (r: bool)
        ensures
            r == (self is IOError),
    {
        match self {
            Error::IOError(_) => true,
            Error::IoctlError(_) => false,
        }
    }

    /// True for a failure of a kernel exchange.
    pub fn is_ioctl(&self) -> (r: bool)
        ensures
            r == (self is IoctlError),
    {
        match self {
            Error::IOError(_) => false,
            Error::IoctlError(_) => true,
        }
    }
}

impl From<std::io::Error> for Error {
    fn from(err: std::io::Error) -> (e: Error) {
        Error::IOError(err)
    }
}

impl FromSpecImpl<std::io::Error> for Error {
    open spec fn obeys_from_spec() -> bool {
        true
    }

    open spec fn from_spec(err: std::io::Error) -> Error {
        Error::IOError(err)
    }
}

impl From<Errno> for Error {
    fn from(err: Errno) -> (e: Error) {
        Error::IoctlError(err)
    }
}

impl FromSpecImpl<Errno> for Error {
    open spec fn obeys_from_spec() -> bool {
        true
    }

    open spec fn from_spec(err: Errno) -> Error {
        Error::IoctlError(err)
    }
}

/// The raw number of the error "invalid argument", with which the kernel
/// answers a malformed request.
pub const EINVAL: i32 = 22;

/// The `Errno` that `nix::errno::Errno::from_raw` gives for a raw error
/// number.
pub uninterp spec fn errno_of(raw: i32) -> Errno;

/// Calls `nix::errno::Errno::from_raw`, which maps a raw error number to the
/// `Errno` that stands for it: the result depends on the number alone.
#[verifier::external_body]
pub(crate) fn errno_from_raw(raw: i32) -> (errno: Errno)
    ensures
        errno == errno_of(raw),
{
    Errno::from_raw(raw)
}

} // verus!
