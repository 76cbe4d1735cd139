//! Failure reasons and the numeric status codes that stand for them at the
//! boundary to the guest.

use vstd::prelude::*;

verus! {

/// The status of a call that succeeded.
pub const ESUCCESS: u16 = 0;

/// Status of [`ErrorKind::ResourceFault`].
pub const EFAULT: u16 = 21;

/// Status of [`ErrorKind::InvalidArgument`].
pub const EINVAL: u16 = 28;

/// Status of [`ErrorKind::SystemFault`].
pub const EIO: u16 = 29;

/// Status of [`ErrorKind::Internal`].
pub const ENOTRECOVERABLE: u16 = 56;

/// Status of [`ErrorKind::Unsupported`].
pub const ENOTSUP: u16 = 58;

/// Why a host call failed.
#[derive(Clone, Copy, Debug, PartialEq, Eq, Structural)]
pub enum ErrorKind {
    /// An argument is outside what the call accepts, such as an unknown clock id.
    InvalidArgument,
    /// The platform cannot honor the wait that was asked for.
    Unsupported,
    /// A query on a host object failed.
    ResourceFault,
    /// The underlying clock or timer primitive reported a failure.
    SystemFault,
    /// An invariant of this layer was violated. Fatal to the call, not to the process.
    Internal,
}

impl ErrorKind {
    /// The status code of this failure, as a mathematical function.
    pub open spec fn errno(self) -> u16 {
        match self {
            ErrorKind::InvalidArgument => EINVAL,
            ErrorKind::Unsupported => ENOTSUP,
            ErrorKind::ResourceFault => EFAULT,
            ErrorKind::SystemFault => EIO,
            ErrorKind::Internal => ENOTRECOVERABLE,
        }
    }

    /// Translates the failure into the status code that the guest observes.
    pub fn as_wasi_errno(&self) -> (code: u16)
        ensures
            code == self.errno(),
            code != ESUCCESS,
    {
        match self {
            ErrorKind::InvalidArgument => EINVAL,
            ErrorKind::Unsupported => ENOTSUP,
            ErrorKind::ResourceFault => EFAULT,
            ErrorKind::SystemFault => EIO,
            ErrorKind::Internal => ENOTRECOVERABLE,
        }
    }
}

/// The status code of an outcome: zero for success, the failure's code otherwise.
pub open spec fn status_of<T>(outcome: Result<T, ErrorKind>) -> u16 {
    match outcome {
        Ok(_) => ESUCCESS,
        Err(e) => e.errno(),
    }
}

/// No failure is mistaken for success: every failure has a nonzero status code.
pub proof fn lemma_errno_nonzero(e: ErrorKind)
    ensures
        e.errno() != ESUCCESS,
{
}

/// No two failures share a status code.
pub proof fn lemma_errno_injective(a: ErrorKind, b: ErrorKind)
    requires
        a.errno() == b.errno(),
    ensures
        a == b,
{
}

/// The status code tells success from failure, whatever the call returned.
pub proof fn lemma_status_zero_iff_ok<T>(outcome: Result<T, ErrorKind>)
    ensures
        status_of(outcome) == ESUCCESS <==> outcome is Ok,
{
}

} // verus!
