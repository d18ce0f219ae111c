//! Errors of delegated operations.
use vstd::prelude::*;

verus! {

/// FreeBSD's `ENOTCAPABLE`: the request lies outside the capabilities that
/// the service handle was limited to.
pub const ENOTCAPABLE: i32 = 93;

/// How a delegated operation fails.
#[derive(Clone, Copy, Debug, PartialEq, Eq, Structural)]
pub enum Error {
    /// An operating-system error number, passed on as it was reported.
    Os(i32),
    /// Resolution produced no candidate address, so nothing was attempted.
    NoAddresses,
}

impl Error {
    /// The operating-system error number, if the error carries one.
    pub fn raw_os_error(&self) -> (r: Option<i32>)
        ensures
            r == (match *self {
                Error::Os(e) => Some(e),
                Error::NoAddresses => None::<i32>,
            }),
    {
        match *self {
            Error::Os(e) => Some(e),
            Error::NoAddresses => None,
        }
    }

    /// Whether the error lies in the caller's input rather than in the
    /// system: only the empty candidate list is such an error.
    pub fn is_invalid_input(&self) -> (r: bool)
        ensures
            r == (*self is NoAddresses),
    {
        match *self {
            Error::Os(_) => false,
            Error::NoAddresses => true,
        }
    }
}

/// The outcome that a native status code stands for: zero is success, any
/// other value a failure with the error number read right after the call.
pub open spec fn outcome_of(status: i32, errno: i32) -> Result<(), Error> {
    if status == 0 {
        Ok(())
    } else {
        Err(Error::Os(errno))
    }
}

/// Turns the status code that a delegated call returned, and the error number
/// read right after it, into an outcome. The error number is passed on
/// verbatim.
pub fn status_result(status: i32, errno: i32) -> (r: Result<(), Error>)
    ensures
        r == outcome_of(status, errno),
{
    if status == 0 {
        Ok(())
    } else {
        Err(Error::Os(errno))
    }
}

} // verus!
