use vstd::prelude::*;

verus! {

/// Why a timestamp write failed.
#[derive(Debug, Clone, Copy, PartialEq, Eq, Structural)]
pub enum WriteError {
    /// The platform cannot make the requested change.
    Unsupported,
    /// The system refused the change with this error code.
    Os(i32),
}

/// The outcome of a write as the system reported it: success, or the error
/// code that it gave.
pub open spec fn os_outcome(status: Result<(), i32>) -> Result<(), WriteError> {
    match status {
        Ok(()) => Ok(()),
        Err(code) => Err(WriteError::Os(code)),
    }
}

/// Turns the status of a system call into the outcome of a write.
pub fn from_os_status(status: Result<(), i32>) -> (r: Result<(), WriteError>)
    ensures
        r == os_outcome(status),
{
    match status {
        Ok(()) => Ok(()),
        Err(code) => Err(WriteError::Os(code)),
    }
}

} // verus!
