use vstd::prelude::*;

verus! {

/// Error number for an argument that cannot be handed to the native layer.
pub const EINVAL: i32 = 22;

/// Error number used when the native call reports success without naming a
/// child process.
pub const ESRCH: i32 = 3;

/// What went wrong, with the operating system's error number.
#[derive(Debug, Clone, Copy, PartialEq, Eq, Structural)]
pub enum SpawnError {
    /// A native handle could not be initialised.
    AllocationFailure(i32),
    /// A value was refused, by this library or by a native setter.
    InvalidArgument(i32),
    /// The process-creation call itself failed.
    SpawnFailure(i32),
}

impl SpawnError {
    /// The error number carried by the error.
    pub open spec fn code(self) -> i32 {
        match self {
            SpawnError::AllocationFailure(c) => c,
            SpawnError::InvalidArgument(c) => c,
            SpawnError::SpawnFailure(c) => c,
        }
    }

    /// The operating system's error number.
    pub fn raw_os_error(&self) -> (r: i32)
        ensures
            r == self.code(),
    {
        match self {
            SpawnError::AllocationFailure(c) => *c,
            SpawnError::InvalidArgument(c) => *c,
            SpawnError::SpawnFailure(c) => *c,
        }
    }
}

/// Reads the return code of a native initialisation call (`*_init`):
/// zero means the handle is ready, anything else is the error number.
pub fn check_init(res: i32) -> (r: Result<(), SpawnError>)
    ensures
        res == 0 ==> r == Ok::<(), SpawnError>(()),
        res != 0 ==> r == Err::<(), SpawnError>(SpawnError::AllocationFailure(res)),
{
    if res == 0 {
        Ok(())
    } else {
        Err(SpawnError::AllocationFailure(res))
    }
}

/// Reads the return code of a native setter or of a native file-action call:
/// zero means the value was taken, anything else is the error number.
pub fn check_setter(res: i32) -> (r: Result<(), SpawnError>)
    ensures
        res == 0 ==> r == Ok::<(), SpawnError>(()),
        res != 0 ==> r == Err::<(), SpawnError>(SpawnError::InvalidArgument(res)),
{
    if res == 0 {
        Ok(())
    } else {
        Err(SpawnError::InvalidArgument(res))
    }
}

} // verus!
