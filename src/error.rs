use vstd::prelude::*;

verus! {

/// Why locking all memory failed.
#[derive(Clone, Copy, Debug, PartialEq, Eq, Structural)]
pub enum Error {
    /// Some or all of the memory could not be locked at the time of the call.
    CouldNotLockMemoryError,
    /// The flags were zero, or held bits that the system does not implement.
    InvalidFlagsError,
    /// Locking would exceed the limit on how much memory the process may lock.
    TooMuchMemoryToLockError,
    /// The process lacks the privilege to lock memory.
    NoPermission,
    /// The system reported a failure code that none of the above covers.
    UnknownMlockallError,
}

} // verus!
