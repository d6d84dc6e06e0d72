use vstd::prelude::*;

use crate::constants::LockConstants;
use crate::error::Error;

verus! {

/// The error that a failure code stands for.
pub open spec fn error_for_code(c: LockConstants, code: i32) -> Error {
    if code == c.eagain {
        Error::CouldNotLockMemoryError
    } else if code == c.einval {
        Error::InvalidFlagsError
    } else if code == c.enomem {
        Error::TooMuchMemoryToLockError
    } else if code == c.eperm {
        Error::NoPermission
    } else {
        Error::UnknownMlockallError
    }
}

/// What a lock call comes to, given its return value and the failure code
/// left behind: a zero return value is success, whatever the code holds.
pub open spec fn outcome_of(c: LockConstants, ret: i32, code: i32) -> Result<(), Error> {
    if ret == 0 {
        Ok(())
    } else {
        Err(error_for_code(c, code))
    }
}

/// Classifies the failure code that a failed lock call left behind.
pub fn error_from_errno(c: &LockConstants, code: i32) -> (e: Error)
    ensures
        e == error_for_code(*c, code),
{
    if code == c.eagain {
        Error::CouldNotLockMemoryError
    } else if code == c.einval {
        Error::InvalidFlagsError
    } else if code == c.enomem {
        Error::TooMuchMemoryToLockError
    } else if code == c.eperm {
        Error::NoPermission
    } else {
        Error::UnknownMlockallError
    }
}

/// Turns the return value of a lock call, and the failure code read after
/// it, into the call's result. The code is looked at only when the call
/// reported failure.
pub fn mlockall_result(c: &LockConstants, ret: i32, code: i32) -> (r: Result<(), Error>)
    ensures
        r == outcome_of(*c, ret, code),
        ret == 0 <==> r is Ok,
{
    if ret == 0 {
        Ok(())
    } else {
        Err(error_from_errno(c, code))
    }
}

/// Each of the four known failure codes is classified as its own error, and
/// no two of them as the same one.
pub proof fn lemma_known_codes_one_to_one(c: LockConstants)
    requires
        c.wf(),
    ensures
        error_for_code(c, c.eagain) == Error::CouldNotLockMemoryError,
        error_for_code(c, c.einval) == Error::InvalidFlagsError,
        error_for_code(c, c.enomem) == Error::TooMuchMemoryToLockError,
        error_for_code(c, c.eperm) == Error::NoPermission,
        forall|a: i32, b: i32|
            #![trigger error_for_code(c, a), error_for_code(c, b)]
            is_known_code(c, a) && is_known_code(c, b) && error_for_code(c, a)
                == error_for_code(c, b) ==> a == b,
{
}

/// One of the four failure codes that have an error of their own.
pub open spec fn is_known_code(c: LockConstants, code: i32) -> bool {
    code == c.eagain || code == c.einval || code == c.enomem || code == c.eperm
}

/// Any other failure code is classified as the catch-all error.
pub proof fn lemma_other_codes_unknown(c: LockConstants, code: i32)
    requires
        !is_known_code(c, code),
    ensures
        error_for_code(c, code) == Error::UnknownMlockallError,
{
}

/// A known failure code is never classified as the catch-all error.
pub proof fn lemma_known_codes_not_unknown(c: LockConstants, code: i32)
    requires
        is_known_code(c, code),
    ensures
        error_for_code(c, code) != Error::UnknownMlockallError,
{
}

} // verus!
