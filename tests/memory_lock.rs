use memory_lock::{after_attempt, begin, error_from_errno, mlockall_result};
use memory_lock::{Attempt, Error, LockConstants, LockStep};

fn linux_like() -> LockConstants {
    LockConstants {
        mcl_current: 1,
        mcl_future: 2,
        mcl_onfault: 4,
        eagain: 11,
        einval: 22,
        enomem: 12,
        eperm: 1,
    }
}

/// Runs the lock policy against scripted calls: each call returns the next
/// (return value, failure code) pair. Gives the final result, the flags of
/// each call made, and the diagnostics reported.
fn drive(c: &LockConstants, script: &[(i32, i32)]) -> (Result<(), Error>, Vec<i32>, Vec<Error>) {
    let mut flags_seen = Vec::new();
    let mut reports = Vec::new();
    let mut step = begin(c);
    loop {
        match step {
            LockStep::Done(r) => return (r, flags_seen, reports),
            LockStep::Call { attempt, flags, report } => {
                if let Some(e) = report {
                    reports.push(e);
                }
                let (ret, code) = script[flags_seen.len()];
                flags_seen.push(flags);
                step = after_attempt(c, attempt, mlockall_result(c, ret, code));
            }
        }
    }
}

#[test]
fn host_constants_are_the_platform_values() {
    let c = LockConstants::host();
    assert_eq!(c.mcl_current, libc::MCL_CURRENT);
    assert_eq!(c.mcl_future, libc::MCL_FUTURE);
    assert_eq!(c.mcl_onfault, libc::MCL_ONFAULT);
    assert_eq!(c.eagain, libc::EAGAIN);
    assert_eq!(c.einval, libc::EINVAL);
    assert_eq!(c.enomem, libc::ENOMEM);
    assert_eq!(c.eperm, libc::EPERM);
}

#[test]
fn known_codes_map_one_to_one() {
    let c = LockConstants::host();
    assert_eq!(error_from_errno(&c, libc::EAGAIN), Error::CouldNotLockMemoryError);
    assert_eq!(error_from_errno(&c, libc::EINVAL), Error::InvalidFlagsError);
    assert_eq!(error_from_errno(&c, libc::ENOMEM), Error::TooMuchMemoryToLockError);
    assert_eq!(error_from_errno(&c, libc::EPERM), Error::NoPermission);
}

#[test]
fn other_codes_are_unknown() {
    let c = LockConstants::host();
    for code in [0, libc::ENOENT, libc::EBUSY, libc::EINTR, -1, 9999, i32::MAX, i32::MIN] {
        assert_eq!(error_from_errno(&c, code), Error::UnknownMlockallError);
    }
}

#[test]
fn unrecognized_code_gives_unknown_error() {
    let c = LockConstants::host();
    assert_eq!(mlockall_result(&c, -1, 12345), Err(Error::UnknownMlockallError));
}

#[test]
fn success_ignores_the_failure_code() {
    let c = LockConstants::host();
    assert_eq!(mlockall_result(&c, 0, libc::EPERM), Ok(()));
    assert_eq!(mlockall_result(&c, 0, 12345), Ok(()));
    assert_eq!(mlockall_result(&c, -1, libc::EPERM), Err(Error::NoPermission));
    assert_eq!(mlockall_result(&c, -1, libc::EAGAIN), Err(Error::CouldNotLockMemoryError));
    assert_eq!(mlockall_result(&c, -1, libc::ENOMEM), Err(Error::TooMuchMemoryToLockError));
}

#[test]
fn flags_of_the_two_attempts() {
    let c = linux_like();
    assert_eq!(
        begin(&c),
        LockStep::Call { attempt: Attempt::WithOnFault, flags: 7, report: None }
    );
    assert_eq!(
        after_attempt(&c, Attempt::WithOnFault, Err(Error::NoPermission)),
        LockStep::Call { attempt: Attempt::WithoutOnFault, flags: 3, report: Some(Error::NoPermission) }
    );
}

#[test]
fn host_first_attempt_includes_on_fault() {
    let c = LockConstants::host();
    match begin(&c) {
        LockStep::Call { attempt, flags, report } => {
            assert_eq!(attempt, Attempt::WithOnFault);
            assert_eq!(flags, libc::MCL_CURRENT | libc::MCL_FUTURE | libc::MCL_ONFAULT);
            assert_eq!(report, None);
        }
        LockStep::Done(_) => panic!("the first step must be a call"),
    }
}

#[test]
fn first_success_is_one_call() {
    let c = LockConstants::host();
    let (r, calls, reports) = drive(&c, &[(0, 0)]);
    assert_eq!(r, Ok(()));
    assert_eq!(calls, vec![libc::MCL_CURRENT | libc::MCL_FUTURE | libc::MCL_ONFAULT]);
    assert!(reports.is_empty());
}

#[test]
fn permission_denied_then_success() {
    let c = LockConstants::host();
    let (r, calls, reports) = drive(&c, &[(-1, libc::EPERM), (0, 0)]);
    assert_eq!(r, Ok(()));
    assert_eq!(
        calls,
        vec![
            libc::MCL_CURRENT | libc::MCL_FUTURE | libc::MCL_ONFAULT,
            libc::MCL_CURRENT | libc::MCL_FUTURE,
        ]
    );
    assert_eq!(reports, vec![Error::NoPermission]);
}

#[test]
fn invalid_argument_twice() {
    let c = LockConstants::host();
    let (r, calls, reports) = drive(&c, &[(-1, libc::EINVAL), (-1, libc::EINVAL)]);
    assert_eq!(r, Err(Error::InvalidFlagsError));
    assert_eq!(calls.len(), 2);
    assert_eq!(reports, vec![Error::InvalidFlagsError]);
}

#[test]
fn final_error_is_the_second() {
    let c = LockConstants::host();
    let (r, calls, reports) = drive(&c, &[(-1, libc::EAGAIN), (-1, libc::ENOMEM)]);
    assert_eq!(r, Err(Error::TooMuchMemoryToLockError));
    assert_eq!(calls.len(), 2);
    assert_eq!(reports, vec![Error::CouldNotLockMemoryError]);
}

#[test]
fn every_first_error_falls_back_once() {
    let c = linux_like();
    let errors = [
        Error::CouldNotLockMemoryError,
        Error::InvalidFlagsError,
        Error::TooMuchMemoryToLockError,
        Error::NoPermission,
        Error::UnknownMlockallError,
    ];
    for e in errors {
        assert_eq!(
            after_attempt(&c, Attempt::WithOnFault, Err(e)),
            LockStep::Call { attempt: Attempt::WithoutOnFault, flags: 3, report: Some(e) }
        );
        for second in [Ok(()), Err(Error::UnknownMlockallError), Err(e)] {
            assert_eq!(after_attempt(&c, Attempt::WithoutOnFault, second), LockStep::Done(second));
        }
    }
}

#[test]
fn never_more_than_two_calls() {
    let c = LockConstants::host();
    let script = [(-1, libc::EAGAIN), (-1, libc::EAGAIN), (0, 0), (0, 0)];
    let (r, calls, _) = drive(&c, &script);
    assert_eq!(r, Err(Error::CouldNotLockMemoryError));
    assert_eq!(calls.len(), 2);
}
