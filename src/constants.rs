use vstd::prelude::*;

verus! {

/// The platform's values for the lock flags and for the failure codes that
/// the lock call may report.
#[derive(Clone, Copy, Debug, PartialEq, Eq, Structural)]
pub struct LockConstants {
    /// Lock the pages that are mapped now.
    pub mcl_current: i32,
    /// Lock the pages that will be mapped later.
    pub mcl_future: i32,
    /// Lock pages only once they are first touched.
    pub mcl_onfault: i32,
    /// Resource temporarily unavailable.
    pub eagain: i32,
    /// Invalid argument.
    pub einval: i32,
    /// Out of memory.
    pub enomem: i32,
    /// Operation not permitted.
    pub eperm: i32,
}

impl LockConstants {
    /// The four failure codes are told apart: no two of them are equal.
    pub open spec fn wf(self) -> bool {
        &&& self.eagain != self.einval
        &&& self.eagain != self.enomem
        &&& self.eagain != self.eperm
        &&& self.einval != self.enomem
        &&& self.einval != self.eperm
        &&& self.enomem != self.eperm
    }

    /// The values of the platform this library was built for.
    pub fn host() -> (c: Self)
        ensures
            c.wf(),
    {
        libc_constants()
    }
}

/// Relies on libc's constants `MCL_CURRENT`, `MCL_FUTURE`, `MCL_ONFAULT`,
/// `EAGAIN`, `EINVAL`, `ENOMEM` and `EPERM`: the four error numbers are
/// distinct codes of the platform's errno table.
#[verifier::external_body]
fn libc_constants() -> (c: LockConstants)
    ensures
        c.wf(),
{
    LockConstants {
        mcl_current: libc::MCL_CURRENT,
        mcl_future: libc::MCL_FUTURE,
        mcl_onfault: libc::MCL_ONFAULT,
        eagain: libc::EAGAIN,
        einval: libc::EINVAL,
        enomem: libc::ENOMEM,
        eperm: libc::EPERM,
    }
}

} // verus!
