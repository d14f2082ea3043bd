//! The error numbers by which a failed scheduling call is told apart.

use vstd::prelude::*;

verus! {

/// The four error numbers that the classification of a failure looks for.
///
/// Their values belong to the platform: what an error number means is decided by
/// comparing it with these, never with a number written down here.
#[derive(Debug, Copy, Clone, PartialEq, Eq, Structural)]
pub struct ErrnoCodes {
    /// The operation is not permitted.
    pub eperm: i32,
    /// No such process.
    pub esrch: i32,
    /// An argument is invalid.
    pub einval: i32,
    /// No such resource is available.
    pub enavail: i32,
}

impl ErrnoCodes {
    /// The error numbers of the platform that this library was compiled for.
    ///
    /// The numbers differ from platform to platform, so only this is promised of
    /// them: they are four different numbers.
    pub fn host() -> (codes: ErrnoCodes)
        ensures
            codes.distinct(),
    {
        libc_codes()
    }

    /// Whether the four codes are four different numbers. Then each of them
    /// stands for a failure of its own, in whatever order a failure is compared
    /// with them.
    pub open spec fn distinct(self) -> bool {
        &&& self.eperm != self.esrch
        &&& self.eperm != self.einval
        &&& self.eperm != self.enavail
        &&& self.esrch != self.einval
        &&& self.esrch != self.enavail
        &&& self.einval != self.enavail
    }
}

/// Reads the constants `libc::EPERM`, `libc::ESRCH`, `libc::EINVAL` and
/// `libc::ENAVAIL`. libc gives them other values on one platform than on another,
/// so the contract names no value. On every platform on which libc defines all
/// four, they are four different numbers, and that is all the contract claims.
#[verifier::external_body]
fn libc_codes() -> (codes: ErrnoCodes)
    ensures
        codes.distinct(),
{
    ErrnoCodes {
        eperm: libc::EPERM,
        esrch: libc::ESRCH,
        einval: libc::EINVAL,
        enavail: libc::ENAVAIL,
    }
}

} // verus!
