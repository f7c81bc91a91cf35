//! POSIX-style error numbers used by the gateway's status encoding.
//!
//! Every externally callable operation returns a 32-bit signed integer: a
//! non-negative value is a success result, a negative value is `-(errno)`.

use vstd::prelude::*;

verus! {

/// The error numbers this gateway reports or passes through.
///
/// The boundary itself uses `EINVAL` (bad untrusted input), `EACCES` (entry
/// point denied), `EAGAIN` (gateway not yet initialized), `EEXIST` (gateway
/// already initialized) and `EFAULT` (a contained internal fault). The other
/// variants carry failures reported by the process and filesystem subsystems
/// through unchanged.
#[derive(Clone, Copy, Debug, PartialEq, Eq, Structural)]
pub enum Errno {
    EPERM,
    ENOENT,
    EIO,
    EBADF,
    EAGAIN,
    ENOMEM,
    EACCES,
    EFAULT,
    EEXIST,
    EINVAL,
    ENOSYS,
}

impl Errno {
    /// The POSIX error number of this variant.
    pub open spec fn spec_code(self) -> int {
        match self {
            Errno::EPERM => 1,
            Errno::ENOENT => 2,
            Errno::EIO => 5,
            Errno::EBADF => 9,
            Errno::EAGAIN => 11,
            Errno::ENOMEM => 12,
            Errno::EACCES => 13,
            Errno::EFAULT => 14,
            Errno::EEXIST => 17,
            Errno::EINVAL => 22,
            Errno::ENOSYS => 38,
        }
    }

    /// The gateway's status encoding of an error: the negated error number.
    pub open spec fn spec_ecall_status(self) -> int {
        -self.spec_code()
    }

    pub fn code(self) -> (r: i32)
        ensures
            r == self.spec_code(),
    {
        match self {
            Errno::EPERM => 1,
            Errno::ENOENT => 2,
            Errno::EIO => 5,
            Errno::EBADF => 9,
            Errno::EAGAIN => 11,
            Errno::ENOMEM => 12,
            Errno::EACCES => 13,
            Errno::EFAULT => 14,
            Errno::EEXIST => 17,
            Errno::EINVAL => 22,
            Errno::ENOSYS => 38,
        }
    }

    /// The negative status returned across the boundary for this error.
    pub fn ecall_status(self) -> (r: i32)
        ensures
            r == self.spec_ecall_status(),
    {
        -self.code()
    }
}

} // verus!
