//! Error codes used by the emulated system. The value of each error must be
//! the same as on the emulated platform.

use vstd::prelude::*;

verus! {

pub const EPERM: i32 = 1;

pub const ENOENT: i32 = 2;

pub const ESRCH: i32 = 3;

pub const E2BIG: i32 = 7;

pub const ENOEXEC: i32 = 8;

pub const ENOMEM: i32 = 12;

pub const EFAULT: i32 = 14;

pub const EINVAL: i32 = 22;

pub const EAGAIN: i32 = 35;

pub const ENAMETOOLONG: i32 = 63;

/// An object that is mappable to an error number of the emulated system.
pub trait Errno {
    fn errno(&self) -> i32;
}

/// The error numbers that have a known description.
pub open spec fn strerror_known(num: i32) -> bool {
    num == EPERM || num == ENOENT || num == ESRCH || num == E2BIG || num == ENOEXEC || num == ENOMEM
        || num == EFAULT || num == EINVAL || num == EAGAIN || num == ENAMETOOLONG
}

/// The human-readable description of each known error number.
pub open spec fn strerror_spec(num: i32) -> Seq<char> {
    if num == EPERM {
        "operation not permitted"@
    } else if num == ENOENT {
        "no such file or directory"@
    } else if num == ESRCH {
        "no such process"@
    } else if num == E2BIG {
        "argument list too long"@
    } else if num == ENOEXEC {
        "exec format error"@
    } else if num == ENOMEM {
        "cannot allocate memory"@
    } else if num == EFAULT {
        "bad address"@
    } else if num == EINVAL {
        "invalid argument"@
    } else if num == EAGAIN {
        "resource temporarily unavailable"@
    } else if num == ENAMETOOLONG {
        "file name too long"@
    } else {
        Seq::empty()
    }
}

/// Get human-readable text for a known error number.
pub fn strerror(num: i32) -> (r: &'static str)
    requires
        strerror_known(num),
    ensures
        r@ == strerror_spec(num),
{
    if num == EPERM {
        "operation not permitted"
    } else if num == ENOENT {
        "no such file or directory"
    } else if num == ESRCH {
        "no such process"
    } else if num == E2BIG {
        "argument list too long"
    } else if num == ENOEXEC {
        "exec format error"
    } else if num == ENOMEM {
        "cannot allocate memory"
    } else if num == EFAULT {
        "bad address"
    } else if num == EINVAL {
        "invalid argument"
    } else if num == EAGAIN {
        "resource temporarily unavailable"
    } else {
        "file name too long"
    }
}

} // verus!
