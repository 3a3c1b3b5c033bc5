//! The error type of the library and the reading of raw system call
//! results into it.
use vstd::prelude::*;

verus! {

/// Linux's code for an invalid argument, as libc defines it.
pub open spec fn einval_code() -> i32 {
    22
}

/// An error number reported by the operating system.
#[derive(Clone, Copy, Debug, PartialEq, Eq, Hash, Structural)]
pub struct Errno {
    pub code: i32,
}

/// Relies on libc::EINVAL, the invalid-argument code on Linux.
#[verifier::external_body]
fn libc_einval() -> (r: i32)
    ensures
        r == einval_code(),
{
    libc::EINVAL
}

impl Errno {
    /// The invalid-argument error.
    pub fn einval() -> (r: Errno)
        ensures
            r.code == einval_code(),
    {
        Errno { code: libc_einval() }
    }
}


impl Errno {
    /// The error with the raw operating-system code `code`.
    pub fn from_raw(code: i32) -> (r: Errno)
        ensures
            r.code == code,
    {
        Errno { code }
    }

    /// The raw operating-system code.
    pub fn raw(&self) -> (r: i32)
        ensures
            r == self.code,
    {
        self.code
    }

    /// Interprets the raw result `res` of a system call: a negative value is
    /// its failure sentinel and yields the error `last` (the thread's errno
    /// right after the call); any other value is passed through.
    pub fn result(res: i32, last: i32) -> (r: Result<i32, Errno>)
        ensures
            r == (if res < 0 {
                Err::<i32, Errno>(Errno { code: last })
            } else {
                Ok::<i32, Errno>(res)
            }),
    {
        if res < 0 {
            Err(Errno::from_raw(last))
        } else {
            Ok(res)
        }
    }
}

} // verus!
