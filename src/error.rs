use vstd::prelude::*;

verus! {

/// Status code handed back to the guest for every call.
pub type Errno = u16;

pub const ESUCCESS: Errno = 0;
pub const EBADF: Errno = 8;
pub const EFAULT: Errno = 21;
pub const EIO: Errno = 29;
pub const ENOENT: Errno = 44;
pub const ENOSYS: Errno = 52;
pub const ENOTCAPABLE: Errno = 76;

/// Every way a host call can fail.
#[derive(Clone, Copy, Debug, PartialEq, Eq, Structural)]
pub enum Error {
    /// A guest pointer access would run past the end of the memory.
    OutOfBounds,
    /// The handle is not present in the descriptor table.
    BadFileDescriptor,
    /// A required right is absent, or an attempt was made to widen rights.
    PermissionDenied,
    /// The path or resource does not exist on the host.
    NotFound,
    /// The call has no host logic behind it.
    NotImplemented,
    /// The host operation failed with the given status code.
    Io(Errno),
}

impl Error {
    /// The status code that the guest observes for this failure; never
    /// `ESUCCESS`.
    pub open spec fn spec_errno(self) -> Errno {
        match self {
            Error::OutOfBounds => EFAULT,
            Error::BadFileDescriptor => EBADF,
            Error::PermissionDenied => ENOTCAPABLE,
            Error::NotFound => ENOENT,
            Error::NotImplemented => ENOSYS,
            Error::Io(code) => if code == ESUCCESS { EIO } else { code },
        }
    }

    pub fn errno(self) -> (r: Errno)
        ensures
            r == self.spec_errno(),
            r != ESUCCESS,
    {
        match self {
            Error::OutOfBounds => EFAULT,
            Error::BadFileDescriptor => EBADF,
            Error::PermissionDenied => ENOTCAPABLE,
            Error::NotFound => ENOENT,
            Error::NotImplemented => ENOSYS,
            Error::Io(code) => if code == ESUCCESS { EIO } else { code },
        }
    }
}

/// The status of a call that returns `Ok(())` on success.
pub open spec fn spec_status(r: Result<(), Error>) -> Errno {
    match r {
        Ok(()) => ESUCCESS,
        Err(e) => e.spec_errno(),
    }
}

pub fn status(r: Result<(), Error>) -> (s: Errno)
    ensures
        s == spec_status(r),
        (s == ESUCCESS) == (r is Ok),
{
    match r {
        Ok(()) => ESUCCESS,
        Err(e) => e.errno(),
    }
}

} // verus!
