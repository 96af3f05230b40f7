//! Status codes of the native library and the error type built on them.
use vstd::prelude::*;

use crate::sys;

verus! {

/// An error status reported by the native library.
#[derive(Clone, Copy, Debug, PartialEq, Eq, Structural)]
pub struct Error {
    status: sys::Status,
}

impl Error {
    /// The raw status code of this error.
    pub closed spec fn code(&self) -> u32 {
        self.status.0
    }

    pub fn status(&self) -> (r: Status)
        ensures
            r == status_of(self.code()),
    {
        Status::from_sys(self.status)
    }

    pub fn sys_status(&self) -> (r: sys::Status)
        ensures
            r.0 == self.code(),
    {
        self.status
    }
}

/// `Ok` for the success status, otherwise the error that carries `status`.
pub fn status_result(status: sys::Status) -> (r: Result<(), Error>)
    ensures
        status.0 == sys::STATUS_GOOD ==> r is Ok,
        status.0 != sys::STATUS_GOOD ==> (r matches Err(e) && e.code() == status.0),
{
    if status.0 == sys::STATUS_GOOD {
        Ok(())
    } else {
        Err(Error { status })
    }
}

/// The named conditions that a status code can report.
#[derive(Debug, Clone, Copy, PartialEq, Eq, Structural)]
pub enum Status {
    Unsupported,
    Cancelled,
    DeviceBusy,
    Inval,
    Eof,
    Jammed,
    NoDocs,
    CoverOpen,
    IoError,
    NoMem,
    AccessDenied,
    Unknown,
}

/// The condition that a raw status code names.
pub open spec fn status_of(code: u32) -> Status {
    if code == sys::STATUS_UNSUPPORTED {
        Status::Unsupported
    } else if code == sys::STATUS_CANCELLED {
        Status::Cancelled
    } else if code == sys::STATUS_DEVICE_BUSY {
        Status::DeviceBusy
    } else if code == sys::STATUS_INVAL {
        Status::Inval
    } else if code == sys::STATUS_EOF {
        Status::Eof
    } else if code == sys::STATUS_JAMMED {
        Status::Jammed
    } else if code == sys::STATUS_NO_DOCS {
        Status::NoDocs
    } else if code == sys::STATUS_COVER_OPEN {
        Status::CoverOpen
    } else if code == sys::STATUS_IO_ERROR {
        Status::IoError
    } else if code == sys::STATUS_NO_MEM {
        Status::NoMem
    } else if code == sys::STATUS_ACCESS_DENIED {
        Status::AccessDenied
    } else {
        Status::Unknown
    }
}

impl Status {
    pub fn from_sys(value: sys::Status) -> (r: Self)
        ensures
            r == status_of(value.0),
    {
        let code = value.0;
        if code == sys::STATUS_UNSUPPORTED {
            Status::Unsupported
        } else if code == sys::STATUS_CANCELLED {
            Status::Cancelled
        } else if code == sys::STATUS_DEVICE_BUSY {
            Status::DeviceBusy
        } else if code == sys::STATUS_INVAL {
            Status::Inval
        } else if code == sys::STATUS_EOF {
            Status::Eof
        } else if code == sys::STATUS_JAMMED {
            Status::Jammed
        } else if code == sys::STATUS_NO_DOCS {
            Status::NoDocs
        } else if code == sys::STATUS_COVER_OPEN {
            Status::CoverOpen
        } else if code == sys::STATUS_IO_ERROR {
            Status::IoError
        } else if code == sys::STATUS_NO_MEM {
            Status::NoMem
        } else if code == sys::STATUS_ACCESS_DENIED {
            Status::AccessDenied
        } else {
            Status::Unknown
        }
    }
}

impl From<sys::Status> for Status {
    fn from(value: sys::Status) -> (r: Status) {
        Status::from_sys(value)
    }
}

impl vstd::std_specs::convert::FromSpecImpl<sys::Status> for Status {
    open spec fn obeys_from_spec() -> bool {
        true
    }

    open spec fn from_spec(v: sys::Status) -> Status {
        status_of(v.0)
    }
}

} // verus!
