//! Version codes of the native library.
use vstd::prelude::*;

use crate::error::{status_result, Error};
use crate::sys;

verus! {

/// A version of the native library: major, minor and build number in one code.
#[derive(Clone, Copy, Debug, PartialEq, Eq, Structural, PartialOrd, Ord, Hash)]
pub struct Version(sys::Int);

impl Version {
    /// The version code.
    pub closed spec fn spec_code(&self) -> sys::Int {
        self.0
    }

    pub fn new(major: u8, minor: u8, build: u16) -> (r: Self)
        ensures
            sys::word_bits(r.spec_code()) == major * 0x100_0000 + minor * 0x1_0000 + build,
            r.spec_major() == major,
            r.spec_minor() == minor,
            r.spec_build() == build,
    {
        let code = sys::version_code(major as sys::Int, minor as sys::Int, build as sys::Int);
        proof {
            let (a, b, c) = (major as sys::Int, minor as sys::Int, build as sys::Int);
            assert(sys::word_bits(a) % 0x100 == major && sys::word_bits(b) % 0x100 == minor
                && sys::word_bits(c) % 0x1_0000 == build) by (bit_vector)
                requires
                    a == major as i32,
                    b == minor as i32,
                    c == build as i32,
            ;
            let w = sys::word_bits(code);
            assert(w == major * 0x100_0000 + minor * 0x1_0000 + build ==> (w / 0x100_0000) as u8
                == major && (w / 0x1_0000 % 0x100) as u8 == minor && (w % 0x1_0000) as u16 == build)
                by (bit_vector);
        }
        Version(code)
    }

    /// The version that a raw code stands for.
    pub fn from_code(code: sys::Int) -> (r: Self)
        ensures
            r.spec_code() == code,
    {
        Version(code)
    }

    pub open spec fn spec_major(&self) -> u8 {
        (sys::word_bits(self.spec_code()) / 0x100_0000) as u8
    }

    pub open spec fn spec_minor(&self) -> u8 {
        (sys::word_bits(self.spec_code()) / 0x1_0000 % 0x100) as u8
    }

    pub open spec fn spec_build(&self) -> u16 {
        (sys::word_bits(self.spec_code()) % 0x1_0000) as u16
    }

    pub fn major(&self) -> (r: u8)
        ensures
            r == self.spec_major(),
    {
        sys::version_major(self.0)
    }

    pub fn minor(&self) -> (r: u8)
        ensures
            r == self.spec_minor(),
    {
        sys::version_minor(self.0)
    }

    pub fn build(&self) -> (r: u16)
        ensures
            r == self.spec_build(),
    {
        sys::version_build(self.0)
    }

    /// The code of this version.
    pub fn code(&self) -> (r: sys::Int)
        ensures
            r == self.spec_code(),
    {
        self.0
    }
}

/// The version of the protocol header this library is written against.
pub fn lib_version() -> (r: Version)
    ensures
        r.spec_major() == sys::CURRENT_MAJOR,
        r.spec_minor() == sys::CURRENT_MINOR,
        r.spec_build() == 0,
{
    Version::new(sys::CURRENT_MAJOR as u8, sys::CURRENT_MINOR as u8, 0)
}

/// The outcome of initialising the native library: the version code it reported when
/// it succeeded, its error otherwise.
pub fn init_outcome(status: sys::Status, code: sys::Int) -> (r: Result<Version, Error>)
    ensures
        status.0 == sys::STATUS_GOOD ==> (r matches Ok(v) && v.spec_code() == code),
        status.0 != sys::STATUS_GOOD ==> (r matches Err(e) && e.code() == status.0),
{
    match status_result(status) {
        Ok(()) => Ok(Version(code)),
        Err(e) => Err(e),
    }
}

} // verus!
