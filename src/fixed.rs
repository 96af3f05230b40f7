//! The protocol's Q15.16 fixed-point scalar.
use vstd::prelude::*;

use crate::sys;

verus! {

/// A signed fixed-point number with 16 fractional bits.
#[derive(Clone, Copy, Debug, PartialEq, Eq, Structural, PartialOrd, Ord, Hash)]
pub struct Fixed(sys::FixedBits);

impl Fixed {
    /// The raw bits of this number.
    pub closed spec fn spec_bits(&self) -> sys::FixedBits {
        self.0
    }

    pub fn from_bits(bits: sys::FixedBits) -> (r: Self)
        ensures
            r.spec_bits() == bits,
    {
        Fixed(bits)
    }

    pub fn to_bits(self) -> (r: sys::FixedBits)
        ensures
            r == self.spec_bits(),
    {
        self.0
    }
}

/// Sum of fixed-point numbers; the sum must be representable.
impl core::ops::Add for Fixed {
    type Output = Fixed;

    fn add(self, rhs: Fixed) -> (r: Fixed) {
        Fixed(self.0 + rhs.0)
    }
}

impl vstd::std_specs::ops::AddSpecImpl for Fixed {
    open spec fn obeys_add_spec() -> bool {
        true
    }

    open spec fn add_req(self, rhs: Fixed) -> bool {
        i32::MIN <= self.spec_bits() + rhs.spec_bits() <= i32::MAX
    }

    closed spec fn add_spec(self, rhs: Fixed) -> Fixed {
        Fixed((self.0 + rhs.0) as i32)
    }
}

/// Difference of fixed-point numbers; the difference must be representable.
impl core::ops::Sub for Fixed {
    type Output = Fixed;

    fn sub(self, rhs: Fixed) -> (r: Fixed) {
        Fixed(self.0 - rhs.0)
    }
}

impl vstd::std_specs::ops::SubSpecImpl for Fixed {
    open spec fn obeys_sub_spec() -> bool {
        true
    }

    open spec fn sub_req(self, rhs: Fixed) -> bool {
        i32::MIN <= self.spec_bits() - rhs.spec_bits() <= i32::MAX
    }

    closed spec fn sub_spec(self, rhs: Fixed) -> Fixed {
        Fixed((self.0 - rhs.0) as i32)
    }
}

} // verus!
