//! The value constraints of device options.
use vstd::prelude::*;

use crate::fixed::Fixed;
use crate::string::SaneString;
use crate::sys;

verus! {

/// A range constraint as the native library stores it.
#[derive(Clone, Copy, Debug, PartialEq, Eq, Structural)]
pub struct Range {
    pub min: sys::Word,
    pub max: sys::Word,
    pub quant: sys::Word,
}

/// The list of strings that a string-list constraint allows.
#[derive(Clone, Debug)]
pub struct SaneStrListIter {
    items: Vec<SaneString>,
}

impl SaneStrListIter {
    pub closed spec fn spec_items(&self) -> Seq<SaneString> {
        self.items@
    }

    pub fn new(items: Vec<SaneString>) -> (r: Self)
        ensures
            r.spec_items() == items@,
    {
        SaneStrListIter { items }
    }

    pub fn count_items(&self) -> (r: usize)
        ensures
            r == self.spec_items().len(),
    {
        self.items.len()
    }

    /// The string at `index`, if there is one.
    pub fn get(&self, index: usize) -> (r: Option<&SaneString>)
        ensures
            index < self.spec_items().len() ==> r == Some(&self.spec_items()[index as int]),
            index >= self.spec_items().len() ==> r is None,
    {
        if index < self.items.len() {
            Some(&self.items[index])
        } else {
            None
        }
    }
}

impl Default for SaneStrListIter {
    fn default() -> (r: Self)
        ensures
            r.spec_items().len() == 0,
    {
        SaneStrListIter { items: Vec::new() }
    }
}

/// The constraint record of an option descriptor, read according to its kind.
#[derive(Clone, Debug)]
pub enum ConstraintData {
    /// No constraint.
    Unconstrained,
    /// A range of values.
    Range(Range),
    /// A list of allowed words.
    WordList(Vec<sys::Word>),
    /// A list of allowed strings.
    StringList(SaneStrListIter),
    /// A constraint kind this library does not know.
    Other(sys::ConstraintType),
}

/// The constraint on an option's value.
#[derive(Debug)]
pub enum DeviceOptionConstraint {
    RangeInt { min: i32, max: i32, quant: i32 },
    RangeFixed { min: Fixed, max: Fixed, quant: Fixed },
    ListInt(Vec<i32>),
    ListFixed(Vec<Fixed>),
    ListString(SaneStrListIter),
    Unsupported { value_type: sys::ValueType, contraint_type: sys::ConstraintType },
}

/// The words of a list as fixed-point numbers.
fn words_as_fixed(words: &Vec<sys::Word>) -> (r: Vec<Fixed>)
    ensures
        r@.len() == words@.len(),
        forall|i: int| 0 <= i < r@.len() ==> #[trigger] r@[i].spec_bits() == words@[i],
{
    let mut out: Vec<Fixed> = Vec::new();
    let mut i: usize = 0;
    while i < words.len()
        invariant
            i <= words@.len(),
            out@.len() == i,
            forall|j: int| 0 <= j < i ==> #[trigger] out@[j].spec_bits() == words@[j],
        decreases words@.len() - i,
    {
        out.push(Fixed::from_bits(words[i]));
        i += 1;
    }
    out
}

impl DeviceOptionConstraint {
    /// The constraint that `data` describes for an option of type `value_type`. Ranges
    /// and word lists are typed by the option's type (integer or fixed-point); for
    /// other types they are unsupported.
    pub fn decode(value_type: sys::ValueType, data: ConstraintData) -> (r: Option<Self>)
        ensures
            data is Unconstrained <==> r is None,
            data matches ConstraintData::Range(g) ==> (if value_type.0 == sys::TYPE_INT {
                r == Some(DeviceOptionConstraint::RangeInt { min: g.min, max: g.max, quant: g.quant })
            } else if value_type.0 == sys::TYPE_FIXED {
                r matches Some(DeviceOptionConstraint::RangeFixed { min, max, quant }) && min.spec_bits()
                    == g.min && max.spec_bits() == g.max && quant.spec_bits() == g.quant
            } else {
                r == Some(
                    DeviceOptionConstraint::Unsupported {
                        value_type,
                        contraint_type: sys::ConstraintType(sys::CONSTRAINT_RANGE),
                    },
                )
            }),
            data matches ConstraintData::WordList(w) ==> (if value_type.0 == sys::TYPE_INT {
                r matches Some(DeviceOptionConstraint::ListInt(l)) && l@ == w@
            } else if value_type.0 == sys::TYPE_FIXED {
                r matches Some(DeviceOptionConstraint::ListFixed(l)) && l@.len() == w@.len() && (
                forall|i: int| 0 <= i < l@.len() ==> #[trigger] l@[i].spec_bits() == w@[i])
            } else {
                r == Some(
                    DeviceOptionConstraint::Unsupported {
                        value_type,
                        contraint_type: sys::ConstraintType(sys::CONSTRAINT_WORD_LIST),
                    },
                )
            }),
            data matches ConstraintData::StringList(s) ==> (r matches Some(
                DeviceOptionConstraint::ListString(t),
            ) && t.spec_items() == s.spec_items()),
            data matches ConstraintData::Other(c) ==> r == Some(
                DeviceOptionConstraint::Unsupported { value_type, contraint_type: c },
            ),
    {
        match data {
            ConstraintData::Unconstrained => None,
            ConstraintData::Range(g) => {
                if value_type.0 == sys::TYPE_INT {
                    Some(DeviceOptionConstraint::RangeInt { min: g.min, max: g.max, quant: g.quant })
                } else if value_type.0 == sys::TYPE_FIXED {
                    Some(
                        DeviceOptionConstraint::RangeFixed {
                            min: Fixed::from_bits(g.min),
                            max: Fixed::from_bits(g.max),
                            quant: Fixed::from_bits(g.quant),
                        },
                    )
                } else {
                    Some(
                        DeviceOptionConstraint::Unsupported {
                            value_type,
                            contraint_type: sys::ConstraintType(sys::CONSTRAINT_RANGE),
                        },
                    )
                }
            },
            ConstraintData::WordList(w) => {
                if value_type.0 == sys::TYPE_INT {
                    Some(DeviceOptionConstraint::ListInt(w))
                } else if value_type.0 == sys::TYPE_FIXED {
                    Some(DeviceOptionConstraint::ListFixed(words_as_fixed(&w)))
                } else {
                    Some(
                        DeviceOptionConstraint::Unsupported {
                            value_type,
                            contraint_type: sys::ConstraintType(sys::CONSTRAINT_WORD_LIST),
                        },
                    )
                }
            },
            ConstraintData::StringList(s) => Some(DeviceOptionConstraint::ListString(s)),
            ConstraintData::Other(c) => Some(
                DeviceOptionConstraint::Unsupported { value_type, contraint_type: c },
            ),
        }
    }
}

} // verus!
