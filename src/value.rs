//! Option values and their types.
use vstd::prelude::*;

use crate::fixed::Fixed;
use crate::string::SaneString;
use crate::sys;

verus! {

/// The protocol boolean for `v`.
pub fn sys_bool(v: bool) -> (r: sys::Bool)
    ensures
        r == (if v {
            sys::TRUE
        } else {
            sys::FALSE
        }),
{
    if v {
        sys::TRUE
    } else {
        sys::FALSE
    }
}

/// The type of an option's value.
#[derive(Debug, Clone, Copy, PartialEq, Eq, Structural, Hash)]
pub enum ValueType {
    Bool,
    Int,
    Fixed,
    String,
    Group,
    Button,
    Unknown,
}

/// The value type that a raw type code names.
pub open spec fn value_type_of(code: u32) -> ValueType {
    if code == sys::TYPE_BOOL {
        ValueType::Bool
    } else if code == sys::TYPE_INT {
        ValueType::Int
    } else if code == sys::TYPE_FIXED {
        ValueType::Fixed
    } else if code == sys::TYPE_STRING {
        ValueType::String
    } else if code == sys::TYPE_GROUP {
        ValueType::Group
    } else if code == sys::TYPE_BUTTON {
        ValueType::Button
    } else {
        ValueType::Unknown
    }
}

impl ValueType {
    /// Whether values of this type fit in one protocol word.
    pub fn is_word_sized(&self) -> (r: bool)
        ensures
            r == (*self == ValueType::Bool || *self == ValueType::Int || *self == ValueType::Fixed),
    {
        match self {
            ValueType::Bool | ValueType::Int | ValueType::Fixed => true,
            _ => false,
        }
    }

    /// Whether options of this type carry a value.
    pub fn is_value(&self) -> (r: bool)
        ensures
            r == (*self == ValueType::Bool || *self == ValueType::Int || *self == ValueType::Fixed
                || *self == ValueType::String),
    {
        match self {
            ValueType::Bool | ValueType::Int | ValueType::Fixed | ValueType::String => true,
            _ => false,
        }
    }
}

impl From<sys::ValueType> for ValueType {
    fn from(value: sys::ValueType) -> (r: ValueType) {
        let code = value.0;
        if code == sys::TYPE_BOOL {
            ValueType::Bool
        } else if code == sys::TYPE_INT {
            ValueType::Int
        } else if code == sys::TYPE_FIXED {
            ValueType::Fixed
        } else if code == sys::TYPE_STRING {
            ValueType::String
        } else if code == sys::TYPE_GROUP {
            ValueType::Group
        } else if code == sys::TYPE_BUTTON {
            ValueType::Button
        } else {
            ValueType::Unknown
        }
    }
}

impl vstd::std_specs::convert::FromSpecImpl<sys::ValueType> for ValueType {
    open spec fn obeys_from_spec() -> bool {
        true
    }

    open spec fn from_spec(v: sys::ValueType) -> ValueType {
        value_type_of(v.0)
    }
}

/// An option value that borrows its string.
#[derive(Debug, Clone, Copy)]
pub enum Value<'a> {
    Bool(bool),
    Int(i32),
    Fixed(Fixed),
    String(&'a SaneString),
}

/// The word that a boolean, integer or fixed-point value is sent as.
pub open spec fn word_of_bool(v: bool) -> sys::Word {
    if v {
        sys::TRUE
    } else {
        sys::FALSE
    }
}

impl<'a> Value<'a> {
    pub fn type_of(&self) -> (r: ValueType)
        ensures
            r == (match *self {
                Value::Bool(_) => ValueType::Bool,
                Value::Int(_) => ValueType::Int,
                Value::Fixed(_) => ValueType::Fixed,
                Value::String(_) => ValueType::String,
            }),
    {
        match self {
            Value::Bool(_) => ValueType::Bool,
            Value::Int(_) => ValueType::Int,
            Value::Fixed(_) => ValueType::Fixed,
            Value::String(_) => ValueType::String,
        }
    }

    pub fn to_word(&self) -> (r: Option<sys::Word>)
        ensures
            r == (match *self {
                Value::Bool(v) => Some(word_of_bool(v)),
                Value::Int(v) => Some(v),
                Value::Fixed(v) => Some(v.spec_bits()),
                Value::String(_) => None,
            }),
    {
        match self {
            Value::Bool(v) => Some(sys_bool(*v)),
            Value::Int(v) => Some(*v),
            Value::Fixed(v) => Some(v.to_bits()),
            Value::String(_) => None,
        }
    }

    pub fn from_word(word: sys::Word, ty: ValueType) -> (r: Option<Self>)
        ensures
            ty == ValueType::Bool ==> (r matches Some(Value::Bool(b)) && b == (word != sys::FALSE)),
            ty == ValueType::Int ==> (r matches Some(Value::Int(i)) && i == word),
            ty == ValueType::Fixed ==> (r matches Some(Value::Fixed(f)) && f.spec_bits() == word),
            !(ty == ValueType::Bool || ty == ValueType::Int || ty == ValueType::Fixed) ==> r is None,
    {
        match ty {
            ValueType::Bool => Some(Value::Bool(word != sys::FALSE)),
            ValueType::Int => Some(Value::Int(word)),
            ValueType::Fixed => Some(Value::Fixed(Fixed::from_bits(word))),
            _ => None,
        }
    }
}

/// An option value that owns its string.
#[derive(Debug, Clone, PartialEq, Eq)]
pub enum OwnedValue {
    Bool(bool),
    Int(i32),
    Fixed(Fixed),
    String(SaneString),
}

impl OwnedValue {
    pub fn type_of(&self) -> (r: ValueType)
        ensures
            r == (match *self {
                OwnedValue::Bool(_) => ValueType::Bool,
                OwnedValue::Int(_) => ValueType::Int,
                OwnedValue::Fixed(_) => ValueType::Fixed,
                OwnedValue::String(_) => ValueType::String,
            }),
    {
        match self {
            OwnedValue::Bool(_) => ValueType::Bool,
            OwnedValue::Int(_) => ValueType::Int,
            OwnedValue::Fixed(_) => ValueType::Fixed,
            OwnedValue::String(_) => ValueType::String,
        }
    }

    pub fn as_ref(&self) -> (r: Value<'_>)
        ensures
            match *self {
                OwnedValue::Bool(v) => r == Value::Bool(v),
                OwnedValue::Int(v) => r == Value::Int(v),
                OwnedValue::Fixed(v) => r == Value::Fixed(v),
                OwnedValue::String(s) => r matches Value::String(t) && *t == s,
            },
    {
        match self {
            OwnedValue::Bool(v) => Value::Bool(*v),
            OwnedValue::Int(v) => Value::Int(*v),
            OwnedValue::Fixed(v) => Value::Fixed(*v),
            OwnedValue::String(s) => Value::String(s),
        }
    }

    pub fn to_word(&self) -> (r: Option<sys::Word>)
        ensures
            r == (match *self {
                OwnedValue::Bool(v) => Some(word_of_bool(v)),
                OwnedValue::Int(v) => Some(v),
                OwnedValue::Fixed(v) => Some(v.spec_bits()),
                OwnedValue::String(_) => None,
            }),
    {
        match self {
            OwnedValue::Bool(v) => Some(sys_bool(*v)),
            OwnedValue::Int(v) => Some(*v),
            OwnedValue::Fixed(v) => Some(v.to_bits()),
            OwnedValue::String(_) => None,
        }
    }

    pub fn from_word(word: sys::Word, ty: ValueType) -> (r: Option<Self>)
        ensures
            ty == ValueType::Bool ==> r == Some(OwnedValue::Bool(word != sys::FALSE)),
            ty == ValueType::Int ==> r == Some(OwnedValue::Int(word)),
            ty == ValueType::Fixed ==> (r matches Some(OwnedValue::Fixed(f)) && f.spec_bits()
                == word),
            !(ty == ValueType::Bool || ty == ValueType::Int || ty == ValueType::Fixed) ==> r is None,
    {
        match ty {
            ValueType::Bool => Some(OwnedValue::Bool(word != sys::FALSE)),
            ValueType::Int => Some(OwnedValue::Int(word)),
            ValueType::Fixed => Some(OwnedValue::Fixed(Fixed::from_bits(word))),
            _ => None,
        }
    }
}

} // verus!
