//! Raw protocol values as the native scanner library defines them.
use vstd::prelude::*;

verus! {

/// Integer type of the protocol.
pub type Int = i32;

/// Word type of the protocol (integers, booleans and fixed-point values).
pub type Word = i32;

/// Fixed-point type of the protocol (Q15.16).
pub type FixedBits = i32;

/// Boolean type of the protocol.
pub type Bool = i32;

pub const FALSE: Bool = 0;

pub const TRUE: Bool = 1;

pub const FIXED_SCALE_SHIFT: u32 = 16;

pub const CURRENT_MAJOR: u32 = 1;

pub const CURRENT_MINOR: u32 = 0;

pub const MAX_USERNAME_LEN: usize = 128;

pub const MAX_PASSWORD_LEN: usize = 128;

pub const CAP_SOFT_SELECT: u32 = 1;

pub const CAP_HARD_SELECT: u32 = 2;

pub const CAP_SOFT_DETECT: u32 = 4;

pub const CAP_EMULATED: u32 = 8;

pub const CAP_AUTOMATIC: u32 = 16;

pub const CAP_INACTIVE: u32 = 32;

pub const CAP_ADVANCED: u32 = 64;

pub const INFO_INEXACT: u32 = 1;

pub const INFO_RELOAD_OPTIONS: u32 = 2;

pub const INFO_RELOAD_PARAMS: u32 = 4;

pub const STATUS_GOOD: u32 = 0;

pub const STATUS_UNSUPPORTED: u32 = 1;

pub const STATUS_CANCELLED: u32 = 2;

pub const STATUS_DEVICE_BUSY: u32 = 3;

pub const STATUS_INVAL: u32 = 4;

pub const STATUS_EOF: u32 = 5;

pub const STATUS_JAMMED: u32 = 6;

pub const STATUS_NO_DOCS: u32 = 7;

pub const STATUS_COVER_OPEN: u32 = 8;

pub const STATUS_IO_ERROR: u32 = 9;

pub const STATUS_NO_MEM: u32 = 10;

pub const STATUS_ACCESS_DENIED: u32 = 11;

pub const FRAME_GRAY: u32 = 0;

pub const FRAME_RGB: u32 = 1;

pub const FRAME_RED: u32 = 2;

pub const FRAME_GREEN: u32 = 3;

pub const FRAME_BLUE: u32 = 4;

pub const TYPE_BOOL: u32 = 0;

pub const TYPE_INT: u32 = 1;

pub const TYPE_FIXED: u32 = 2;

pub const TYPE_STRING: u32 = 3;

pub const TYPE_BUTTON: u32 = 4;

pub const TYPE_GROUP: u32 = 5;

pub const CONSTRAINT_NONE: u32 = 0;

pub const CONSTRAINT_RANGE: u32 = 1;

pub const CONSTRAINT_WORD_LIST: u32 = 2;

pub const CONSTRAINT_STRING_LIST: u32 = 3;

/// Status code returned by every fallible call of the native library.
#[derive(Clone, Copy, Debug, PartialEq, Eq, Structural)]
pub struct Status(pub u32);

/// Frame format code of a scan frame.
#[derive(Clone, Copy, Debug, PartialEq, Eq, Structural)]
pub struct Frame(pub u32);

/// Value type code of an option.
#[derive(Clone, Copy, Debug, PartialEq, Eq, Structural)]
pub struct ValueType(pub u32);

/// Constraint type code of an option.
#[derive(Clone, Copy, Debug, PartialEq, Eq, Structural)]
pub struct ConstraintType(pub u32);

/// Physical unit code of an option.
#[derive(Clone, Copy, Debug, PartialEq, Eq, Structural)]
pub struct Unit(pub u32);

/// Frame parameters as the native library reports them.
#[derive(Clone, Copy, Debug, PartialEq, Eq, Structural)]
pub struct Parameters {
    pub format: Frame,
    pub last_frame: Bool,
    pub bytes_per_line: Int,
    pub pixels_per_line: Int,
    pub lines: Int,
    pub depth: Int,
}

/// A device record as the native library lists it: name, vendor, model and type,
/// each a Latin-1 string with its NUL.
#[derive(Clone, Debug)]
pub struct Device {
    pub name: Vec<u8>,
    pub vendor: Vec<u8>,
    pub model: Vec<u8>,
    pub type_: Vec<u8>,
}

/// The 32 bits of a word, read as an unsigned number.
pub open spec fn word_bits(w: Word) -> u32 {
    #[verifier::truncate]
    (w as u32)
}

/// The version code `major << 24 | minor << 16 | build` of the low bits of each part.
pub fn version_code(major: Word, minor: Word, build: Word) -> (r: Word)
    ensures
        word_bits(r) == word_bits(major) % 0x100 * 0x100_0000 + word_bits(minor) % 0x100
            * 0x1_0000 + word_bits(build) % 0x1_0000,
{
    let r = ((major & 0xff) << 24u32) | ((minor & 0xff) << 16u32) | (build & 0xffff);
    assert(word_bits(r) == word_bits(major) % 0x100 * 0x100_0000 + word_bits(minor) % 0x100
        * 0x1_0000 + word_bits(build) % 0x1_0000) by (bit_vector)
        requires
            r == ((major & 0xff) << 24u32) | ((minor & 0xff) << 16u32) | (build & 0xffff),
    ;
    r
}

/// The major part (top byte) of a version code.
pub fn version_major(code: Word) -> (r: u8)
    ensures
        r == (word_bits(code) / 0x100_0000) as u8,
{
    let r = (code >> 24u32) as u8;
    assert(r == (word_bits(code) / 0x100_0000) as u8) by (bit_vector)
        requires
            r == (code >> 24u32) as u8,
    ;
    r
}

/// The minor part (second byte) of a version code.
pub fn version_minor(code: Word) -> (r: u8)
    ensures
        r == (word_bits(code) / 0x1_0000 % 0x100) as u8,
{
    let r = (code >> 16u32) as u8;
    assert(r == (word_bits(code) / 0x1_0000 % 0x100) as u8) by (bit_vector)
        requires
            r == (code >> 16u32) as u8,
    ;
    r
}

/// The build part (low two bytes) of a version code.
pub fn version_build(code: Word) -> (r: u16)
    ensures
        r == (word_bits(code) % 0x1_0000) as u16,
{
    let r = code as u16;
    assert(r == (word_bits(code) % 0x1_0000) as u16) by (bit_vector)
        requires
            r == code as u16,
    ;
    r
}

/// Whether an option with capability bits `cap` is active.
pub fn option_is_active(cap: Int) -> (r: bool)
    ensures
        r == (cap & (CAP_INACTIVE as Int) == 0),
{
    (cap & CAP_INACTIVE as Int) == 0
}

/// Whether an option with capability bits `cap` can be set by software.
pub fn option_is_settable(cap: Int) -> (r: bool)
    ensures
        r == (cap & (CAP_SOFT_SELECT as Int) != 0),
{
    (cap & CAP_SOFT_SELECT as Int) != 0
}

} // verus!
