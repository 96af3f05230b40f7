use libsane::auth::{AuthError, AuthFieldError, Authorizer, InstanceFlag};
use libsane::device::{DeviceDescription, DeviceDescriptionIter};
use libsane::error::{status_result, Status};
use libsane::fixed::Fixed;
use libsane::frame_decoder::FrameDecodeError;
use libsane::options::{ConstraintData, DeviceOptionConstraint, Range, SaneStrListIter};
use libsane::string::SaneString;
use libsane::sys;
use libsane::value::{OwnedValue, Value, ValueType};
use libsane::version::{init_outcome, lib_version, Version};

#[test]
fn version_parts() {
    let v = Version::new(1, 2, 3);
    assert_eq!((v.major(), v.minor(), v.build()), (1, 2, 3));
    assert_eq!(v.code(), 0x0102_0003);
    let high = Version::new(0xfe, 0xdc, 0xba98);
    assert_eq!((high.major(), high.minor(), high.build()), (0xfe, 0xdc, 0xba98));
    assert_eq!(sys::version_code(0x1ff, 0x102, 0x1_0005), 0xff02_0005u32 as i32);
    assert_eq!(sys::version_major(-1), 0xff);
    assert_eq!(sys::version_minor(0x0a0b_0c0d), 0x0b);
    assert_eq!(sys::version_build(0x0a0b_0c0d), 0x0c0d);
    let lib = lib_version();
    assert_eq!((lib.major(), lib.minor(), lib.build()), (1, 0, 0));
}

#[test]
fn init_outcome_reports_version_or_error() {
    let v = init_outcome(sys::Status(sys::STATUS_GOOD), 0x0100_0004).unwrap();
    assert_eq!((v.major(), v.minor(), v.build()), (1, 0, 4));
    let e = init_outcome(sys::Status(sys::STATUS_NO_MEM), 7).unwrap_err();
    assert_eq!(e.status(), Status::NoMem);
}

#[test]
fn option_capability_predicates() {
    assert!(sys::option_is_active(0));
    assert!(!sys::option_is_active(sys::CAP_INACTIVE as i32 | 1));
    assert!(sys::option_is_settable(sys::CAP_SOFT_SELECT as i32));
    assert!(!sys::option_is_settable(sys::CAP_HARD_SELECT as i32));
}

#[test]
fn statuses_from_codes() {
    let all = [
        (sys::STATUS_UNSUPPORTED, Status::Unsupported),
        (sys::STATUS_CANCELLED, Status::Cancelled),
        (sys::STATUS_DEVICE_BUSY, Status::DeviceBusy),
        (sys::STATUS_INVAL, Status::Inval),
        (sys::STATUS_EOF, Status::Eof),
        (sys::STATUS_JAMMED, Status::Jammed),
        (sys::STATUS_NO_DOCS, Status::NoDocs),
        (sys::STATUS_COVER_OPEN, Status::CoverOpen),
        (sys::STATUS_IO_ERROR, Status::IoError),
        (sys::STATUS_NO_MEM, Status::NoMem),
        (sys::STATUS_ACCESS_DENIED, Status::AccessDenied),
        (42, Status::Unknown),
    ];
    for (code, status) in all {
        assert_eq!(Status::from_sys(sys::Status(code)), status);
        let e = status_result(sys::Status(code)).unwrap_err();
        assert_eq!(e.status(), status);
        assert_eq!(e.sys_status(), sys::Status(code));
    }
    assert!(status_result(sys::Status(sys::STATUS_GOOD)).is_ok());
    assert_eq!(Status::from(sys::Status(sys::STATUS_EOF)), Status::Eof);
}

#[test]
fn values_and_words() {
    assert_eq!(OwnedValue::from_word(0, ValueType::Bool), Some(OwnedValue::Bool(false)));
    assert_eq!(OwnedValue::from_word(5, ValueType::Bool), Some(OwnedValue::Bool(true)));
    assert_eq!(OwnedValue::from_word(-3, ValueType::Int), Some(OwnedValue::Int(-3)));
    assert_eq!(
        OwnedValue::from_word(0x18000, ValueType::Fixed),
        Some(OwnedValue::Fixed(Fixed::from_bits(0x18000)))
    );
    assert_eq!(OwnedValue::from_word(1, ValueType::String), None);
    assert_eq!(OwnedValue::Bool(true).to_word(), Some(sys::TRUE));
    assert_eq!(OwnedValue::Int(9).to_word(), Some(9));
    assert_eq!(OwnedValue::Fixed(Fixed::from_bits(-7)).to_word(), Some(-7));
    let s = OwnedValue::String(SaneString::with_capacity(4));
    assert_eq!(s.to_word(), None);
    assert_eq!(s.type_of(), ValueType::String);
    assert!(matches!(s.as_ref(), Value::String(_)));
    assert_eq!(Value::Int(3).to_word(), Some(3));
    assert_eq!(Value::Bool(false).type_of(), ValueType::Bool);
    assert!(matches!(Value::from_word(2, ValueType::Fixed), Some(Value::Fixed(f)) if f.to_bits() == 2));
    assert!(ValueType::Fixed.is_word_sized());
    assert!(!ValueType::String.is_word_sized());
    assert!(ValueType::String.is_value());
    assert!(!ValueType::Button.is_value());
    assert_eq!(ValueType::from(sys::ValueType(sys::TYPE_GROUP)), ValueType::Group);
    assert_eq!(ValueType::from(sys::ValueType(77)), ValueType::Unknown);
}

#[test]
fn sane_string_contents() {
    let mut s = SaneString::with_capacity(8);
    assert_eq!(s.capacity(), 8);
    assert_eq!(s.count_bytes(), 0);
    let v = SaneString::from_bytes_with_nul(&[b'a', 0xe9, b'c', 0, b'x']);
    assert_eq!(v.count_bytes(), 3);
    assert_eq!(v.count_bytes_with_nul(), 4);
    assert_eq!(v.to_bytes(), &[b'a', 0xe9, b'c']);
    assert_eq!(v.to_bytes_with_nul(), &[b'a', 0xe9, b'c', 0]);
    assert_eq!(v.chars(), vec!['a', 'é', 'c']);
    assert_eq!(v.bytes(), vec![b'a', 0xe9, b'c']);
    s.set_contents(&v);
    assert_eq!(s.to_bytes(), &[b'a', 0xe9, b'c']);
    assert_eq!(s.capacity(), 8);
    assert!(s == v);
    assert!(s != SaneString::from_bytes_with_nul(&[b'a', 0]));
}

#[test]
fn credentials_are_written_as_latin1() {
    let mut a = Authorizer::new();
    assert_eq!(a.max_username_len(), sys::MAX_USERNAME_LEN - 1);
    assert_eq!(a.max_password_len(), sys::MAX_PASSWORD_LEN - 1);
    assert!(a.provide_credentials("jürgen", "pw").is_ok());
    assert_eq!(&a.username_field()[..7], &[b'j', 0xfc, b'r', b'g', b'e', b'n', 0]);
    assert_eq!(&a.password_field()[..3], &[b'p', b'w', 0]);
}

#[test]
fn credential_errors() {
    let mut a = Authorizer::new();
    assert!(matches!(
        a.provide_credentials("user€", "pw"),
        Err(AuthError::Username(AuthFieldError::NotLatin1))
    ));
    let long = "x".repeat(sys::MAX_PASSWORD_LEN);
    assert!(matches!(
        a.provide_credentials("user", &long),
        Err(AuthError::Password(AuthFieldError::TooLong))
    ));
    let fits = "y".repeat(sys::MAX_USERNAME_LEN - 1);
    assert!(a.provide_credentials(&fits, "").is_ok());
    let name = SaneString::from_bytes_with_nul(&[b'u', 0]);
    let pass = SaneString::from_bytes_with_nul(&[b'p', b'q', 0]);
    assert!(a.provide_credentials_latin1(&name, &pass).is_ok());
    assert_eq!(&a.password_field()[..3], &[b'p', b'q', 0]);
    let mut bytes = vec![b'z'; sys::MAX_USERNAME_LEN];
    bytes.push(0);
    let too_long = SaneString::from_bytes_with_nul(&bytes);
    assert!(matches!(
        a.provide_credentials_latin1(&too_long, &pass),
        Err(AuthError::Username(AuthFieldError::TooLong))
    ));
}

#[test]
fn second_session_is_refused_while_first_lives() {
    let mut flag = InstanceFlag::new();
    assert!(flag.try_claim());
    assert!(!flag.try_claim());
    assert!(flag.is_held());
    flag.release();
    assert!(flag.try_claim());
}

fn device(name: &str, vendor: &str) -> sys::Device {
    let z = |s: &str| {
        let mut v = s.as_bytes().to_vec();
        v.push(0);
        v
    };
    sys::Device { name: z(name), vendor: z(vendor), model: z("m1"), type_: z("flatbed scanner") }
}

#[test]
fn device_descriptions() {
    let d = DeviceDescription::from_sys(&device("pixma:04A9", "Canon"));
    assert_eq!(d.name(), b"pixma:04A9\0");
    assert_eq!(d.vendor(), b"Canon\0");
    assert_eq!(d.model(), b"m1\0");
    assert_eq!(d.type_(), b"flatbed scanner\0");

    let mut it = DeviceDescriptionIter::new(vec![device("a", "V1"), device("b", "V2")]);
    assert_eq!(it.len(), 2);
    let mut into = DeviceDescription::empty();
    assert!(it.next_into(&mut into));
    assert_eq!(into.name(), b"a\0");
    assert!(it.next_into(&mut into));
    assert_eq!(into.vendor(), b"V2\0");
    assert!(!it.next_into(&mut into));
    assert_eq!(into.name(), b"b\0");
    assert!(it.is_empty());

    let all = DeviceDescriptionIter::new(vec![device("a", "V1"), device("b", "V2")]).to_vec();
    assert_eq!(all.len(), 2);
    assert_eq!(all[1].name(), b"b\0");
    let boxed = DeviceDescriptionIter::new(vec![device("c", "V3")]).to_boxed_slice();
    assert_eq!(boxed.len(), 1);
    assert_eq!(boxed[0].vendor(), b"V3\0");
}

#[test]
fn option_constraints() {
    let int = sys::ValueType(sys::TYPE_INT);
    let fixed = sys::ValueType(sys::TYPE_FIXED);
    let text = sys::ValueType(sys::TYPE_STRING);
    let range = Range { min: 1, max: 10, quant: 2 };
    assert!(DeviceOptionConstraint::decode(int, ConstraintData::Unconstrained).is_none());
    assert!(matches!(
        DeviceOptionConstraint::decode(int, ConstraintData::Range(range)),
        Some(DeviceOptionConstraint::RangeInt { min: 1, max: 10, quant: 2 })
    ));
    assert!(matches!(
        DeviceOptionConstraint::decode(fixed, ConstraintData::Range(range)),
        Some(DeviceOptionConstraint::RangeFixed { min, max, .. })
            if min == Fixed::from_bits(1) && max == Fixed::from_bits(10)
    ));
    assert!(matches!(
        DeviceOptionConstraint::decode(text, ConstraintData::Range(range)),
        Some(DeviceOptionConstraint::Unsupported { contraint_type, .. })
            if contraint_type == sys::ConstraintType(sys::CONSTRAINT_RANGE)
    ));
    match DeviceOptionConstraint::decode(fixed, ConstraintData::WordList(vec![65536, 3])) {
        Some(DeviceOptionConstraint::ListFixed(l)) => {
            assert_eq!(l, vec![Fixed::from_bits(65536), Fixed::from_bits(3)])
        }
        _ => panic!("expected a fixed-point list"),
    }
    match DeviceOptionConstraint::decode(int, ConstraintData::WordList(vec![75, 150])) {
        Some(DeviceOptionConstraint::ListInt(l)) => assert_eq!(l, vec![75, 150]),
        _ => panic!("expected an integer list"),
    }
    let list = SaneStrListIter::new(vec![SaneString::from_bytes_with_nul(b"Color\0")]);
    match DeviceOptionConstraint::decode(text, ConstraintData::StringList(list)) {
        Some(DeviceOptionConstraint::ListString(l)) => {
            assert_eq!(l.count_items(), 1);
            assert_eq!(l.get(0).unwrap().to_bytes(), b"Color");
            assert!(l.get(1).is_none());
        }
        _ => panic!("expected a string list"),
    }
    assert!(matches!(
        DeviceOptionConstraint::decode(int, ConstraintData::Other(sys::ConstraintType(9))),
        Some(DeviceOptionConstraint::Unsupported { contraint_type, .. })
            if contraint_type == sys::ConstraintType(9)
    ));
    assert_eq!(SaneStrListIter::default().count_items(), 0);
}

#[test]
fn fixed_arithmetic() {
    let a = Fixed::from_bits(0x0001_8000);
    let b = Fixed::from_bits(0x0000_4000);
    assert_eq!((a + b).to_bits(), 0x0001_c000);
    assert_eq!((a - b).to_bits(), 0x0001_4000);
    assert_eq!((b - a).to_bits(), -0x0001_4000);
}

#[test]
fn error_messages() {
    assert_eq!(FrameDecodeError::AlreadyDone.message(), "already received all frames");
    assert_eq!(FrameDecodeError::InvalidParameters.message(), "frame parameters are invalid");
    assert_eq!(AuthFieldError::TooLong.message(), "field is too long");
    assert_eq!(AuthFieldError::NotLatin1.message(), "field contains non-Latin1 characters");
}
