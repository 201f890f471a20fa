//! Classification checks of the status-code type.

use r_efi::base::Status;

#[test]
fn status_zero_is_success() {
    let s = Status::from_usize(0);
    assert!(s.is_success());
    assert!(!s.is_error());
    assert!(!s.is_warning());
    assert_eq!(s.value(), 0);
    assert_eq!(Status::SUCCESS, 0);
}

#[test]
fn status_error_class() {
    // The error flag is the highest bit of the machine word; the bit below
    // it stays clear in every defined error code.
    let error_bit: usize = !(usize::MAX >> 1);
    let s = Status::from_usize(error_bit);
    assert!(s.is_error());
    assert!(!s.is_warning());
    assert!(!s.is_success());

    let s = Status::from_usize(error_bit | 5);
    assert!(s.is_error());
    assert!(!s.is_warning());

    let s = Status::from_usize(Status::LOAD_ERROR);
    assert!(s.is_error());
    assert_eq!(s.value(), 1 | error_bit);
    assert_eq!(Status::HTTP_ERROR, 35 | error_bit);
}

#[test]
fn status_warning_class() {
    let s = Status::from_usize(0x00000005);
    assert!(!s.is_error());
    assert!(s.is_warning());
    assert!(!s.is_success());

    let s = Status::from_usize(Status::WARN_UNKNOWN_GLYPH);
    assert!(s.is_warning());
    assert_eq!(s.value(), 1);
    assert_eq!(Status::WARN_RESET_REQUIRED, 7);
}

#[test]
fn status_reserved_class() {
    // Both high bits set is a reserved pattern: neither an error nor a
    // warning, and not success either.
    let both_bits: usize = !(usize::MAX >> 2);
    let s = Status::from_usize(both_bits);
    assert!(!s.is_error());
    assert!(!s.is_warning());
    assert!(!s.is_success());
}

#[test]
fn status_masks_match_documented_values() {
    // The class masks are the documented byte patterns shifted into the top
    // byte of the machine word, whatever its width.
    let width = usize::BITS as usize;
    assert_eq!(Status::MASK, 0xc0usize << (width - 8));
    assert_eq!(Status::ERROR_MASK, 0x80usize << (width - 8));
    assert_eq!(Status::WARNING_MASK, 0x00usize << (width - 8));
}

#[test]
fn status_value_round_trip() {
    let v: usize = 0x1234_5678;
    assert_eq!(Status::from_usize(v).value(), v);
}
