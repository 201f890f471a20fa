//! Layout and conversion checks of the base types.

use std::mem::{align_of, size_of};

use r_efi::base::{
    Boolean, Char16, Char8, Event, Guid, Handle, ImageEntryPoint, Lba, PhysicalAddress, Status,
    Tpl, TryFromCharError, VirtualAddress,
};

#[test]
fn types() {
    //
    // Booleans
    //

    assert_eq!(size_of::<Boolean>(), 1);
    assert_eq!(align_of::<Boolean>(), 1);
    assert_eq!(Boolean::False, false);
    assert_eq!(Boolean::True, true);
    assert_ne!(Boolean::False, Boolean::True);

    //
    // Char8 / Char16
    //

    assert_eq!(size_of::<Char8>(), 1);
    assert_eq!(align_of::<Char8>(), 1);
    assert_eq!(size_of::<Char16>(), 2);
    assert_eq!(align_of::<Char16>(), 2);

    assert_eq!(size_of::<Char8>(), size_of::<u8>());
    assert_eq!(align_of::<Char8>(), align_of::<u8>());
    assert_eq!(size_of::<Char16>(), size_of::<u16>());
    assert_eq!(align_of::<Char16>(), align_of::<u16>());

    //
    // Status
    //

    assert_eq!(size_of::<Status>(), size_of::<usize>());
    assert_eq!(align_of::<Status>(), align_of::<usize>());

    //
    // Handles / Events
    //

    assert_eq!(size_of::<Handle>(), size_of::<usize>());
    assert_eq!(align_of::<Handle>(), align_of::<usize>());
    assert_eq!(size_of::<Event>(), size_of::<usize>());
    assert_eq!(align_of::<Event>(), align_of::<usize>());

    //
    // Lba / Tpl
    //

    assert_eq!(size_of::<Lba>(), size_of::<u64>());
    assert_eq!(align_of::<Lba>(), align_of::<u64>());
    assert_eq!(size_of::<Tpl>(), size_of::<usize>());
    assert_eq!(align_of::<Tpl>(), align_of::<usize>());

    //
    // PhysicalAddress / VirtualAddress
    //

    assert_eq!(size_of::<PhysicalAddress>(), size_of::<u64>());
    assert_eq!(align_of::<PhysicalAddress>(), align_of::<u64>());
    assert_eq!(size_of::<VirtualAddress>(), size_of::<u64>());
    assert_eq!(align_of::<VirtualAddress>(), align_of::<u64>());

    //
    // ImageEntryPoint
    //

    assert_eq!(size_of::<ImageEntryPoint>(), size_of::<usize>());
    assert_eq!(align_of::<ImageEntryPoint>(), align_of::<usize>());

    //
    // Guid
    //

    assert_eq!(size_of::<Guid>(), 16);
    assert_eq!(align_of::<Guid>(), 8);
}

#[test]
fn boolean_conversions() {
    assert_eq!(bool::from(Boolean::False), false);
    assert_eq!(bool::from(Boolean::True), true);
    assert_eq!(Boolean::from(false), Boolean::False);
    assert_eq!(Boolean::from(true), Boolean::True);
    assert_eq!(Boolean::from(true), true);
}

#[test]
fn char8_conversion() {
    let a = Char8::try_from('A').unwrap();
    assert_eq!(a.value(), 0x41);
    let y = Char8::try_from('\u{ff}').unwrap();
    assert_eq!(y.value(), 0xff);
    assert!(matches!(
        Char8::try_from('\u{100}'),
        Err(TryFromCharError::OutOfRange)
    ));
}

#[test]
fn char16_conversion() {
    let a = Char16::try_from('A').unwrap();
    assert_eq!(a.value(), 0x41);
    let bmp = Char16::try_from('\u{d7ff}').unwrap();
    assert_eq!(bmp.value(), 0xd7ff);
    assert!(matches!(
        Char16::try_from('\u{e000}'),
        Err(TryFromCharError::Private)
    ));
    assert!(matches!(
        Char16::try_from('\u{f8ff}'),
        Err(TryFromCharError::Private)
    ));
    let cjk = Char16::try_from('\u{f900}').unwrap();
    assert_eq!(cjk.value(), 0xf900);
    let last = Char16::try_from('\u{ffff}').unwrap();
    assert_eq!(last.value(), 0xffff);
    assert!(matches!(
        Char16::try_from('\u{10000}'),
        Err(TryFromCharError::OutOfRange)
    ));
}
