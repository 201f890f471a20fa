//! Encoding checks of the identifier type.

use r_efi::base::Guid;

#[test]
fn guid_native_encoding() {
    // The native constructor big-endian encodes each multi-byte field and
    // stores the single bytes and the node verbatim.
    let g = Guid::from_native(
        0x01020304,
        0x0506,
        0x0708,
        0x09,
        0x0a,
        &[0x0b, 0x0c, 0x0d, 0x0e, 0x0f, 0x10],
    );
    assert_eq!(
        g.as_bytes(),
        [
            0x01, 0x02, 0x03, 0x04, 0x05, 0x06, 0x07, 0x08, 0x09, 0x0a, 0x0b, 0x0c, 0x0d, 0x0e,
            0x0f, 0x10,
        ],
    );
}

#[test]
fn guid_spec_encoding() {
    // The document-literal constructor swaps each multi-byte field first,
    // so handing it the pre-swapped literals yields the same bytes as the
    // native constructor on the plain fields.
    let g = Guid::from_spec(
        0x04030201,
        0x0605,
        0x0807,
        0x09,
        0x0a,
        &[0x0b, 0x0c, 0x0d, 0x0e, 0x0f, 0x10],
    );
    assert_eq!(
        g.as_bytes(),
        [
            0x01, 0x02, 0x03, 0x04, 0x05, 0x06, 0x07, 0x08, 0x09, 0x0a, 0x0b, 0x0c, 0x0d, 0x0e,
            0x0f, 0x10,
        ],
    );
}

#[test]
fn guid_cross_convention_equality() {
    // Byte-for-byte equality of the two construction paths on the same
    // identifier, for several field values.
    let cases: [(u32, u16, u16, u8, u8, [u8; 6]); 3] = [
        (
            0x964e5b21,
            0x6459,
            0x11d2,
            0x8e,
            0x39,
            [0x00, 0xa0, 0xc9, 0x69, 0x72, 0x3b],
        ),
        (0, 0, 0, 0, 0, [0; 6]),
        (
            0xffffffff,
            0xffff,
            0xffff,
            0xff,
            0xff,
            [0xff, 0xff, 0xff, 0xff, 0xff, 0xff],
        ),
    ];
    for (tl, tm, thv, csh, csl, node) in cases {
        let native = Guid::from_native(tl, tm, thv, csh, csl, &node);
        let spec = Guid::from_spec(
            tl.swap_bytes(),
            tm.swap_bytes(),
            thv.swap_bytes(),
            csh,
            csl,
            &node,
        );
        assert_eq!(native, spec);
        assert_eq!(native.as_bytes(), spec.as_bytes());
    }
}

#[test]
fn protocol_identifiers() {
    // Spot checks: the well-known protocol identifiers encode to their
    // canonical byte sequences.
    let g = r_efi::protocols::block_io::protocol_guid();
    assert_eq!(
        g.as_bytes(),
        [
            0x96, 0x4e, 0x5b, 0x21, 0x64, 0x59, 0x11, 0xd2, 0x8e, 0x39, 0x00, 0xa0, 0xc9, 0x69,
            0x72, 0x3b,
        ],
    );

    let g = r_efi::system::capsule_report_guid();
    assert_eq!(
        g.as_bytes(),
        [
            0x39, 0xb6, 0x8c, 0x46, 0xf7, 0xfb, 0x44, 0x1b, 0xb6, 0xec, 0x16, 0xb0, 0xf6, 0x98,
            0x21, 0xf3,
        ],
    );

    // The TCPv6 service-binding identifier is shared by the two modules
    // that name it.
    assert_eq!(
        r_efi::protocols::tcp6::service_binding_protocol_guid(),
        r_efi::protocols::tcp6_service_binding::protocol_guid(),
    );
}
