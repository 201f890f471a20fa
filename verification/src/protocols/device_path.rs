//! Device Path Protocol
//!
//! Defines how to obtain generic path and location information concerning a
//! physical or logical device.

use vstd::prelude::*;
use crate::base::{Guid, guid_encode};

verus! {

/// Identifier attached to the device path of a loaded image.
pub fn loaded_image_device_path_id() -> (g: Guid)
    ensures
        g@ == guid_encode(
            0xbc62157e,
            0x3e33,
            0x4fec,
            0x99,
            0x20,
            seq![0x2du8, 0x3b, 0x36, 0xd7, 0x50, 0xdf],
        ),
{
    let node: [u8; 6] = [0x2d, 0x3b, 0x36, 0xd7, 0x50, 0xdf];
    let g = Guid::from_native(0xbc62157e, 0x3e33, 0x4fec, 0x99, 0x20, &node);
    proof {
        assert(node@ =~= seq![0x2du8, 0x3b, 0x36, 0xd7, 0x50, 0xdf]);
    }
    g
}

/// Identifier of this protocol in the firmware's protocol database.
pub fn device_path_id() -> (g: Guid)
    ensures
        g@ == guid_encode(
            0x09576e91,
            0x6d3f,
            0x11d2,
            0x8e,
            0x39,
            seq![0x00u8, 0xa0, 0xc9, 0x69, 0x72, 0x3b],
        ),
{
    let node: [u8; 6] = [0x00, 0xa0, 0xc9, 0x69, 0x72, 0x3b];
    let g = Guid::from_native(0x09576e91, 0x6d3f, 0x11d2, 0x8e, 0x39, &node);
    proof {
        assert(node@ =~= seq![0x00u8, 0xa0, 0xc9, 0x69, 0x72, 0x3b]);
    }
    g
}

pub const TYPE_HARDWARE_DEVICE_PATH: u8 = 0x01;

pub const TYPE_ACPI_DEVICE_PATH: u8 = 0x02;

pub const TYPE_MESSAGING_DEVICE_PATH: u8 = 0x03;

pub const TYPE_MEDIA_DEVICE_PATH: u8 = 0x04;

pub const TYPE_BIOS_DEVICE_PATH: u8 = 0x05;

pub const TYPE_END: u8 = 0x7f;

// Node subtypes of the hardware device path type.
pub const HARDWARE_SUBTYPE_PCI: u8 = 0x01;

pub const HARDWARE_SUBTYPE_PCCARD: u8 = 0x02;

pub const HARDWARE_SUBTYPE_MMAP: u8 = 0x03;

pub const HARDWARE_SUBTYPE_VENDOR: u8 = 0x04;

pub const HARDWARE_SUBTYPE_CONTROLLER: u8 = 0x05;

pub const HARDWARE_SUBTYPE_BMC: u8 = 0x06;

// Node subtypes of the ACPI device path type.
pub const ACPI_SUBTYPE_ACPI: u8 = 0x01;

pub const ACPI_SUBTYPE_EXPANDED_ACPI: u8 = 0x02;

pub const ACPI_SUBTYPE_ADR: u8 = 0x03;

// Node subtypes of the messaging device path type.
pub const MESSAGING_SUBTYPE_ATAPI: u8 = 0x01;

pub const MESSAGING_SUBTYPE_SCSI: u8 = 0x02;

pub const MESSAGING_SUBTYPE_FIBRECHANNEL: u8 = 0x03;

pub const MESSAGING_SUBTYPE_FIBRECHANNEL_EX: u8 = 0x15;

pub const MESSAGING_SUBTYPE_1394: u8 = 0x04;

pub const MESSAGING_SUBTYPE_USB: u8 = 0x05;

pub const MESSAGING_SUBTYPE_SATA: u8 = 0x12;

pub const MESSAGING_SUBTYPE_WWID: u8 = 0x10;

pub const MESSAGING_SUBTYPE_LOGICAL_UNIT: u8 = 0x11;

pub const MESSAGING_SUBTYPE_USB_CLASS: u8 = 0x0f;

pub const MESSAGING_SUBTYPE_I2O: u8 = 0x06;

pub const MESSAGING_SUBTYPE_MAC: u8 = 0x0b;

pub const MESSAGING_SUBTYPE_IPV4: u8 = 0x0c;

pub const MESSAGING_SUBTYPE_IPV6: u8 = 0x0d;

pub const MESSAGING_SUBTYPE_VLAN: u8 = 0x14;

pub const MESSAGING_SUBTYPE_INFINIBAND: u8 = 0x09;

pub const MESSAGING_SUBTYPE_UART: u8 = 0x0e;

pub const MESSAGING_SUBTYPE_VENDOR: u8 = 0x0a;

pub const MESSAGING_SUBTYPE_SAS: u8 = 0x16;

pub const MESSAGING_SUBTYPE_ISCSI: u8 = 0x13;

pub const MESSAGING_SUBTYPE_NVM: u8 = 0x17;

pub const MESSAGING_SUBTYPE_URI: u8 = 0x18;

pub const MESSAGING_SUBTYPE_UFS: u8 = 0x19;

pub const MESSAGING_SUBTYPE_SD: u8 = 0x1a;

pub const MESSAGING_SUBTYPE_BLUETOOTH: u8 = 0x1b;

pub const MESSAGING_SUBTYPE_WIRELESS: u8 = 0x1c;

pub const MESSAGING_SUBTYPE_EMMC: u8 = 0x1d;

pub const MESSAGING_SUBTYPE_BLUETOOTH_LE: u8 = 0x1e;

pub const MESSAGING_SUBTYPE_DNS: u8 = 0x1f;

// Node subtypes of the media device path type.
pub const MEDIA_SUBTYPE_HDD: u8 = 0x01;

pub const MEDIA_SUBTYPE_CD: u8 = 0x02;

pub const MEDIA_SUBTYPE_VENDOR: u8 = 0x03;

pub const MEDIA_SUBTYPE_FILE: u8 = 0x04;

pub const MEDIA_SUBTYPE_MEDIA: u8 = 0x05;

pub const MEDIA_SUBTYPE_PIWG_FILE: u8 = 0x06;

pub const MEDIA_SUBTYPE_PIWG_VOLUME: u8 = 0x07;

pub const MEDIA_SUBTYPE_OFFSET: u8 = 0x08;

pub const MEDIA_SUBTYPE_RAMDISK: u8 = 0x09;

// Node subtypes of the BIOS boot specification device path type.
pub const BIOS_SUBTYPE_BIOS: u8 = 0x01;

// Node subtypes of the end-of-path marker type.
pub const END_SUBTYPE_ENTIRE_PATH: u8 = 0xff;

pub const END_SUBTYPE_THIS_INSTANCE: u8 = 0x01;

/// Header of one device path node: its type, subtype, and total length in
/// bytes as a little-endian pair; the node's own data follows the header in
/// the underlying buffer.
pub struct Protocol {
    pub path_type: u8,
    pub path_subtype: u8,
    pub length: [u8; 2],
}

} // verus!
