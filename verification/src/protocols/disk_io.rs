//! Disk I/O Protocol
//!
//! Abstracts the block accesses of the Block I/O protocol to a more general
//! offset-length interface. Firmware is responsible for adding this protocol
//! to any Block I/O interface in the system that does not already have one.

use vstd::prelude::*;
use crate::base::{Guid, ServiceRoutine, guid_encode};

verus! {

/// Identifier of this protocol in the firmware's protocol database.
pub fn protocol_guid() -> (g: Guid)
    ensures
        g@ == guid_encode(
            0xce345171,
            0xba0b,
            0x11d2,
            0x8e,
            0x4f,
            seq![0x00u8, 0xa0, 0xc9, 0x69, 0x72, 0x3b],
        ),
{
    let node: [u8; 6] = [0x00, 0xa0, 0xc9, 0x69, 0x72, 0x3b];
    let g = Guid::from_native(0xce345171, 0xba0b, 0x11d2, 0x8e, 0x4f, &node);
    proof {
        assert(node@ =~= seq![0x00u8, 0xa0, 0xc9, 0x69, 0x72, 0x3b]);
    }
    g
}

pub const REVISION: u64 = 0x0000000000010000u64;

pub type ReadDiskSignature = ServiceRoutine;

pub type WriteDiskSignature = ServiceRoutine;

/// Routine table of the protocol, as the firmware lays it out.
pub struct Protocol {
    pub revision: u64,
    pub read_disk: ReadDiskSignature,
    pub write_disk: WriteDiskSignature,
}

} // verus!
