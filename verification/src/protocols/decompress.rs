//! Decompress Protocol
//!
//! Provides a decompression service that allows a compressed source buffer
//! in memory to be decompressed into a destination buffer in memory.

use vstd::prelude::*;
use crate::base::{Guid, ServiceRoutine, guid_encode};

verus! {

/// Identifier of this protocol in the firmware's protocol database.
pub fn protocol_guid() -> (g: Guid)
    ensures
        g@ == guid_encode(
            0xd8117cfe,
            0x94a6,
            0x11d4,
            0x9a,
            0x3a,
            seq![0x00u8, 0x90, 0x27, 0x3f, 0xc1, 0x4d],
        ),
{
    let node: [u8; 6] = [0x00, 0x90, 0x27, 0x3f, 0xc1, 0x4d];
    let g = Guid::from_native(0xd8117cfe, 0x94a6, 0x11d4, 0x9a, 0x3a, &node);
    proof {
        assert(node@ =~= seq![0x00u8, 0x90, 0x27, 0x3f, 0xc1, 0x4d]);
    }
    g
}

pub type GetInfoSignature = ServiceRoutine;

pub type DecompressSignature = ServiceRoutine;

/// Routine table of the protocol, as the firmware lays it out.
pub struct Protocol {
    pub get_info: GetInfoSignature,
    pub decompress: DecompressSignature,
}

} // verus!
