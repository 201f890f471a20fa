//! Device Path to Text Protocol
//!
//! Converts device nodes and paths to text.

use vstd::prelude::*;
use crate::base::{Guid, ServiceRoutine, guid_encode};

verus! {

/// Identifier of this protocol in the firmware's protocol database.
pub fn protocol_guid() -> (g: Guid)
    ensures
        g@ == guid_encode(
            0x8b843e20,
            0x8132,
            0x4852,
            0x90,
            0xcc,
            seq![0x55u8, 0x1a, 0x4e, 0x4a, 0x7f, 0x1c],
        ),
{
    let node: [u8; 6] = [0x55, 0x1a, 0x4e, 0x4a, 0x7f, 0x1c];
    let g = Guid::from_native(0x8b843e20, 0x8132, 0x4852, 0x90, 0xcc, &node);
    proof {
        assert(node@ =~= seq![0x55u8, 0x1a, 0x4e, 0x4a, 0x7f, 0x1c]);
    }
    g
}

pub type DevicePathToTextNode = ServiceRoutine;

pub type DevicePathToTextPath = ServiceRoutine;

/// Routine table of the protocol, as the firmware lays it out.
pub struct Protocol {
    pub convert_device_node_to_text: DevicePathToTextNode,
    pub convert_device_path_to_text: DevicePathToTextPath,
}

} // verus!
