//! Human Interface Infrastructure (HII) Package List Protocol
//!
//! Installed onto an image handle during load if the image contains a
//! custom resource of the HII type. The protocol's interface pointer points
//! to the package list contained in the resource's data.

use vstd::prelude::*;
use crate::base::{Guid, guid_encode};

verus! {

/// Identifier of this protocol in the firmware's protocol database.
pub fn protocol_guid() -> (g: Guid)
    ensures
        g@ == guid_encode(
            0x6a1ee763,
            0xd47a,
            0x43b4,
            0xaa,
            0xbe,
            seq![0xefu8, 0x1d, 0xe2, 0xab, 0x56, 0xfc],
        ),
{
    let node: [u8; 6] = [0xef, 0x1d, 0xe2, 0xab, 0x56, 0xfc];
    let g = Guid::from_native(0x6a1ee763, 0xd47a, 0x43b4, 0xaa, 0xbe, &node);
    proof {
        assert(node@ =~= seq![0xefu8, 0x1d, 0xe2, 0xab, 0x56, 0xfc]);
    }
    g
}

} // verus!
