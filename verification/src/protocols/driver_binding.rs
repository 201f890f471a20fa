//! Driver Binding Protocol
//!
//! Provides the services required to determine if a driver supports a given
//! controller, and if so, the routines to start and stop it.

use vstd::prelude::*;
use crate::base::{Guid, Handle, ServiceRoutine, guid_encode};

verus! {

/// Identifier of this protocol in the firmware's protocol database.
pub fn protocol_guid() -> (g: Guid)
    ensures
        g@ == guid_encode(
            0x18a031ab,
            0xb443,
            0x4d1a,
            0xa5,
            0xc0,
            seq![0x0cu8, 0x09, 0x26, 0x1e, 0x9f, 0x71],
        ),
{
    let node: [u8; 6] = [0x0c, 0x09, 0x26, 0x1e, 0x9f, 0x71];
    let g = Guid::from_native(0x18a031ab, 0xb443, 0x4d1a, 0xa5, 0xc0, &node);
    proof {
        assert(node@ =~= seq![0x0cu8, 0x09, 0x26, 0x1e, 0x9f, 0x71]);
    }
    g
}

pub type SupportedSignature = ServiceRoutine;

pub type StartSignature = ServiceRoutine;

pub type StopSignature = ServiceRoutine;

/// Routine table of the protocol, as the firmware lays it out.
pub struct Protocol {
    pub supported: SupportedSignature,
    pub start: StartSignature,
    pub stop: StopSignature,
    pub version: u32,
    pub image_handle: Handle,
    pub driver_binding_handle: Handle,
}

} // verus!
