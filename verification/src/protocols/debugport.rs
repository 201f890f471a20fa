//! Debug Port Protocol
//!
//! Provides the communication link between the debug agent and the remote
//! host.

use vstd::prelude::*;
use crate::base::{Guid, ServiceRoutine, guid_encode};

verus! {

/// Identifier of this protocol in the firmware's protocol database.
pub fn protocol_guid() -> (g: Guid)
    ensures
        g@ == guid_encode(
            0xeba4e8d2,
            0x3858,
            0x41ec,
            0xa2,
            0x81,
            seq![0x26u8, 0x47, 0xba, 0x96, 0x60, 0xd0],
        ),
{
    let node: [u8; 6] = [0x26, 0x47, 0xba, 0x96, 0x60, 0xd0];
    let g = Guid::from_native(0xeba4e8d2, 0x3858, 0x41ec, 0xa2, 0x81, &node);
    proof {
        assert(node@ =~= seq![0x26u8, 0x47, 0xba, 0x96, 0x60, 0xd0]);
    }
    g
}

pub type ResetSignature = ServiceRoutine;

pub type WriteSignature = ServiceRoutine;

pub type ReadSignature = ServiceRoutine;

pub type PollSignature = ServiceRoutine;

/// Routine table of the protocol, as the firmware lays it out.
pub struct Protocol {
    pub reset: ResetSignature,
    pub write: WriteSignature,
    pub read: ReadSignature,
    pub poll: PollSignature,
}

} // verus!
