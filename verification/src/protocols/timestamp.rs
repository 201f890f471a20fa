//! Timestamp Protocol
//!
//! Provides a platform-independent interface for retrieving a
//! high-resolution timestamp counter.

use vstd::prelude::*;
use crate::base::{Guid, ServiceRoutine, guid_encode};

verus! {

/// Identifier of this protocol in the firmware's protocol database.
pub fn protocol_guid() -> (g: Guid)
    ensures
        g@ == guid_encode(
            0xafbfde41,
            0x2e6e,
            0x4262,
            0xba,
            0x65,
            seq![0x62u8, 0xb9, 0x23, 0x6e, 0x54, 0x95],
        ),
{
    let node: [u8; 6] = [0x62, 0xb9, 0x23, 0x6e, 0x54, 0x95];
    let g = Guid::from_native(0xafbfde41, 0x2e6e, 0x4262, 0xba, 0x65, &node);
    proof {
        assert(node@ =~= seq![0x62u8, 0xb9, 0x23, 0x6e, 0x54, 0x95]);
    }
    g
}

/// Properties of the timestamp counter: its frequency in ticks per second
/// and the value at which it rolls over.
pub struct Properties {
    pub frequence: u64,
    pub end_value: u64,
}

pub type GetTimestamp = ServiceRoutine;

pub type GetProperties = ServiceRoutine;

/// Routine table of the protocol, as the firmware lays it out.
pub struct Protocol {
    pub get_timestamp: GetTimestamp,
    pub get_properties: GetProperties,
}

} // verus!
