//! Simple Text Input Protocol
//!
//! Defines how to read basic key strokes. It is limited to non-modifiers
//! and lacks any detailed reporting; it is mostly useful for debugging and
//! administrative interaction.

use vstd::prelude::*;
use crate::base::{Char16, Event, Guid, ServiceRoutine, guid_encode};

verus! {

/// Identifier of this protocol in the firmware's protocol database.
pub fn protocol_guid() -> (g: Guid)
    ensures
        g@ == guid_encode(
            0x387477c1,
            0x69c7,
            0x11d2,
            0x8e,
            0x39,
            seq![0x00u8, 0xa0, 0xc9, 0x69, 0x72, 0x3b],
        ),
{
    let node: [u8; 6] = [0x00, 0xa0, 0xc9, 0x69, 0x72, 0x3b];
    let g = Guid::from_native(0x387477c1, 0x69c7, 0x11d2, 0x8e, 0x39, &node);
    proof {
        assert(node@ =~= seq![0x00u8, 0xa0, 0xc9, 0x69, 0x72, 0x3b]);
    }
    g
}

/// One key stroke: its scan code and, if printable, its character.
#[derive(Clone, Copy, Debug, Default)]
pub struct InputKey {
    pub scan_code: u16,
    pub unicode_char: Char16,
}

pub type ResetSignature = ServiceRoutine;

pub type ReadKeyStorkeSignature = ServiceRoutine;

/// Routine table of the protocol, as the firmware lays it out.
pub struct Protocol {
    pub reset: ResetSignature,
    pub read_key_stroke: ReadKeyStorkeSignature,
    pub wait_for_key: Event,
}

} // verus!
