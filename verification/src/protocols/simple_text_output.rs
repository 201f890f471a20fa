//! Simple Text Output Protocol
//!
//! Provides a simple way to print text on screen. It is modeled around the
//! old VGA consoles: a rectangular text array with a cursor that moves
//! around to write symbols to the screen.

use vstd::prelude::*;
use crate::base::{Boolean, DataAddress, Guid, ServiceRoutine, guid_encode};

verus! {

/// Identifier of this protocol in the firmware's protocol database.
pub fn protocol_guid() -> (g: Guid)
    ensures
        g@ == guid_encode(
            0x387477c2,
            0x69c7,
            0x11d2,
            0x8e,
            0x39,
            seq![0x00u8, 0xa0, 0xc9, 0x69, 0x72, 0x3b],
        ),
{
    let node: [u8; 6] = [0x00, 0xa0, 0xc9, 0x69, 0x72, 0x3b];
    let g = Guid::from_native(0x387477c2, 0x69c7, 0x11d2, 0x8e, 0x39, &node);
    proof {
        assert(node@ =~= seq![0x00u8, 0xa0, 0xc9, 0x69, 0x72, 0x3b]);
    }
    g
}

/// State of the text console.
#[derive(Clone, Copy, Debug)]
pub struct Mode {
    pub max_mode: i32,
    pub mode: i32,
    pub attribute: i32,
    pub cursor_column: i32,
    pub cursor_row: i32,
    pub cursor_visible: Boolean,
}

pub type ResetSignature = ServiceRoutine;

pub type OutputStringSignature = ServiceRoutine;

pub type TestStringSignature = ServiceRoutine;

pub type QueryModeSignature = ServiceRoutine;

pub type SetModeSignature = ServiceRoutine;

pub type SetAttributeSignature = ServiceRoutine;

pub type ClearScreenSignature = ServiceRoutine;

pub type SetCursorPositionSignature = ServiceRoutine;

pub type EnableCursorSignature = ServiceRoutine;

/// Routine table of the protocol, as the firmware lays it out.
pub struct Protocol {
    pub reset: ResetSignature,
    pub output_string: OutputStringSignature,
    pub test_string: TestStringSignature,
    pub query_mode: QueryModeSignature,
    pub set_mode: SetModeSignature,
    pub set_attribute: SetAttributeSignature,
    pub clear_screen: ClearScreenSignature,
    pub set_cursor_position: SetCursorPositionSignature,
    pub enable_cursor: EnableCursorSignature,
    pub mode: DataAddress,
}

} // verus!
