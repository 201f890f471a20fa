//! Extended Simple Text Input Protocol
//!
//! Extends the simple-text-input protocol by more detailed reporting about
//! modifiers and toggle states.

use vstd::prelude::*;
use crate::base::{Guid, ServiceRoutine, guid_encode};
use crate::protocols::simple_text_input::InputKey;

verus! {

/// Identifier of this protocol in the firmware's protocol database.
pub fn protocol_guid() -> (g: Guid)
    ensures
        g@ == guid_encode(
            0xdd9e7534,
            0x7762,
            0x4698,
            0x8c,
            0x14,
            seq![0xf5u8, 0x85, 0x17, 0xa6, 0x25, 0xaa],
        ),
{
    let node: [u8; 6] = [0xf5, 0x85, 0x17, 0xa6, 0x25, 0xaa];
    let g = Guid::from_native(0xdd9e7534, 0x7762, 0x4698, 0x8c, 0x14, &node);
    proof {
        assert(node@ =~= seq![0xf5u8, 0x85, 0x17, 0xa6, 0x25, 0xaa]);
    }
    g
}

pub const SHIFT_STATE_VALID: u32 = 0x80000000u32;

pub const RIGHT_SHIFT_PRESSED: u32 = 0x00000001u32;

pub const LEFT_SHIFT_PRESSED: u32 = 0x00000002u32;

pub const RIGHT_CONTROL_PRESSED: u32 = 0x00000004u32;

pub const LEFT_CONTROL_PRESSED: u32 = 0x00000008u32;

pub const RIGHT_ALT_PRESSED: u32 = 0x00000010u32;

pub const LEFT_ALT_PRESSED: u32 = 0x00000020u32;

pub const RIGHT_LOGO_PRESSED: u32 = 0x00000040u32;

pub const LEFT_LOGO_PRESSED: u32 = 0x00000080u32;

pub const MENU_KEY_PRESSED: u32 = 0x00000100u32;

pub const SYS_REQ_PRESSED: u32 = 0x00000200u32;

pub const TOGGLE_STATE_VALID: u8 = 0x80u8;

pub const KEY_STATE_EXPOSED: u8 = 0x40u8;

pub const SCROLL_LOCK_ACTIVE: u8 = 0x01u8;

pub const NUM_LOCK_ACTIVE: u8 = 0x02u8;

pub const CAPS_LOCK_ACTIVE: u8 = 0x04u8;

pub type KeyToggleState = u8;

pub type KeyNotifyFunctionSignature = ServiceRoutine;

pub type KeyNotifyFunction = KeyNotifyFunctionSignature;

/// Modifier and toggle state accompanying a key stroke.
#[derive(Clone, Copy, Debug, Default)]
pub struct KeyState {
    pub key_shift_state: u32,
    pub key_toggle_state: KeyToggleState,
}

/// One key stroke together with its modifier state.
#[derive(Clone, Copy, Debug, Default)]
pub struct KeyData {
    pub key: InputKey,
    pub key_state: KeyState,
}

pub type ResetSignature = ServiceRoutine;

pub type ReadKeyStrokeExSignature = ServiceRoutine;

pub type SetStateSignature = ServiceRoutine;

pub type RegisterKeyNotifySignature = ServiceRoutine;

pub type UnregisterKeyNotifySignature = ServiceRoutine;

/// Routine table of the protocol, as the firmware lays it out.
pub struct Protocol {
    pub reset: ResetSignature,
    pub read_key_stroke_ex: ReadKeyStrokeExSignature,
    pub wait_for_key_ex: crate::base::Event,
    pub register_key_notify: RegisterKeyNotifySignature,
    pub unregister_key_notify: UnregisterKeyNotifySignature,
}

} // verus!
