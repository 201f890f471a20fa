//! HII String Protocol

use vstd::prelude::*;
use crate::base::{Guid, ServiceRoutine, guid_encode};

verus! {

/// Identifier of this protocol in the firmware's protocol database.
pub fn protocol_guid() -> (g: Guid)
    ensures
        g@ == guid_encode(
            0x0fd96974,
            0x23aa,
            0x4cdc,
            0xb9,
            0xcb,
            seq![0x98u8, 0xd1, 0x77, 0x50, 0x32, 0x2a],
        ),
{
    let node: [u8; 6] = [0x98, 0xd1, 0x77, 0x50, 0x32, 0x2a];
    let g = Guid::from_native(0x0fd96974, 0x23aa, 0x4cdc, 0xb9, 0xcb, &node);
    proof {
        assert(node@ =~= seq![0x98u8, 0xd1, 0x77, 0x50, 0x32, 0x2a]);
    }
    g
}

/// Style flags of a font request.
pub type FontStyle = u32;

pub type ProtocolNewString = ServiceRoutine;

pub type ProtocolGetString = ServiceRoutine;

pub type ProtocolSetString = ServiceRoutine;

pub type ProtocolGetLanguages = ServiceRoutine;

pub type ProtocolGetSecondaryLanguages = ServiceRoutine;

/// Routine table of the protocol, as the firmware lays it out.
pub struct Protocol {
    pub new_string: ProtocolNewString,
    pub get_string: ProtocolGetString,
    pub set_string: ProtocolSetString,
    pub get_languages: ProtocolGetLanguages,
    pub get_secondary_languages: ProtocolGetSecondaryLanguages,
}

/// Font request header; the font name follows this header in the underlying
/// buffer.
#[derive(Clone, Copy, Debug)]
pub struct Info {
    pub font_style: FontStyle,
    pub font_size: u16,
}

} // verus!
