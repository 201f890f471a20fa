//! HII Font Protocol

use vstd::prelude::*;
use crate::base::{DataAddress, Guid, ServiceRoutine, guid_encode};

verus! {

/// Identifier of this protocol in the firmware's protocol database.
pub fn protocol_guid() -> (g: Guid)
    ensures
        g@ == guid_encode(
            0xe9ca4775,
            0x8657,
            0x47fc,
            0x97,
            0xe7,
            seq![0x7eu8, 0xd6, 0x5a, 0x08, 0x43, 0x24],
        ),
{
    let node: [u8; 6] = [0x7e, 0xd6, 0x5a, 0x08, 0x43, 0x24];
    let g = Guid::from_native(0xe9ca4775, 0x8657, 0x47fc, 0x97, 0xe7, &node);
    proof {
        assert(node@ =~= seq![0x7eu8, 0xd6, 0x5a, 0x08, 0x43, 0x24]);
    }
    g
}

pub type StringToImageSignature = ServiceRoutine;

pub type StringIdToImageSignature = ServiceRoutine;

pub type GetGlyphSignature = ServiceRoutine;

pub type GetFontInfoSignature = ServiceRoutine;

/// Routine table of the protocol, as the firmware lays it out.
pub struct Protocol {
    pub string_to_image: StringToImageSignature,
    pub string_id_to_image: StringIdToImageSignature,
    pub get_glyph: GetGlyphSignature,
    pub get_font_info: GetFontInfoSignature,
}

pub type OutFlags = u32;

pub const OUT_FLAG_CLIP: OutFlags = 0x00000001;

pub const OUT_FLAG_WRAP: OutFlags = 0x00000002;

pub const OUT_FLAG_CLIP_CLEAN_Y: OutFlags = 0x00000004;

pub const OUT_FLAG_CLIP_CLEAN_X: OutFlags = 0x00000008;

pub const OUT_FLAG_TRANSPARENT: OutFlags = 0x00000010;

pub const IGNORE_IF_NO_GLYPH: OutFlags = 0x00000020;

pub const IGNORE_LINE_BREAK: OutFlags = 0x00000040;

pub const DIRECT_TO_SCREEN: OutFlags = 0x00000080;

/// Address of a dual-byte character string owned by the firmware.
pub type StringAddress = DataAddress;

/// Font handle: an opaque reference into the font database.
pub type FontHandle = DataAddress;

/// Layout of one row of rendered text.
#[derive(Clone, Copy, Debug)]
pub struct RowInfo {
    pub start_index: usize,
    pub end_index: usize,
    pub line_height: usize,
    pub line_width: usize,
    pub baseline_offset: usize,
}

} // verus!
