//! HII Font Ex Protocol

use vstd::prelude::*;
use crate::base::{DataAddress, Guid, ServiceRoutine, guid_encode};

verus! {

/// Identifier of this protocol in the firmware's protocol database.
pub fn protocol_guid() -> (g: Guid)
    ensures
        g@ == guid_encode(
            0x849e6875,
            0xdb35,
            0x4df8,
            0xb4,
            0x1e,
            seq![0xc8u8, 0xf3, 0x37, 0x18, 0x07, 0x3f],
        ),
{
    let node: [u8; 6] = [0xc8, 0xf3, 0x37, 0x18, 0x07, 0x3f];
    let g = Guid::from_native(0x849e6875, 0xdb35, 0x4df8, 0xb4, 0x1e, &node);
    proof {
        assert(node@ =~= seq![0xc8u8, 0xf3, 0x37, 0x18, 0x07, 0x3f]);
    }
    g
}

pub type StringToImageExSignature = ServiceRoutine;

pub type StringIdToImageExSignature = ServiceRoutine;

pub type GetGlyphExSignature = ServiceRoutine;

pub type GetFontInfoExSignature = ServiceRoutine;

pub type GetGlyphInfoSignature = ServiceRoutine;

/// Routine table of the protocol, as the firmware lays it out.
pub struct Protocol {
    pub string_to_image_ex: StringToImageExSignature,
    pub string_id_to_image_ex: StringIdToImageExSignature,
    pub get_glyph_ex: GetGlyphExSignature,
    pub get_font_info_ex: GetFontInfoExSignature,
    pub get_glyph_info: GetGlyphInfoSignature,
}

/// One pixel of a block-transfer buffer, in the blue-green-red ordering the
/// graphics output uses.
#[derive(Clone, Copy, Debug)]
pub struct BltPixel {
    pub blue: u8,
    pub green: u8,
    pub red: u8,
    pub reserved: u8,
}

/// How a string is to be drawn.
#[derive(Clone, Copy, Debug)]
pub struct DisplayInfo {
    pub foreground_color: BltPixel,
    pub background_color: BltPixel,
    pub font_info_mask: InfoMask,
    pub font_info: super::hii_string::Info,
}

pub type InfoMask = u32;

pub const INFO_SYS_FONT: InfoMask = 0x00000001;

pub const INFO_SYS_SIZE: InfoMask = 0x00000002;

pub const INFO_SYS_STYLE: InfoMask = 0x00000004;

pub const INFO_SYS_FORE_COLOR: InfoMask = 0x00000010;

pub const INFO_SYS_BACK_COLOR: InfoMask = 0x00000020;

pub const INFO_RESIZE: InfoMask = 0x00001000;

pub const INFO_RESTYLE: InfoMask = 0x00002000;

pub const INFO_ANY_FONT: InfoMask = 0x00010000;

pub const INFO_ANY_SIZE: InfoMask = 0x00020000;

pub const INFO_ANY_STYLE: InfoMask = 0x00040000;

/// Destination of a rendered image: the address of either a pixel buffer or
/// the graphics output to draw to directly; which one is meant is decided by
/// the draw flags, so a single address covers both readings of the
/// interface's union.
pub type ImageOutputImage = DataAddress;

/// A rendered image and where it goes.
#[derive(Clone, Copy)]
pub struct ImageOutput {
    pub width: u16,
    pub height: u16,
    pub image: ImageOutputImage,
}

} // verus!
