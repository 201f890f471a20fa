//! File Protocol
//!
//! Provides an interface to interact with both files and directories. It is
//! typically obtained via a simple-file-system protocol or via another file
//! protocol instance.

use vstd::prelude::*;
use crate::base::{DataAddress, Event, Guid, ServiceRoutine, Status, guid_encode};
use crate::system::Time;

verus! {

pub const REVISION: u64 = 0x0000000000010000u64;

pub const REVISION2: u64 = 0x0000000000020000u64;

pub const LATEST_REVISION: u64 = REVISION2;

pub const MODE_READ: u64 = 0x0000000000000001u64;

pub const MODE_WRITE: u64 = 0x0000000000000002u64;

pub const MODE_CREATE: u64 = 0x0000000000000000u64;

pub const READ_ONLY: u64 = 0x0000000000000001u64;

pub const HIDDEN: u64 = 0x0000000000000002u64;

pub const SYSTEM: u64 = 0x0000000000000004u64;

pub const RESERVED: u64 = 0x0000000000000008u64;

pub const DIRECTORY: u64 = 0x0000000000000010u64;

pub const ARCHIVE: u64 = 0x0000000000000020u64;

pub const VALID_ATTR: u64 = 0x0000000000000037u64;

/// Identifier selecting per-file information in the info services.
pub fn info_id() -> (g: Guid)
    ensures
        g@ == guid_encode(
            0x09576e92,
            0x6d3f,
            0x11d2,
            0x8e,
            0x39,
            seq![0x00u8, 0xa0, 0xc9, 0x69, 0x72, 0x3b],
        ),
{
    let node: [u8; 6] = [0x00, 0xa0, 0xc9, 0x69, 0x72, 0x3b];
    let g = Guid::from_native(0x09576e92, 0x6d3f, 0x11d2, 0x8e, 0x39, &node);
    proof {
        assert(node@ =~= seq![0x00u8, 0xa0, 0xc9, 0x69, 0x72, 0x3b]);
    }
    g
}

/// Identifier selecting file-system information in the info services.
pub fn system_info_id() -> (g: Guid)
    ensures
        g@ == guid_encode(
            0x09576e93,
            0x6d3f,
            0x11d2,
            0x8e,
            0x39,
            seq![0x00u8, 0xa0, 0xc9, 0x69, 0x72, 0x3b],
        ),
{
    let node: [u8; 6] = [0x00, 0xa0, 0xc9, 0x69, 0x72, 0x3b];
    let g = Guid::from_native(0x09576e93, 0x6d3f, 0x11d2, 0x8e, 0x39, &node);
    proof {
        assert(node@ =~= seq![0x00u8, 0xa0, 0xc9, 0x69, 0x72, 0x3b]);
    }
    g
}

/// Identifier selecting the volume label in the info services.
pub fn system_volume_label_id() -> (g: Guid)
    ensures
        g@ == guid_encode(
            0xdb47d7d3,
            0xfe81,
            0x11d3,
            0x9a,
            0x35,
            seq![0x00u8, 0x90, 0x27, 0x3f, 0xc1, 0x4d],
        ),
{
    let node: [u8; 6] = [0x00, 0x90, 0x27, 0x3f, 0xc1, 0x4d];
    let g = Guid::from_native(0xdb47d7d3, 0xfe81, 0x11d3, 0x9a, 0x35, &node);
    proof {
        assert(node@ =~= seq![0x00u8, 0x90, 0x27, 0x3f, 0xc1, 0x4d]);
    }
    g
}

pub type OpenSignature = ServiceRoutine;

pub type CloseSignature = ServiceRoutine;

pub type DeleteSignature = ServiceRoutine;

pub type ReadSignature = ServiceRoutine;

pub type WriteSignature = ServiceRoutine;

pub type GetPositionSignature = ServiceRoutine;

pub type SetPositionSignature = ServiceRoutine;

pub type GetInfoSignature = ServiceRoutine;

pub type SetInfoSignature = ServiceRoutine;

pub type FlushSignature = ServiceRoutine;

pub type OpenExSignature = ServiceRoutine;

pub type ReadExSignature = ServiceRoutine;

pub type WriteExSignature = ServiceRoutine;

pub type FlushExSignature = ServiceRoutine;

/// Transaction token of an asynchronous file request.
#[derive(Clone, Copy, Debug)]
pub struct IoToken {
    pub event: Event,
    pub status: Status,
    pub buffer_size: usize,
    pub buffer: DataAddress,
}

/// Per-file information record; the file name follows this header in the
/// underlying buffer.
#[derive(Clone, Copy, Debug)]
pub struct Info {
    pub size: u64,
    pub file_size: u64,
    pub physical_size: u64,
    pub create_time: Time,
    pub last_access_time: Time,
    pub modification_time: Time,
    pub attribute: u64,
}

/// File-system information record; the volume label follows this header in
/// the underlying buffer.
#[derive(Clone, Copy, Debug)]
pub struct SystemInfo {
    pub size: u64,
    pub read_only: crate::base::Boolean,
    pub volume_size: u64,
    pub free_space: u64,
    pub block_size: u32,
}

/// Volume label record: the label itself is the variable-length character
/// data of the underlying buffer, so this header has no fixed fields.
#[derive(Clone, Copy, Debug)]
pub struct SystemVolumeLabel {
}

/// Routine table of the protocol, as the firmware lays it out.
pub struct Protocol {
    pub revision: u64,
    pub open: OpenSignature,
    pub close: CloseSignature,
    pub delete: DeleteSignature,
    pub read: ReadSignature,
    pub write: WriteSignature,
    pub get_position: GetPositionSignature,
    pub set_position: SetPositionSignature,
    pub get_info: GetInfoSignature,
    pub set_info: SetInfoSignature,
    pub flush: FlushSignature,
    pub open_ex: OpenExSignature,
    pub read_ex: ReadExSignature,
    pub write_ex: WriteExSignature,
    pub flush_ex: FlushExSignature,
}

} // verus!
