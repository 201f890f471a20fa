//! Block I/O Protocol
//!
//! Abstracts mass storage devices, so that code running in the boot services
//! environment can access them without specific knowledge of the type of
//! device or controller.

use vstd::prelude::*;
use crate::base::{DataAddress, Guid, Lba, ServiceRoutine, guid_encode};

verus! {

/// Identifier of this protocol in the firmware's protocol database.
pub fn protocol_guid() -> (g: Guid)
    ensures
        g@ == guid_encode(
            0x964e5b21,
            0x6459,
            0x11d2,
            0x8e,
            0x39,
            seq![0x00u8, 0xa0, 0xc9, 0x69, 0x72, 0x3b],
        ),
{
    let node: [u8; 6] = [0x00, 0xa0, 0xc9, 0x69, 0x72, 0x3b];
    let g = Guid::from_native(0x964e5b21, 0x6459, 0x11d2, 0x8e, 0x39, &node);
    proof {
        assert(node@ =~= seq![0x00u8, 0xa0, 0xc9, 0x69, 0x72, 0x3b]);
    }
    g
}

pub const REVISION: u64 = 0x0000000000010000u64;

pub const REVISION2: u64 = 0x0000000000020001u64;

pub const REVISION3: u64 = 0x000000000002001fu64;

pub type ResetSignature = ServiceRoutine;

pub type ReadBlocksSignature = ServiceRoutine;

pub type WriteBlocksSignature = ServiceRoutine;

pub type FlushBlocksSignature = ServiceRoutine;

/// Description of the medium behind a block device.
#[derive(Clone, Copy, Debug)]
pub struct Media {
    pub media_id: u32,
    pub removable_media: bool,
    pub media_present: bool,
    pub logical_partition: bool,
    pub read_only: bool,
    pub write_caching: bool,
    pub block_size: u32,
    pub io_align: u32,
    pub last_block: Lba,
    pub lowest_aligned_lba: Lba,
    pub logical_blocks_per_physical_block: u32,
    pub optimal_transfer_length_granularity: u32,
}

/// Routine table of the protocol, as the firmware lays it out.
pub struct Protocol {
    pub revision: u64,
    pub media: DataAddress,
    pub reset: ResetSignature,
    pub read_blocks: ReadBlocksSignature,
    pub write_blocks: WriteBlocksSignature,
    pub flush_blocks: FlushBlocksSignature,
}

} // verus!
