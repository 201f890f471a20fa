//! Disk I/O 2 Protocol
//!
//! Extends the Disk I/O protocol interface to enable non-blocking,
//! asynchronous byte-oriented disk operation.

use vstd::prelude::*;
use crate::base::{Event, Guid, ServiceRoutine, Status, guid_encode};

verus! {

/// Identifier of this protocol in the firmware's protocol database.
pub fn protocol_guid() -> (g: Guid)
    ensures
        g@ == guid_encode(
            0x151c8eae,
            0x7f2c,
            0x472c,
            0x9e,
            0x54,
            seq![0x98u8, 0x28, 0x19, 0x4f, 0x6a, 0x88],
        ),
{
    let node: [u8; 6] = [0x98, 0x28, 0x19, 0x4f, 0x6a, 0x88];
    let g = Guid::from_native(0x151c8eae, 0x7f2c, 0x472c, 0x9e, 0x54, &node);
    proof {
        assert(node@ =~= seq![0x98u8, 0x28, 0x19, 0x4f, 0x6a, 0x88]);
    }
    g
}

pub const REVISION: u64 = 0x0000000000020000u64;

pub type CancelSignature = ServiceRoutine;

pub type ReadDiskExSignature = ServiceRoutine;

pub type WriteDiskExSignature = ServiceRoutine;

pub type FlushDiskExSignature = ServiceRoutine;

/// Transaction token of an asynchronous disk request.
#[derive(Clone, Copy, Debug)]
pub struct Token {
    pub event: Event,
    pub transaction_status: Status,
}

/// Routine table of the protocol, as the firmware lays it out.
pub struct Protocol {
    pub revision: u64,
    pub cancel: CancelSignature,
    pub read_disk_ex: ReadDiskExSignature,
    pub write_disk_ex: WriteDiskExSignature,
    pub flush_disk_ex: FlushDiskExSignature,
}

} // verus!
