//! Device Path Utilities Protocol
//!
//! Provides common utilities for creating and manipulating device paths and
//! device nodes.

use vstd::prelude::*;
use crate::base::{Guid, ServiceRoutine, guid_encode};

verus! {

/// Identifier of this protocol in the firmware's protocol database.
pub fn protocol_guid() -> (g: Guid)
    ensures
        g@ == guid_encode(
            0x0379be4e,
            0xd706,
            0x437d,
            0xb0,
            0x37,
            seq![0xedu8, 0xb8, 0x2f, 0xb7, 0x72, 0xa4],
        ),
{
    let node: [u8; 6] = [0xed, 0xb8, 0x2f, 0xb7, 0x72, 0xa4];
    let g = Guid::from_native(0x0379be4e, 0xd706, 0x437d, 0xb0, 0x37, &node);
    proof {
        assert(node@ =~= seq![0xedu8, 0xb8, 0x2f, 0xb7, 0x72, 0xa4]);
    }
    g
}

pub type GetDevicePathSizeSignature = ServiceRoutine;

pub type DuplicateDevicePathSignature = ServiceRoutine;

pub type AppendDevicePathSignature = ServiceRoutine;

pub type AppendDeviceNodeSignature = ServiceRoutine;

pub type AppendDevicePathInstanceSignature = ServiceRoutine;

pub type GetNextDevicePathInstanceSignature = ServiceRoutine;

pub type IsDevicePathMultiInstanceSignature = ServiceRoutine;

pub type CreateDeviceNodeSignature = ServiceRoutine;

/// Routine table of the protocol, as the firmware lays it out.
pub struct Protocol {
    pub get_device_path_size: GetDevicePathSizeSignature,
    pub duplicate_device_path: DuplicateDevicePathSignature,
    pub append_device_path: AppendDevicePathSignature,
    pub append_device_node: AppendDeviceNodeSignature,
    pub append_device_path_instance: AppendDevicePathInstanceSignature,
    pub get_next_device_path_instance: GetNextDevicePathInstanceSignature,
    pub is_device_path_multi_instance: IsDevicePathMultiInstanceSignature,
    pub create_device_node: CreateDeviceNodeSignature,
}

} // verus!
