//! Shell Parameters Protocol
//!
//! Carries the argument list and standard streams of a shell-launched
//! image.

use vstd::prelude::*;
use crate::base::{DataAddress, Guid, guid_encode};

verus! {

/// Identifier of this protocol in the firmware's protocol database.
pub fn protocol_guid() -> (g: Guid)
    ensures
        g@ == guid_encode(
            0x752f3136,
            0x4e16,
            0x4fdc,
            0xa2,
            0x2a,
            seq![0xe5u8, 0xf4, 0x68, 0x12, 0xf4, 0xca],
        ),
{
    let node: [u8; 6] = [0xe5, 0xf4, 0x68, 0x12, 0xf4, 0xca];
    let g = Guid::from_native(0x752f3136, 0x4e16, 0x4fdc, 0xa2, 0x2a, &node);
    proof {
        assert(node@ =~= seq![0xe5u8, 0xf4, 0x68, 0x12, 0xf4, 0xca]);
    }
    g
}

/// File handle of the shell: an opaque reference to an open stream.
pub type FileHandle = DataAddress;

/// Arguments and standard streams handed to a shell-launched image; `argv`
/// is the address of an array of `argc` string addresses.
pub struct Protocol {
    pub argv: DataAddress,
    pub argc: usize,
    pub stdin: FileHandle,
    pub stdout: FileHandle,
    pub stderr: FileHandle,
}

} // verus!
