//! TCPv6 Service Binding Protocol
//!
//! Used to locate TCPv6 protocol drivers, and to create and destroy child
//! protocol instances of the driver that communicate with other hosts.

use vstd::prelude::*;
use crate::base::{Guid, guid_encode};

verus! {

/// Identifier of this protocol in the firmware's protocol database.
pub fn protocol_guid() -> (g: Guid)
    ensures
        g@ == guid_encode(
            0xec20eb79,
            0x6c1a,
            0x4664,
            0x9a,
            0x0d,
            seq![0xd2u8, 0xe4, 0xcc, 0x16, 0xd6, 0x64],
        ),
{
    let node: [u8; 6] = [0xd2, 0xe4, 0xcc, 0x16, 0xd6, 0x64];
    let g = Guid::from_native(0xec20eb79, 0x6c1a, 0x4664, 0x9a, 0x0d, &node);
    proof {
        assert(node@ =~= seq![0xd2u8, 0xe4, 0xcc, 0x16, 0xd6, 0x64]);
    }
    g
}

} // verus!
