//! Driver Diagnostics Protocol
//!
//! Used to perform diagnostics on a controller that a driver is managing.

use vstd::prelude::*;
use crate::base::{DataAddress, Guid, ServiceRoutine, guid_encode};

verus! {

/// Identifier of this protocol in the firmware's protocol database.
pub fn protocol_guid() -> (g: Guid)
    ensures
        g@ == guid_encode(
            0x4d330321,
            0x025f,
            0x4aac,
            0x90,
            0xd8,
            seq![0x5eu8, 0xd9, 0x00, 0x17, 0x3b, 0x63],
        ),
{
    let node: [u8; 6] = [0x5e, 0xd9, 0x00, 0x17, 0x3b, 0x63];
    let g = Guid::from_native(0x4d330321, 0x025f, 0x4aac, 0x90, 0xd8, &node);
    proof {
        assert(node@ =~= seq![0x5eu8, 0xd9, 0x00, 0x17, 0x3b, 0x63]);
    }
    g
}

pub type DiagnosticType = u32;

pub const DRIVER_DIAGNOSTIC_TYPE_STANDARD: DiagnosticType = 0;

pub const DRIVER_DIAGNOSTIC_TYPE_EXTENDED: DiagnosticType = 1;

pub const DRIVER_DIAGNOSTIC_TYPE_MANUFACTURING: DiagnosticType = 2;

pub const DRIVER_DIAGNOSTIC_TYPE_CANCEL: DiagnosticType = 3;

pub const DRIVER_DIAGNOSTIC_TYPE_MAXIMUM: DiagnosticType = 4;

pub type RunDiagnostics = ServiceRoutine;

/// Routine table of the protocol, as the firmware lays it out.
pub struct Protocol {
    pub run_diagnostics: RunDiagnostics,
    pub supported_languages: DataAddress,
}

} // verus!
