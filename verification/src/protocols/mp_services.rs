//! MP Services Protocol
//!
//! Provides a generalized way of retrieving information about the
//! multi-processor environment, dispatching user-provided routines to
//! application processors, and maintaining their status.

use vstd::prelude::*;
use crate::base::{Guid, ServiceRoutine, guid_encode};

verus! {

/// Identifier of this protocol in the firmware's protocol database.
pub fn protocol_guid() -> (g: Guid)
    ensures
        g@ == guid_encode(
            0x3fdda605,
            0xa76e,
            0x4f46,
            0xad,
            0x29,
            seq![0x12u8, 0xf4, 0x53, 0x1b, 0x3d, 0x08],
        ),
{
    let node: [u8; 6] = [0x12, 0xf4, 0x53, 0x1b, 0x3d, 0x08];
    let g = Guid::from_native(0x3fdda605, 0xa76e, 0x4f46, 0xad, 0x29, &node);
    proof {
        assert(node@ =~= seq![0x12u8, 0xf4, 0x53, 0x1b, 0x3d, 0x08]);
    }
    g
}

pub type StatusFlag = u32;

pub const PROCESSOR_AS_BSP_BIT: StatusFlag = 0x00000001;

pub const PROCESSOR_ENABLED_BIT: StatusFlag = 0x00000002;

pub const PROCESSOR_HEALTH_STATUS_BIT: StatusFlag = 0x00000004;

pub const END_OF_CPU_LIST: usize = 0xffffffff;

/// Physical location of a processor in the platform topology.
#[derive(Debug, Clone, Copy)]
pub struct CpuPhysicalLocation {
    pub package: u32,
    pub core: u32,
    pub thread: u32,
}

/// Extended six-level physical location of a processor.
#[derive(Debug, Clone, Copy)]
pub struct CpuPhysicalLocation2 {
    pub package: u32,
    pub module: u32,
    pub tile: u32,
    pub die: u32,
    pub core: u32,
    pub thread: u32,
}

/// Extended information about a processor. The interface reserves a union
/// here whose only member is the six-level location, so the location stands
/// directly.
#[derive(Clone, Copy)]
pub struct ExtendedProcessorInformation {
    pub location2: CpuPhysicalLocation2,
}

/// Information about one processor.
#[derive(Clone, Copy)]
pub struct ProcessorInfoBuffer {
    pub processor_id: u64,
    pub status_flag: StatusFlag,
    pub location: CpuPhysicalLocation,
    pub extended_information: ExtendedProcessorInformation,
}

pub type ApProcedure = ServiceRoutine;

pub type GetNumberOfProcessors = ServiceRoutine;

pub type GetProcessorInfo = ServiceRoutine;

pub type StartupAllAPs = ServiceRoutine;

pub type StartupThisAP = ServiceRoutine;

pub type SwitchBSP = ServiceRoutine;

pub type EnableDisableAP = ServiceRoutine;

pub type WhoAmI = ServiceRoutine;

/// Routine table of the protocol, as the firmware lays it out.
pub struct Protocol {
    pub get_number_of_processors: GetNumberOfProcessors,
    pub get_processor_info: GetProcessorInfo,
    pub startup_all_aps: StartupAllAPs,
    pub startup_this_ap: StartupThisAP,
    pub switch_bsp: SwitchBSP,
    pub enable_disable_ap: EnableDisableAP,
    pub who_am_i: WhoAmI,
}

} // verus!
