//! Simple Network Protocol
//!
//! Provides services to initialize a network interface, transmit packets,
//! receive packets, and close a network interface.

use vstd::prelude::*;
use crate::base::{Boolean, DataAddress, Event, Guid, MacAddress, ServiceRoutine, guid_encode};

verus! {

/// Identifier of this protocol in the firmware's protocol database.
pub fn protocol_guid() -> (g: Guid)
    ensures
        g@ == guid_encode(
            0xa19832b9,
            0xac25,
            0x11d3,
            0x9a,
            0x2d,
            seq![0x00u8, 0x90, 0x27, 0x3f, 0xc1, 0x4d],
        ),
{
    let node: [u8; 6] = [0x00, 0x90, 0x27, 0x3f, 0xc1, 0x4d];
    let g = Guid::from_native(0xa19832b9, 0xac25, 0x11d3, 0x9a, 0x2d, &node);
    proof {
        assert(node@ =~= seq![0x00u8, 0x90, 0x27, 0x3f, 0xc1, 0x4d]);
    }
    g
}

pub const REVISION: u64 = 0x0000000000010000u64;

pub const MAX_MCAST_FILTER_CNT: usize = 16;

pub const RECEIVE_UNICAST: u32 = 0x00000001u32;

pub const RECEIVE_MULTICAST: u32 = 0x00000002u32;

pub const RECEIVE_BROADCAST: u32 = 0x00000004u32;

pub const RECEIVE_PROMISCUOUS: u32 = 0x00000008u32;

pub const RECEIVE_PROMISCUOUS_MULTICAST: u32 = 0x00000010u32;

pub const RECEIVE_INTERRUPT: u32 = 0x00000001u32;

pub const TRANSMIT_INTERRUPT: u32 = 0x00000002u32;

pub const COMMAND_INTERRUPT: u32 = 0x00000004u32;

pub const SOFTWARE_INTERRUPT: u32 = 0x00000008u32;

/// Operational state of a network interface.
#[derive(Clone, Copy, Debug)]
pub struct Mode {
    pub state: u32,
    pub hw_address_size: u32,
    pub media_header_size: u32,
    pub max_packet_size: u32,
    pub nvram_size: u32,
    pub nvram_access_size: u32,
    pub receive_filter_mask: u32,
    pub receive_filter_setting: u32,
    pub max_mcast_filter_count: u32,
    pub mcast_filter_count: u32,
    pub mcast_filter: [MacAddress; MAX_MCAST_FILTER_CNT],
    pub current_address: MacAddress,
    pub broadcast_address: MacAddress,
    pub permanent_address: MacAddress,
    pub if_type: u8,
    pub mac_address_changeable: Boolean,
    pub multiple_tx_supported: Boolean,
    pub media_present_supported: Boolean,
    pub media_present: Boolean,
}

pub type State = u32;

pub const STOPPED: State = 0x00000000;

pub const STARTED: State = 0x00000001;

pub const INITIALIZED: State = 0x00000002;

pub const MAX_STATE: State = 0x00000003;

/// Frame counters of a network interface.
#[derive(Clone, Copy, Debug)]
pub struct Statistics {
    pub rx_total_frames: u64,
    pub rx_good_frames: u64,
    pub rx_undersize_frames: u64,
    pub rx_oversize_frames: u64,
    pub rx_dropped_frames: u64,
    pub rx_unicast_frames: u64,
    pub rx_broadcast_frames: u64,
    pub rx_multicast_frames: u64,
    pub rx_crc_error_frames: u64,
    pub rx_total_bytes: u64,
    pub tx_total_frames: u64,
    pub tx_good_frames: u64,
    pub tx_undersize_frames: u64,
    pub tx_oversize_frames: u64,
    pub tx_dropped_frames: u64,
    pub tx_unicast_frames: u64,
    pub tx_broadcast_frames: u64,
    pub tx_multicast_frames: u64,
    pub tx_crc_error_frames: u64,
    pub tx_total_bytes: u64,
    pub collisions: u64,
    pub unsupported_protocol: u64,
    pub rx_duplicated_frames: u64,
    pub rx_decrypt_error_frames: u64,
    pub tx_error_frames: u64,
    pub tx_retry_frames: u64,
}

pub type StartSignature = ServiceRoutine;

pub type StopSignature = ServiceRoutine;

pub type InitializeSignature = ServiceRoutine;

pub type ResetSignature = ServiceRoutine;

pub type ShutdownSignature = ServiceRoutine;

pub type ReceiveFiltersSignature = ServiceRoutine;

pub type StationAddressSignature = ServiceRoutine;

pub type StatisticsSignature = ServiceRoutine;

pub type McastIpToMacSignature = ServiceRoutine;

pub type NvDataSignature = ServiceRoutine;

pub type GetStatusSignature = ServiceRoutine;

pub type TransmitSignature = ServiceRoutine;

pub type ReceiveSignature = ServiceRoutine;

/// Routine table of the protocol, as the firmware lays it out.
pub struct Protocol {
    pub revision: u64,
    pub start: StartSignature,
    pub stop: StopSignature,
    pub initialize: InitializeSignature,
    pub reset: ResetSignature,
    pub shutdown: ShutdownSignature,
    pub receive_filters: ReceiveFiltersSignature,
    pub station_address: StationAddressSignature,
    pub statistics: StatisticsSignature,
    pub mcast_ip_to_mac: McastIpToMacSignature,
    pub nv_data: NvDataSignature,
    pub get_status: GetStatusSignature,
    pub transmit: TransmitSignature,
    pub receive: ReceiveSignature,
    pub wait_for_packet: Event,
    pub mode: DataAddress,
}

} // verus!
