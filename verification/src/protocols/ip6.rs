//! IPv6 Protocol
//!
//! Implements a simple packet-oriented interface that drivers, daemons, and
//! applications can use to transmit and receive network packets.

use vstd::prelude::*;
use crate::base::{Boolean, DataAddress, Ipv6Address, MacAddress};

verus! {

/// Operational parameters of an IPv6 instance.
pub struct ConfigData {
    pub default_protocol: u8,
    pub accept_any_protocol: Boolean,
    pub accept_icmp_errors: Boolean,
    pub accept_promiscuous: Boolean,
    pub destination_address: Ipv6Address,
    pub station_address: Ipv6Address,
    pub traffic_class: u8,
    pub hop_limit: u8,
    pub flow_lable: u32,
    pub receive_timeout: u32,
    pub transmit_timeout: u32,
}

/// One address of the interface, with its prefix length.
pub struct AddressInfo {
    pub address: Ipv6Address,
    pub prefix_length: u8,
}

/// One entry of the routing table.
pub struct RouteTable {
    pub gateway: Ipv6Address,
    pub destination: Ipv6Address,
    pub prefix_length: u8,
}

pub type NeighboutState = u32;

pub const EFI_NEIGHBOUR_IN_COMPLETE: NeighboutState = 0;

pub const EFI_NEIGHBOUR_REACHABLE: NeighboutState = 1;

pub const EFI_NEIGHBOUR_STATE: NeighboutState = 2;

pub const EFI_NEIGHBOUR_DELAY: NeighboutState = 3;

pub const EFI_NEIGHBOUR_PROBE: NeighboutState = 4;

/// One entry of the neighbour cache.
pub struct NeighbourCache {
    pub neighbour: Ipv6Address,
    pub link_address: MacAddress,
    pub state: NeighboutState,
}

/// Type and code of an ICMP message.
pub struct IcmpType {
    pub message_type: u8,
    pub code: u8,
}

/// Snapshot of the operational state of an IPv6 instance; the counted
/// fields give the lengths of the arrays behind the respective addresses.
pub struct ModeData {
    pub is_started: Boolean,
    pub max_packet_size: u32,
    pub config_data: ConfigData,
    pub is_configured: Boolean,
    pub address_count: u32,
    pub address_list: DataAddress,
    pub group_count: u32,
    pub group_table: DataAddress,
    pub route_count: u32,
    pub route_table: DataAddress,
    pub neighbour_count: u32,
    pub neighbour_cache: DataAddress,
    pub prefix_count: u32,
    pub prefix_table: DataAddress,
    pub icmp_type_count: u32,
    pub icmp_type_list: DataAddress,
}

} // verus!
