//! Transmission Control Protocol version 6
//!
//! Provides services to send and receive data streams.

use vstd::prelude::*;
use crate::base::{Boolean, DataAddress, Event, Guid, Handle, Ipv6Address, ServiceRoutine, Status,
    guid_encode};

verus! {

/// Identifier of this protocol in the firmware's protocol database.
pub fn protocol_guid() -> (g: Guid)
    ensures
        g@ == guid_encode(
            0x46e44855,
            0xbd60,
            0x4ab7,
            0xab,
            0x0d,
            seq![0xa6u8, 0x79, 0xb9, 0x44, 0x7d, 0x77],
        ),
{
    let node: [u8; 6] = [0xa6, 0x79, 0xb9, 0x44, 0x7d, 0x77];
    let g = Guid::from_native(0x46e44855, 0xbd60, 0x4ab7, 0xab, 0x0d, &node);
    proof {
        assert(node@ =~= seq![0xa6u8, 0x79, 0xb9, 0x44, 0x7d, 0x77]);
    }
    g
}

/// Identifier of the service-binding protocol that creates and destroys
/// child instances of this protocol.
pub fn service_binding_protocol_guid() -> (g: Guid)
    ensures
        g@ == guid_encode(
            0xec20eb79,
            0x6c1a,
            0x4664,
            0x9a,
            0x0d,
            seq![0xd2u8, 0xe4, 0xcc, 0x16, 0xd6, 0x64],
        ),
{
    let node: [u8; 6] = [0xd2, 0xe4, 0xcc, 0x16, 0xd6, 0x64];
    let g = Guid::from_native(0xec20eb79, 0x6c1a, 0x4664, 0x9a, 0x0d, &node);
    proof {
        assert(node@ =~= seq![0xd2u8, 0xe4, 0xcc, 0x16, 0xd6, 0x64]);
    }
    g
}

/// Station and remote endpoint of a connection.
pub struct AccessPoint {
    pub station_address: Ipv6Address,
    pub station_port: u16,
    pub remote_address: Ipv6Address,
    pub remote_port: u16,
    pub active_flag: Boolean,
}

/// Tuning options of a connection.
pub struct Tcp6Option {
    pub receive_buffer_size: u32,
    pub send_buffer_size: u32,
    pub max_syn_back_log: u32,
    pub connection_timeout: u32,
    pub data_retries: u32,
    pub fin_timeout: u32,
    pub time_wait_timeout: u32,
    pub keep_alive_probes: u32,
    pub keep_alive_time: u32,
    pub keep_alive_interval: u32,
    pub enable_nagle: Boolean,
    pub enable_time_stamp: Boolean,
    pub enable_window_scaling: Boolean,
    pub enable_selective_ack: Boolean,
    pub enable_path_mtu_discovery: Boolean,
}

/// Operational parameters of a connection.
pub struct ConfigData {
    pub traffic_class: u8,
    pub hop_limit: u8,
    pub access_point: AccessPoint,
    pub control_option: DataAddress,
}

pub type ConnectionState = u32;

pub const CONNECTION_CLOSED: ConnectionState = 0;

pub const STATE_LISTEN: ConnectionState = 1;

pub const SYN_SENT: ConnectionState = 2;

pub const SYN_RECEIVED: ConnectionState = 3;

pub const ESTABLISHED: ConnectionState = 4;

pub const FIN_WAIT1: ConnectionState = 5;

pub const FIN_WAIT2: ConnectionState = 6;

pub const CLOSING: ConnectionState = 7;

pub const TIME_WAIT: ConnectionState = 8;

pub const CLOSE_WAIT: ConnectionState = 9;

pub const LAST_ACK: ConnectionState = 10;

/// Event and result of an asynchronous operation.
pub struct CompletionToken {
    pub event: Event,
    pub status: Status,
}

/// Token of an active-open request.
pub struct ConnectionToken {
    pub completion_token: CompletionToken,
}

/// Token of a passive-open request; on completion it carries the handle of
/// the newly accepted child instance.
pub struct ListenToken {
    pub completion_token: CompletionToken,
    pub new_child_handle: Handle,
}

/// One fragment of a transmit or receive buffer.
pub struct FragmentData {
    pub fragment_length: u32,
    pub fragment_buffer: DataAddress,
}

/// Description of received data; the fragment table address points to an
/// array of `fragment_count` fragment descriptors.
pub struct ReceiveData {
    pub urgent_flag: Boolean,
    pub data_length: u32,
    pub fragment_count: u32,
    pub fragment_table: DataAddress,
}

/// Description of data to transmit; the fragment table address points to an
/// array of `fragment_count` fragment descriptors.
pub struct TransmitData {
    pub push: Boolean,
    pub urgent: Boolean,
    pub data_length: u32,
    pub fragment_count: u32,
    pub fragment_table: DataAddress,
}

/// Token of a transmit or receive request: the address of either a receive
/// or a transmit descriptor, whichever direction the request has.
pub struct IoToken {
    pub rx_data: DataAddress,
    pub tx_data: DataAddress,
}

/// Token of a close request.
pub struct CloseToken {
    pub completion_token: CompletionToken,
    pub abort_on_close: Boolean,
}

pub type GetModeData = ServiceRoutine;

pub type Configure = ServiceRoutine;

pub type Connect = ServiceRoutine;

pub type Accept = ServiceRoutine;

pub type Transmit = ServiceRoutine;

pub type Receive = ServiceRoutine;

pub type Close = ServiceRoutine;

pub type Cancel = ServiceRoutine;

pub type Poll = ServiceRoutine;

/// Routine table of the protocol, as the firmware lays it out.
pub struct Protocol {
    pub get_mode_data: GetModeData,
    pub configure: Configure,
    pub connect: Connect,
    pub accept: Accept,
    pub transmit: Transmit,
    pub receive: Receive,
    pub close: Close,
    pub cancel: Cancel,
    pub poll: Poll,
}

} // verus!
