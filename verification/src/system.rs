//! System integration: the structures and types of the surrounding system of
//! a firmware application. It contains the definitions of the system table,
//! the runtime and boot services, and their common types.
//!
//! The behaviour of each routine follows the governing interface
//! specification; this module records the binary shape of the tables, with
//! every routine slot carried as the opaque entry-point address of the
//! corresponding firmware service.

use vstd::prelude::*;
use crate::base::{
    DataAddress,
    Guid,
    Handle,
    PhysicalAddress,
    ServiceRoutine,
    Status,
    Tpl,
    VirtualAddress,
    guid_encode,
};

verus! {

//
// Time management. Timestamps are modeled around the `Time` structure; the
// runtime services query and set the system time.
//
pub const TIME_ADJUST_DAYLIGHT: u8 = 0x01u8;

pub const TIME_IN_DAYLIGHT: u8 = 0x02u8;

pub const UNSPECIFIED_TIMEZONE: i16 = 0x07ffi16;

/// An arbitrary timestamp. The two pad fields keep the interface layout and
/// carry no meaning.
#[derive(Clone, Copy, Debug)]
pub struct Time {
    pub year: u16,
    pub month: u8,
    pub day: u8,
    pub hour: u8,
    pub minute: u8,
    pub second: u8,
    pub pad1: u8,
    pub nanosecond: u32,
    pub timezone: i16,
    pub daylight: u8,
    pub pad2: u8,
}

/// Capabilities of the real-time clock behind the time services.
#[derive(Clone, Copy, Debug)]
pub struct TimeCapabilities {
    pub resolution: u32,
    pub accuracy: u32,
    pub sets_to_zero: crate::base::Boolean,
}

//
// Variables. The platform provides a store of global variables, persistent
// or volatile.
//
pub const VARIABLE_NON_VOLATILE: u32 = 0x00000001u32;

pub const VARIABLE_BOOTSERVICE_ACCESS: u32 = 0x00000002u32;

pub const VARIABLE_RUNTIME_ACCESS: u32 = 0x00000004u32;

pub const VARIABLE_HARDWARE_ERROR_RECORD: u32 = 0x00000008u32;

pub const VARIABLE_AUTHENTICATED_WRITE_ACCESS: u32 = 0x00000010u32;

pub const VARIABLE_TIME_BASED_AUTHENTICATED_WRITE_ACCESS: u32 = 0x00000020u32;

pub const VARIABLE_APPEND_WRITE: u32 = 0x00000040u32;

pub const VARIABLE_ENHANCED_AUTHENTICATED_ACCESS: u32 = 0x00000080u32;

pub const VARIABLE_AUTHENTICATION_3_CERT_ID_SHA256: u32 = 0x1u32;

/// Certificate identifier of an enhanced-authentication variable; the
/// identifier bytes follow this header in the underlying buffer.
#[derive(Clone, Copy, Debug)]
pub struct VariableAuthentication3CertId {
    pub cert_type: u8,
    pub id_size: u32,
}

/// Descriptor of a counter-authenticated variable write; the certificate
/// data follows this header in the underlying buffer.
#[derive(Clone, Copy, Debug)]
pub struct VariableAuthentication {
    pub monotonic_count: u64,
}

/// Descriptor of a time-authenticated variable write; the certificate data
/// follows this header in the underlying buffer.
#[derive(Clone, Copy, Debug)]
pub struct VariableAuthentication2 {
    pub timestamp: Time,
}

pub const VARIABLE_AUTHENTICATION_3_TIMESTAMP_TYPE: u32 = 0x1u32;

pub const VARIABLE_AUTHENTICATION_3_NONCE_TYPE: u32 = 0x2u32;

/// Descriptor of an enhanced-authentication variable write.
#[derive(Clone, Copy, Debug)]
pub struct VariableAuthentication3 {
    pub version: u8,
    pub auth_type: u8,
    pub metadata_size: u32,
    pub flags: u32,
}

/// Nonce of an enhanced-authentication variable write; the nonce bytes
/// follow this header in the underlying buffer.
#[derive(Clone, Copy, Debug)]
pub struct VariableAuthentication3Nonce {
    pub nonce_size: u32,
}

/// Identifier of the variable that records hardware errors.
pub fn hardware_error_variable_guid() -> (g: Guid)
    ensures
        g@ == guid_encode(
            0x414e6bdd,
            0xe47b,
            0x47cc,
            0xb2,
            0x44,
            seq![0xbbu8, 0x61, 0x02, 0x0c, 0xf5, 0x16],
        ),
{
    let node: [u8; 6] = [0xbb, 0x61, 0x02, 0x0c, 0xf5, 0x16];
    let g = Guid::from_native(0x414e6bdd, 0xe47b, 0x47cc, 0xb2, 0x44, &node);
    proof {
        assert(node@ =~= seq![0xbbu8, 0x61, 0x02, 0x0c, 0xf5, 0x16]);
    }
    g
}

//
// Virtual mappings. Once boot services are exited, any virtual address
// mapping may be applied, as long as the firmware is informed of it.
//
pub const OPTIONAL_POINTER: u32 = 0x00000001u32;

//
// System reset.
//
pub type ResetType = u32;

pub const RESET_COLD: ResetType = 0x00000000;

pub const RESET_WARM: ResetType = 0x00000001;

pub const RESET_SHUTDOWN: ResetType = 0x00000002;

pub const RESET_PLATFORM_SPECIFIC: ResetType = 0x00000003;

//
// Update capsules: blobs pushed into the firmware to be run either
// immediately or on the next reboot.
//

/// Either the physical address of a data block or the physical address of
/// another descriptor array; which one is meant is decided by the `length`
/// field of the surrounding descriptor, so a single 64-bit address covers
/// both readings of the interface's union.
pub type CapsuleBlockDescriptorUnion = PhysicalAddress;

/// One entry of a scatter-gather list describing a capsule.
#[derive(Clone, Copy, Debug)]
pub struct CapsuleBlockDescriptor {
    pub length: u64,
    pub data: CapsuleBlockDescriptorUnion,
}

pub const CAPSULE_FLAGS_PERSIST_ACROSS_RESET: u32 = 0x00010000u32;

pub const CAPSULE_FLAGS_POPULATE_SYSTEM_TABLE: u32 = 0x00020000u32;

pub const CAPSULE_FLAGS_INITIATE_RESET: u32 = 0x00040000u32;

/// Header of a capsule image.
#[derive(Clone, Copy, Debug)]
pub struct CapsuleHeader {
    pub capsule_guid: Guid,
    pub header_size: u32,
    pub flags: u32,
    pub capsule_image_size: u32,
}

pub const OS_INDICATIONS_BOOT_TO_FW_UI: u64 = 0x0000000000000001u64;

pub const OS_INDICATIONS_TIMESTAMP_REVOCATION: u64 = 0x0000000000000002u64;

pub const OS_INDICATIONS_FILE_CAPSULE_DELIVERY_SUPPORTED: u64 = 0x0000000000000004u64;

pub const OS_INDICATIONS_FMP_CAPSULE_SUPPORTED: u64 = 0x0000000000000008u64;

pub const OS_INDICATIONS_CAPSULE_RESULT_VAR_SUPPORTED: u64 = 0x0000000000000010u64;

pub const OS_INDICATIONS_START_OS_RECOVERY: u64 = 0x0000000000000020u64;

pub const OS_INDICATIONS_START_PLATFORM_RECOVERY: u64 = 0x0000000000000040u64;

/// Identifier of the variables that report capsule processing results.
pub fn capsule_report_guid() -> (g: Guid)
    ensures
        g@ == guid_encode(
            0x39b68c46,
            0xf7fb,
            0x441b,
            0xb6,
            0xec,
            seq![0x16u8, 0xb0, 0xf6, 0x98, 0x21, 0xf3],
        ),
{
    let node: [u8; 6] = [0x16, 0xb0, 0xf6, 0x98, 0x21, 0xf3];
    let g = Guid::from_native(0x39b68c46, 0xf7fb, 0x441b, 0xb6, 0xec, &node);
    proof {
        assert(node@ =~= seq![0x16u8, 0xb0, 0xf6, 0x98, 0x21, 0xf3]);
    }
    g
}

/// Header of a capsule processing result variable.
#[derive(Clone, Copy, Debug)]
pub struct CapsuleResultVariableHeader {
    pub variable_total_size: u32,
    pub reserved: u32,
    pub capsule_guid: Guid,
    pub capsule_processed: Time,
    pub capsule_status: Status,
}

/// Firmware-management result of a capsule; the target file name follows
/// this header in the underlying buffer.
#[derive(Clone, Copy, Debug)]
pub struct CapsuleResultVariableFMP {
    pub version: u16,
    pub payload_index: u8,
    pub update_image_index: u8,
    pub update_image_type_id: Guid,
}

//
// Tasks. The firmware runs a simplified task model on a single CPU; timer
// interrupts drive registered callbacks, ordered by task priority levels.
//
pub const EVT_TIMER: u32 = 0x80000000u32;

pub const EVT_RUNTIME: u32 = 0x40000000u32;

pub const EVT_NOTIFY_WAIT: u32 = 0x00000100u32;

pub const EVT_NOTIFY_SIGNAL: u32 = 0x00000200u32;

pub const EVT_SIGNAL_EXIT_BOOT_SERVICES: u32 = 0x00000201u32;

pub const EVT_SIGNAL_VIRTUAL_ADDRESS_CHANGE: u32 = 0x60000202u32;

pub type EventNotify = ServiceRoutine;

/// Identifier of the event group signalled when boot services exit.
pub fn event_group_exit_boot_services() -> (g: Guid)
    ensures
        g@ == guid_encode(
            0x27abf055,
            0xb1b8,
            0x4c26,
            0x80,
            0x48,
            seq![0x74u8, 0x8f, 0x37, 0xba, 0xa2, 0xdf],
        ),
{
    let node: [u8; 6] = [0x74, 0x8f, 0x37, 0xba, 0xa2, 0xdf];
    let g = Guid::from_native(0x27abf055, 0xb1b8, 0x4c26, 0x80, 0x48, &node);
    proof {
        assert(node@ =~= seq![0x74u8, 0x8f, 0x37, 0xba, 0xa2, 0xdf]);
    }
    g
}

/// Identifier of the event group signalled when the virtual address map
/// changes.
pub fn event_group_virtual_address_change() -> (g: Guid)
    ensures
        g@ == guid_encode(
            0x13fa7698,
            0xc831,
            0x49c7,
            0x87,
            0xea,
            seq![0x8fu8, 0x43, 0xfc, 0xc2, 0x51, 0x96],
        ),
{
    let node: [u8; 6] = [0x8f, 0x43, 0xfc, 0xc2, 0x51, 0x96];
    let g = Guid::from_native(0x13fa7698, 0xc831, 0x49c7, 0x87, 0xea, &node);
    proof {
        assert(node@ =~= seq![0x8fu8, 0x43, 0xfc, 0xc2, 0x51, 0x96]);
    }
    g
}

/// Identifier of the event group signalled when the memory map changes.
pub fn event_group_memory_map_change() -> (g: Guid)
    ensures
        g@ == guid_encode(
            0x78bee926,
            0x692f,
            0x48fd,
            0x9e,
            0xdb,
            seq![0x01u8, 0x42, 0x2e, 0xf0, 0xd7, 0xab],
        ),
{
    let node: [u8; 6] = [0x01, 0x42, 0x2e, 0xf0, 0xd7, 0xab];
    let g = Guid::from_native(0x78bee926, 0x692f, 0x48fd, 0x9e, 0xdb, &node);
    proof {
        assert(node@ =~= seq![0x01u8, 0x42, 0x2e, 0xf0, 0xd7, 0xab]);
    }
    g
}

/// Identifier of the event group signalled when the platform is about to
/// boot.
pub fn event_group_ready_to_boot() -> (g: Guid)
    ensures
        g@ == guid_encode(
            0x7ce88fb3,
            0x4bd7,
            0x4679,
            0x87,
            0xa8,
            seq![0xa8u8, 0xd8, 0xde, 0xe5, 0x0d, 0x2b],
        ),
{
    let node: [u8; 6] = [0xa8, 0xd8, 0xde, 0xe5, 0x0d, 0x2b];
    let g = Guid::from_native(0x7ce88fb3, 0x4bd7, 0x4679, 0x87, 0xa8, &node);
    proof {
        assert(node@ =~= seq![0xa8u8, 0xd8, 0xde, 0xe5, 0x0d, 0x2b]);
    }
    g
}

/// Identifier of the event group signalled when the system resets.
pub fn event_group_reset_system() -> (g: Guid)
    ensures
        g@ == guid_encode(
            0x62da6a56,
            0x13fb,
            0x485a,
            0xa8,
            0xda,
            seq![0xa3u8, 0xdd, 0x79, 0x12, 0xcb, 0x6b],
        ),
{
    let node: [u8; 6] = [0xa3, 0xdd, 0x79, 0x12, 0xcb, 0x6b];
    let g = Guid::from_native(0x62da6a56, 0x13fb, 0x485a, 0xa8, 0xda, &node);
    proof {
        assert(node@ =~= seq![0xa3u8, 0xdd, 0x79, 0x12, 0xcb, 0x6b]);
    }
    g
}

pub type TimerDelay = u32;

pub const TIMER_CANCEL: TimerDelay = 0x00000000;

pub const TIMER_PERIODIC: TimerDelay = 0x00000001;

pub const TIMER_RELATIVE: TimerDelay = 0x00000002;

pub const TPL_APPLICATION: Tpl = 4;

pub const TPL_CALLBACK: Tpl = 8;

pub const TPL_NOTIFY: Tpl = 16;

pub const TPL_HIGH_LEVEL: Tpl = 31;

//
// Memory management. The boot services provide pool and page allocation;
// dynamic allocations end when boot services are exited.
//
pub type AllocateType = u32;

pub const ALLOCATE_ANY_PAGES: AllocateType = 0x00000000;

pub const ALLOCATE_MAX_ADDRESS: AllocateType = 0x00000001;

pub const ALLOCATE_ADDRESS: AllocateType = 0x00000002;

pub type MemoryType = u32;

pub const RESERVED_MEMORY_TYPE: MemoryType = 0x00000000;

pub const LOADER_CODE: MemoryType = 0x00000001;

pub const LOADER_DATA: MemoryType = 0x00000002;

pub const BOOT_SERVICES_CODE: MemoryType = 0x00000003;

pub const BOOT_SERVICES_DATA: MemoryType = 0x00000004;

pub const RUNTIME_SERVICES_CODE: MemoryType = 0x00000005;

pub const RUNTIME_SERVICES_DATA: MemoryType = 0x00000006;

pub const CONVENTIONAL_MEMORY: MemoryType = 0x00000007;

pub const UNUSABLE_MEMORY: MemoryType = 0x00000008;

pub const ACPI_RECLAIM_MEMORY: MemoryType = 0x00000009;

pub const ACPI_MEMORY_NVS: MemoryType = 0x0000000a;

pub const MEMORY_MAPPED_IO: MemoryType = 0x0000000b;

pub const MEMORY_MAPPED_IO_PORT_SPACE: MemoryType = 0x0000000c;

pub const PAL_CODE: MemoryType = 0x0000000d;

pub const PERSISTENT_MEMORY: MemoryType = 0x0000000e;

pub const MEMORY_UC: u64 = 0x0000000000000001u64;

pub const MEMORY_WC: u64 = 0x0000000000000002u64;

pub const MEMORY_WT: u64 = 0x0000000000000004u64;

pub const MEMORY_WB: u64 = 0x0000000000000008u64;

pub const MEMORY_UCE: u64 = 0x0000000000000010u64;

pub const MEMORY_WP: u64 = 0x0000000000001000u64;

pub const MEMORY_RP: u64 = 0x0000000000002000u64;

pub const MEMORY_XP: u64 = 0x0000000000004000u64;

pub const MEMORY_NV: u64 = 0x0000000000008000u64;

pub const MEMORY_MORE_RELIABLE: u64 = 0x0000000000010000u64;

pub const MEMORY_RO: u64 = 0x0000000000020000u64;

pub const MEMORY_RUNTIME: u64 = 0x8000000000000000u64;

pub const MEMORY_DESCRIPTOR_VERSION: u32 = 0x00000001u32;

/// One entry of the memory map.
#[derive(Clone, Copy, Debug)]
pub struct MemoryDescriptor {
    pub memory_type: u32,
    pub physical_start: PhysicalAddress,
    pub virtual_start: VirtualAddress,
    pub number_of_pages: u64,
    pub attribute: u64,
}

//
// Protocol management. Drivers and devices communicate through protocols
// and refer to common state through handles.
//
pub type InterfaceType = u32;

pub const NATIVE_INTERFACE: InterfaceType = 0x00000000;

pub type LocateSearchType = u32;

pub const ALL_HANDLES: LocateSearchType = 0x00000000;

pub const BY_REGISTER_NOTIFY: LocateSearchType = 0x00000001;

pub const BY_PROTOCOL: LocateSearchType = 0x00000002;

pub const OPEN_PROTOCOL_BY_HANDLE_PROTOCOL: u32 = 0x00000001u32;

pub const OPEN_PROTOCOL_GET_PROTOCOL: u32 = 0x00000002u32;

pub const OPEN_PROTOCOL_TEST_PROTOCOL: u32 = 0x00000004u32;

pub const OPEN_PROTOCOL_BY_CHILD_CONTROLLER: u32 = 0x00000008u32;

pub const OPEN_PROTOCOL_BY_DRIVER: u32 = 0x00000010u32;

pub const OPEN_PROTOCOL_EXCLUSIVE: u32 = 0x00000020u32;

/// One record of which agent holds a protocol open on a handle.
#[derive(Clone, Copy, Debug)]
pub struct OpenProtocolInformationEntry {
    pub agent_handle: Handle,
    pub controller_handle: Handle,
    pub attributes: u32,
    pub open_count: u32,
}

//
// Configuration tables: auxiliary tables of the system table, indexed by
// their identifier.
//

/// Header of one configuration table entry.
#[derive(Clone, Copy, Debug)]
pub struct ConfigurationTable {
    pub vendor_guid: Guid,
    pub vendor_table: DataAddress,
}

/// Identifier of the properties configuration table.
pub fn properties_table_guid() -> (g: Guid)
    ensures
        g@ == guid_encode(
            0x880aaca3,
            0x4adc,
            0x4a04,
            0x90,
            0x79,
            seq![0xb7u8, 0x47, 0x34, 0x08, 0x25, 0xe5],
        ),
{
    let node: [u8; 6] = [0xb7, 0x47, 0x34, 0x08, 0x25, 0xe5];
    let g = Guid::from_native(0x880aaca3, 0x4adc, 0x4a04, 0x90, 0x79, &node);
    proof {
        assert(node@ =~= seq![0xb7u8, 0x47, 0x34, 0x08, 0x25, 0xe5]);
    }
    g
}

pub const PROPERTIES_TABLE_VERSION: u32 = 0x00010000u32;

pub const PROPERTIES_RUNTIME_MEMORY_PROTECTION_NON_EXECUTABLE_PE_DATA: u64 = 0x1u64;

/// The properties configuration table.
#[derive(Clone, Copy, Debug)]
pub struct PropertiesTable {
    pub version: u32,
    pub length: u32,
    pub memory_protection_attribute: u64,
}

/// Identifier of the memory attributes configuration table.
pub fn memory_attributes_table_guid() -> (g: Guid)
    ensures
        g@ == guid_encode(
            0xdcfa911d,
            0x26eb,
            0x469f,
            0xa2,
            0x20,
            seq![0x38u8, 0xb7, 0xdc, 0x46, 0x12, 0x20],
        ),
{
    let node: [u8; 6] = [0x38, 0xb7, 0xdc, 0x46, 0x12, 0x20];
    let g = Guid::from_native(0xdcfa911d, 0x26eb, 0x469f, 0xa2, 0x20, &node);
    proof {
        assert(node@ =~= seq![0x38u8, 0xb7, 0xdc, 0x46, 0x12, 0x20]);
    }
    g
}

pub const MEMORY_ATTRIBUTES_TABLE_VERSION: u32 = 0x00000001u32;

/// Header of the memory attributes configuration table; its entries follow
/// the header in the underlying buffer, `descriptor_size` bytes apart.
#[derive(Clone, Copy, Debug)]
pub struct MemoryAttributesTable {
    pub version: u32,
    pub number_of_entries: u32,
    pub descriptor_size: u32,
    pub reserved: u32,
}

//
// Global tables. The firmware keeps no global state; everything is reached
// through the system table handed to the entry point, which carries the
// runtime and boot service tables and the configuration tables.
//
pub const SPECIFICATION_REVISION: u32 = SYSTEM_TABLE_REVISION;

/// Header common to all service tables.
#[derive(Clone, Copy, Debug)]
pub struct TableHeader {
    pub signature: u64,
    pub revision: u32,
    pub header_size: u32,
    pub crc32: u32,
    pub reserved: u32,
}

pub const RUNTIME_SERVICES_SIGNATURE: u64 = 0x56524553544e5552u64;

pub const RUNTIME_SERVICES_REVISION: u32 = SPECIFICATION_REVISION;

/// The runtime services table: the routines that stay callable after boot
/// services have been exited. Each slot holds the opaque entry-point address
/// of the corresponding firmware routine.
pub struct RuntimeServices {
    pub hdr: TableHeader,
    pub get_time: ServiceRoutine,
    pub set_time: ServiceRoutine,
    pub get_wakeup_time: ServiceRoutine,
    pub set_wakeup_time: ServiceRoutine,
    pub set_virtual_address_map: ServiceRoutine,
    pub convert_pointer: ServiceRoutine,
    pub get_variable: ServiceRoutine,
    pub get_next_variable_name: ServiceRoutine,
    pub set_variable: ServiceRoutine,
    pub get_next_high_mono_count: ServiceRoutine,
    pub reset_system: ServiceRoutine,
    pub update_capsule: ServiceRoutine,
    pub query_capsule_capabilities: ServiceRoutine,
    pub query_variable_info: ServiceRoutine,
}

pub const BOOT_SERVICES_SIGNATURE: u64 = 0x56524553544f4f42u64;

pub const BOOT_SERVICES_REVISION: u32 = SPECIFICATION_REVISION;

/// The boot services table: the routines available until boot services are
/// exited. Each slot holds the opaque entry-point address of the
/// corresponding firmware routine.
pub struct BootServices {
    pub hdr: TableHeader,
    pub raise_tpl: ServiceRoutine,
    pub restore_tpl: ServiceRoutine,
    pub allocate_pages: ServiceRoutine,
    pub free_pages: ServiceRoutine,
    pub get_memory_map: ServiceRoutine,
    pub allocate_pool: ServiceRoutine,
    pub free_pool: ServiceRoutine,
    pub create_event: ServiceRoutine,
    pub set_timer: ServiceRoutine,
    pub wait_for_event: ServiceRoutine,
    pub signal_event: ServiceRoutine,
    pub close_event: ServiceRoutine,
    pub check_event: ServiceRoutine,
    pub install_protocol_interface: ServiceRoutine,
    pub reinstall_protocol_interface: ServiceRoutine,
    pub uninstall_protocol_interface: ServiceRoutine,
    pub handle_protocol: ServiceRoutine,
    pub reserved: DataAddress,
    pub register_protocol_notify: ServiceRoutine,
    pub locate_handle: ServiceRoutine,
    pub locate_device_path: ServiceRoutine,
    pub install_configuration_table: ServiceRoutine,
    pub load_image: ServiceRoutine,
    pub start_image: ServiceRoutine,
    pub exit: ServiceRoutine,
    pub unload_image: ServiceRoutine,
    pub exit_boot_services: ServiceRoutine,
    pub get_next_monotonic_count: ServiceRoutine,
    pub stall: ServiceRoutine,
    pub set_watchdog_timer: ServiceRoutine,
    pub connect_controller: ServiceRoutine,
    pub disconnect_controller: ServiceRoutine,
    pub open_protocol: ServiceRoutine,
    pub close_protocol: ServiceRoutine,
    pub open_protocol_information: ServiceRoutine,
    pub protocols_per_handle: ServiceRoutine,
    pub locate_handle_buffer: ServiceRoutine,
    pub locate_protocol: ServiceRoutine,
    pub install_multiple_protocol_interfaces: ServiceRoutine,
    pub uninstall_multiple_protocol_interfaces: ServiceRoutine,
    pub calculate_crc32: ServiceRoutine,
    pub copy_mem: ServiceRoutine,
    pub set_mem: ServiceRoutine,
    pub create_event_ex: ServiceRoutine,
}

pub const SYSTEM_TABLE_REVISION_2_70: u32 = (2 << 16) | (70);

pub const SYSTEM_TABLE_REVISION_2_60: u32 = (2 << 16) | (60);

pub const SYSTEM_TABLE_REVISION_2_50: u32 = (2 << 16) | (50);

pub const SYSTEM_TABLE_REVISION_2_40: u32 = (2 << 16) | (40);

pub const SYSTEM_TABLE_REVISION_2_31: u32 = (2 << 16) | (31);

pub const SYSTEM_TABLE_REVISION_2_30: u32 = (2 << 16) | (30);

pub const SYSTEM_TABLE_REVISION_2_20: u32 = (2 << 16) | (20);

pub const SYSTEM_TABLE_REVISION_2_10: u32 = (2 << 16) | (10);

pub const SYSTEM_TABLE_REVISION_2_00: u32 = (2 << 16) | (0);

pub const SYSTEM_TABLE_REVISION_1_10: u32 = (1 << 16) | (10);

pub const SYSTEM_TABLE_REVISION_1_02: u32 = (1 << 16) | (2);

pub const SYSTEM_TABLE_SIGNATURE: u64 = 0x5453595320494249u64;

pub const SYSTEM_TABLE_REVISION: u32 = SYSTEM_TABLE_REVISION_2_70;

/// The system table handed to every entry point: console handles, the
/// addresses of the service tables, and the configuration table array.
pub struct SystemTable {
    pub hdr: TableHeader,
    pub firmware_vendor: DataAddress,
    pub firmware_revision: u32,
    pub console_in_handle: Handle,
    pub con_in: DataAddress,
    pub console_out_handle: Handle,
    pub con_out: DataAddress,
    pub standard_error_handle: Handle,
    pub std_err: DataAddress,
    pub runtime_services: DataAddress,
    pub boot_services: DataAddress,
    pub number_of_table_entries: usize,
    pub configuration_table: DataAddress,
}

} // verus!
