//! Flat interface namespace.
//!
//! Re-exports the base and system symbols in a single, flat namespace, so
//! they can be referred to with the same names the reference C
//! implementation uses. The individual protocols keep their own submodules
//! under [`crate::protocols`].

pub use crate::base::Boolean;
pub use crate::base::Char8;
pub use crate::base::Char16;
pub use crate::base::Guid;
pub use crate::base::Status;
pub use crate::base::Handle;
pub use crate::base::Event;
pub use crate::base::Lba;
pub use crate::base::Tpl;
pub use crate::base::PhysicalAddress;
pub use crate::base::VirtualAddress;
pub use crate::base::ImageEntryPoint;
pub use crate::base::MacAddress;
pub use crate::base::Ipv4Address;
pub use crate::base::Ipv6Address;
pub use crate::base::IpAddress;

pub use crate::system::TIME_ADJUST_DAYLIGHT;
pub use crate::system::TIME_IN_DAYLIGHT;
pub use crate::system::UNSPECIFIED_TIMEZONE;
pub use crate::system::Time;
pub use crate::system::TimeCapabilities;

pub use crate::system::VARIABLE_NON_VOLATILE;
pub use crate::system::VARIABLE_BOOTSERVICE_ACCESS;
pub use crate::system::VARIABLE_RUNTIME_ACCESS;
pub use crate::system::VARIABLE_HARDWARE_ERROR_RECORD;
pub use crate::system::VARIABLE_AUTHENTICATED_WRITE_ACCESS;
pub use crate::system::VARIABLE_TIME_BASED_AUTHENTICATED_WRITE_ACCESS;
pub use crate::system::VARIABLE_APPEND_WRITE;
pub use crate::system::VARIABLE_ENHANCED_AUTHENTICATED_ACCESS;
pub use crate::system::VARIABLE_AUTHENTICATION_3_CERT_ID_SHA256;
pub use crate::system::VariableAuthentication3CertId;
pub use crate::system::VariableAuthentication;
pub use crate::system::VariableAuthentication2;
pub use crate::system::VARIABLE_AUTHENTICATION_3_TIMESTAMP_TYPE;
pub use crate::system::VARIABLE_AUTHENTICATION_3_NONCE_TYPE;
pub use crate::system::VariableAuthentication3;
pub use crate::system::VariableAuthentication3Nonce;
pub use crate::system::hardware_error_variable_guid;

pub use crate::system::OPTIONAL_POINTER;

pub use crate::system::ResetType;
pub use crate::system::RESET_COLD;
pub use crate::system::RESET_WARM;
pub use crate::system::RESET_SHUTDOWN;
pub use crate::system::RESET_PLATFORM_SPECIFIC;

pub use crate::system::CapsuleBlockDescriptorUnion;
pub use crate::system::CapsuleBlockDescriptor;
pub use crate::system::CAPSULE_FLAGS_PERSIST_ACROSS_RESET;
pub use crate::system::CAPSULE_FLAGS_POPULATE_SYSTEM_TABLE;
pub use crate::system::CAPSULE_FLAGS_INITIATE_RESET;
pub use crate::system::CapsuleHeader;
pub use crate::system::OS_INDICATIONS_BOOT_TO_FW_UI;
pub use crate::system::OS_INDICATIONS_TIMESTAMP_REVOCATION;
pub use crate::system::OS_INDICATIONS_FILE_CAPSULE_DELIVERY_SUPPORTED;
pub use crate::system::OS_INDICATIONS_FMP_CAPSULE_SUPPORTED;
pub use crate::system::OS_INDICATIONS_CAPSULE_RESULT_VAR_SUPPORTED;
pub use crate::system::OS_INDICATIONS_START_OS_RECOVERY;
pub use crate::system::OS_INDICATIONS_START_PLATFORM_RECOVERY;
pub use crate::system::capsule_report_guid;
pub use crate::system::CapsuleResultVariableHeader;
pub use crate::system::CapsuleResultVariableFMP;

pub use crate::system::EVT_TIMER;
pub use crate::system::EVT_RUNTIME;
pub use crate::system::EVT_NOTIFY_WAIT;
pub use crate::system::EVT_NOTIFY_SIGNAL;
pub use crate::system::EVT_SIGNAL_EXIT_BOOT_SERVICES;
pub use crate::system::EVT_SIGNAL_VIRTUAL_ADDRESS_CHANGE;
pub use crate::system::EventNotify;
pub use crate::system::event_group_exit_boot_services;
pub use crate::system::event_group_virtual_address_change;
pub use crate::system::event_group_memory_map_change;
pub use crate::system::event_group_ready_to_boot;
pub use crate::system::event_group_reset_system;
pub use crate::system::TimerDelay;
pub use crate::system::TIMER_CANCEL;
pub use crate::system::TIMER_PERIODIC;
pub use crate::system::TIMER_RELATIVE;
pub use crate::system::TPL_APPLICATION;
pub use crate::system::TPL_CALLBACK;
pub use crate::system::TPL_NOTIFY;
pub use crate::system::TPL_HIGH_LEVEL;

pub use crate::system::AllocateType;
pub use crate::system::MemoryType;
pub use crate::system::MEMORY_UC;
pub use crate::system::MEMORY_WC;
pub use crate::system::MEMORY_WT;
pub use crate::system::MEMORY_WB;
pub use crate::system::MEMORY_UCE;
pub use crate::system::MEMORY_WP;
pub use crate::system::MEMORY_RP;
pub use crate::system::MEMORY_XP;
pub use crate::system::MEMORY_NV;
pub use crate::system::MEMORY_MORE_RELIABLE;
pub use crate::system::MEMORY_RO;
pub use crate::system::MEMORY_RUNTIME;
pub use crate::system::MEMORY_DESCRIPTOR_VERSION;
pub use crate::system::MemoryDescriptor;

pub use crate::system::InterfaceType;
pub use crate::system::LocateSearchType;
pub use crate::system::OPEN_PROTOCOL_BY_HANDLE_PROTOCOL;
pub use crate::system::OPEN_PROTOCOL_GET_PROTOCOL;
pub use crate::system::OPEN_PROTOCOL_TEST_PROTOCOL;
pub use crate::system::OPEN_PROTOCOL_BY_CHILD_CONTROLLER;
pub use crate::system::OPEN_PROTOCOL_BY_DRIVER;
pub use crate::system::OPEN_PROTOCOL_EXCLUSIVE;
pub use crate::system::OpenProtocolInformationEntry;

pub use crate::system::ConfigurationTable;
pub use crate::system::properties_table_guid;
pub use crate::system::PROPERTIES_TABLE_VERSION;
pub use crate::system::PROPERTIES_RUNTIME_MEMORY_PROTECTION_NON_EXECUTABLE_PE_DATA;
pub use crate::system::PropertiesTable;
pub use crate::system::memory_attributes_table_guid;
pub use crate::system::MEMORY_ATTRIBUTES_TABLE_VERSION;
pub use crate::system::MemoryAttributesTable;

pub use crate::system::SPECIFICATION_REVISION;
pub use crate::system::TableHeader;
pub use crate::system::RUNTIME_SERVICES_SIGNATURE;
pub use crate::system::RUNTIME_SERVICES_REVISION;
pub use crate::system::RuntimeServices;
pub use crate::system::BOOT_SERVICES_SIGNATURE;
pub use crate::system::BOOT_SERVICES_REVISION;
pub use crate::system::BootServices;
pub use crate::system::SYSTEM_TABLE_SIGNATURE;
pub use crate::system::SYSTEM_TABLE_REVISION_2_70;
pub use crate::system::SYSTEM_TABLE_REVISION_2_60;
pub use crate::system::SYSTEM_TABLE_REVISION_2_50;
pub use crate::system::SYSTEM_TABLE_REVISION_2_40;
pub use crate::system::SYSTEM_TABLE_REVISION_2_31;
pub use crate::system::SYSTEM_TABLE_REVISION_2_30;
pub use crate::system::SYSTEM_TABLE_REVISION_2_20;
pub use crate::system::SYSTEM_TABLE_REVISION_2_10;
pub use crate::system::SYSTEM_TABLE_REVISION_2_00;
pub use crate::system::SYSTEM_TABLE_REVISION_1_10;
pub use crate::system::SYSTEM_TABLE_REVISION_1_02;
pub use crate::system::SystemTable;
