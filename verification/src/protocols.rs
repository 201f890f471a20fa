//! Protocols of the firmware interface.
//!
//! The specification splits most of its non-core parts into separate
//! protocols. Each protocol lives in a module of its own, so it is clearly
//! defined where a symbol belongs.

pub mod block_io;
pub mod debugport;
pub mod decompress;
pub mod device_path;
pub mod device_path_to_text;
pub mod device_path_utilities;
pub mod disk_io;
pub mod disk_io2;
pub mod driver_binding;
pub mod driver_diagnostics2;
pub mod file;
pub mod hii_database;
pub mod hii_font;
pub mod hii_font_ex;
pub mod hii_package_list;
pub mod hii_string;
pub mod ip6;
pub mod managed_network;
pub mod mp_services;
pub mod rng;
pub mod shell_parameters;
pub mod simple_network;
pub mod simple_text_input;
pub mod simple_text_input_ex;
pub mod simple_text_output;
pub mod tcp6;
pub mod tcp6_service_binding;
pub mod timestamp;
