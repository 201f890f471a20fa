//! Base environment for UEFI development: the fundamental value types of the
//! firmware interface (status codes, identifiers, characters), together with
//! the protocol and system-table records that mirror the firmware's binary
//! layout.
//!
//! The two components with real behaviour live in [`base`]: the status-code
//! classifier, which sorts a machine word into success, warning, or error by
//! its two highest bits, and the identifier codec, which builds the canonical
//! big-endian 16-byte form of an identifier from either of two literal
//! conventions. Both carry full contracts, and the laws that relate them are
//! stated and proved beside them.

pub mod base;
pub mod efi;
pub mod protocols;
pub mod system;
