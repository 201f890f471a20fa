//! Random Number Generator Protocol
//!
//! Provides random numbers for use in applications, or entropy for seeding
//! other random number generators.

use vstd::prelude::*;
use crate::base::{Guid, ServiceRoutine, guid_encode};

verus! {

/// Identifier of this protocol in the firmware's protocol database.
pub fn protocol_guid() -> (g: Guid)
    ensures
        g@ == guid_encode(
            0x3152bca5,
            0xeade,
            0x433d,
            0x86,
            0x2e,
            seq![0xc0u8, 0x1c, 0xdc, 0x29, 0x1f, 0x44],
        ),
{
    let node: [u8; 6] = [0xc0, 0x1c, 0xdc, 0x29, 0x1f, 0x44];
    let g = Guid::from_native(0x3152bca5, 0xeade, 0x433d, 0x86, 0x2e, &node);
    proof {
        assert(node@ =~= seq![0xc0u8, 0x1c, 0xdc, 0x29, 0x1f, 0x44]);
    }
    g
}

/// A generator algorithm is named by an identifier of its own.
pub type Algorithm = Guid;

/// Identifier of the NIST SP 800-90 Hash-DRBG algorithm with a 256-bit
/// seed.
pub fn algorithm_sp800_90_hash_256_guid() -> (g: Algorithm)
    ensures
        g@ == guid_encode(
            0xa7af67cb,
            0x603b,
            0x4d42,
            0xba,
            0x21,
            seq![0x70u8, 0xbf, 0xb6, 0x29, 0x3f, 0x96],
        ),
{
    let node: [u8; 6] = [0x70, 0xbf, 0xb6, 0x29, 0x3f, 0x96];
    let g = Guid::from_native(0xa7af67cb, 0x603b, 0x4d42, 0xba, 0x21, &node);
    proof {
        assert(node@ =~= seq![0x70u8, 0xbf, 0xb6, 0x29, 0x3f, 0x96]);
    }
    g
}

/// Identifier of the NIST SP 800-90 HMAC-DRBG algorithm with a 256-bit
/// seed.
pub fn algorithm_sp800_90_hmac_256_guid() -> (g: Algorithm)
    ensures
        g@ == guid_encode(
            0xc5149b43,
            0xae85,
            0x4f53,
            0x99,
            0x82,
            seq![0xb9u8, 0x43, 0x35, 0xd3, 0xa9, 0xe7],
        ),
{
    let node: [u8; 6] = [0xb9, 0x43, 0x35, 0xd3, 0xa9, 0xe7];
    let g = Guid::from_native(0xc5149b43, 0xae85, 0x4f53, 0x99, 0x82, &node);
    proof {
        assert(node@ =~= seq![0xb9u8, 0x43, 0x35, 0xd3, 0xa9, 0xe7]);
    }
    g
}

/// Identifier of the NIST SP 800-90 CTR-DRBG algorithm with a 256-bit seed.
pub fn algorithm_sp800_90_ctr_256_guid() -> (g: Algorithm)
    ensures
        g@ == guid_encode(
            0x44f0de6e,
            0x4d8c,
            0x4045,
            0xa8,
            0xc7,
            seq![0x4du8, 0xd1, 0x68, 0x85, 0x6b, 0x9e],
        ),
{
    let node: [u8; 6] = [0x4d, 0xd1, 0x68, 0x85, 0x6b, 0x9e];
    let g = Guid::from_native(0x44f0de6e, 0x4d8c, 0x4045, 0xa8, 0xc7, &node);
    proof {
        assert(node@ =~= seq![0x4du8, 0xd1, 0x68, 0x85, 0x6b, 0x9e]);
    }
    g
}

/// Identifier of the ANSI X9.31 algorithm with triple-DES.
pub fn algorithm_x9_31_3des_guid() -> (g: Algorithm)
    ensures
        g@ == guid_encode(
            0x63c4785a,
            0xca34,
            0x4012,
            0xa3,
            0xc8,
            seq![0x0bu8, 0x6a, 0x32, 0x4f, 0x55, 0x46],
        ),
{
    let node: [u8; 6] = [0x0b, 0x6a, 0x32, 0x4f, 0x55, 0x46];
    let g = Guid::from_native(0x63c4785a, 0xca34, 0x4012, 0xa3, 0xc8, &node);
    proof {
        assert(node@ =~= seq![0x0bu8, 0x6a, 0x32, 0x4f, 0x55, 0x46]);
    }
    g
}

/// Identifier of the ANSI X9.31 algorithm with AES.
pub fn algorithm_x9_31_aes_guid() -> (g: Algorithm)
    ensures
        g@ == guid_encode(
            0xacd03321,
            0x777e,
            0x4d3d,
            0xb1,
            0xc8,
            seq![0x20u8, 0xcf, 0xd8, 0x88, 0x20, 0xc9],
        ),
{
    let node: [u8; 6] = [0x20, 0xcf, 0xd8, 0x88, 0x20, 0xc9];
    let g = Guid::from_native(0xacd03321, 0x777e, 0x4d3d, 0xb1, 0xc8, &node);
    proof {
        assert(node@ =~= seq![0x20u8, 0xcf, 0xd8, 0x88, 0x20, 0xc9]);
    }
    g
}

/// Identifier selecting raw entropy from the generator's source.
pub fn algorithm_raw_guid() -> (g: Algorithm)
    ensures
        g@ == guid_encode(
            0xe43176d7,
            0xb6e8,
            0x4827,
            0xb7,
            0x84,
            seq![0x7fu8, 0xfd, 0xc4, 0xb6, 0x85, 0x61],
        ),
{
    let node: [u8; 6] = [0x7f, 0xfd, 0xc4, 0xb6, 0x85, 0x61];
    let g = Guid::from_native(0xe43176d7, 0xb6e8, 0x4827, 0xb7, 0x84, &node);
    proof {
        assert(node@ =~= seq![0x7fu8, 0xfd, 0xc4, 0xb6, 0x85, 0x61]);
    }
    g
}

pub type ProtocolGetInfo = ServiceRoutine;

pub type ProtocolGetRng = ServiceRoutine;

/// Routine table of the protocol, as the firmware lays it out.
pub struct Protocol {
    pub get_info: ProtocolGetInfo,
    pub get_rng: ProtocolGetRng,
}

} // verus!
