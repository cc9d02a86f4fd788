//! Known deployment addresses for the active networks, as hex strings and as
//! their byte values.
use crate::address::Address;
use vstd::prelude::*;

verus! {

pub const ENTRY_POINT_MAINNET_V7: &'static str = "0x0000000071727De22E5E9d8BAf0edAc6f37da032";

pub const ENTRY_POINT_SEPOLIA_V7: &'static str = "0x0000000071727De22E5E9d8BAf0edAc6f37da032";

/// Simple-account factory on mainnet.
pub const SIMPLE_ACCOUNT_FACTORY: &'static str = "0x9406Cc6185a346906296840746125a0E44976454";

/// Modular-account factory on the Sepolia test network.
pub const MSA_FACTORY_SEPOLIA: &'static str = "0xc1f3f2dBbe9498FE9A2Fd75dEa6507A57033fe42";

/// Simple-account factory as deployed on a local test chain.
pub const GETH_SIMPLE_ACCOUNT_FACTORY: &'static str =
    "0xe7f1725e7734ce288f8367e1bb143e90bb3f0512";

/// Byte value of `ENTRY_POINT_MAINNET_V7` and `ENTRY_POINT_SEPOLIA_V7`.
pub open spec fn entry_point_v7_bytes() -> Seq<u8> {
    seq![
        0x00u8, 0x00, 0x00, 0x00, 0x71, 0x72, 0x7D, 0xe2, 0x2E, 0x5E, 0x9d, 0x8B, 0xaF, 0x0e,
        0xdA, 0xc6, 0xf3, 0x7d, 0xa0, 0x32,
    ]
}

/// Byte value of `SIMPLE_ACCOUNT_FACTORY`.
pub open spec fn simple_account_factory_bytes() -> Seq<u8> {
    seq![
        0x94u8, 0x06, 0xCc, 0x61, 0x85, 0xa3, 0x46, 0x90, 0x62, 0x96, 0x84, 0x07, 0x46, 0x12,
        0x5a, 0x0E, 0x44, 0x97, 0x64, 0x54,
    ]
}

/// Byte value of `MSA_FACTORY_SEPOLIA`.
pub open spec fn msa_factory_sepolia_bytes() -> Seq<u8> {
    seq![
        0xc1u8, 0xf3, 0xf2, 0xdB, 0xbe, 0x94, 0x98, 0xFE, 0x9A, 0x2F, 0xd7, 0x5d, 0xEa, 0x65,
        0x07, 0xA5, 0x70, 0x33, 0xfe, 0x42,
    ]
}

/// Byte value of `GETH_SIMPLE_ACCOUNT_FACTORY`.
pub open spec fn geth_simple_account_factory_bytes() -> Seq<u8> {
    seq![
        0xe7u8, 0xf1, 0x72, 0x5e, 0x77, 0x34, 0xce, 0x28, 0x8f, 0x83, 0x67, 0xe1, 0xbb, 0x14,
        0x3e, 0x90, 0xbb, 0x3f, 0x05, 0x12,
    ]
}

pub fn entry_point_v7_address() -> (r: Address)
    ensures
        r@ == entry_point_v7_bytes(),
{
    let bytes: Vec<u8> = vec![
        0x00u8, 0x00, 0x00, 0x00, 0x71, 0x72, 0x7D, 0xe2, 0x2E, 0x5E, 0x9d, 0x8B, 0xaF, 0x0e,
        0xdA, 0xc6, 0xf3, 0x7d, 0xa0, 0x32,
    ];
    proof {
        assert(bytes@ =~= entry_point_v7_bytes());
    }
    Address::from_vec_exact(bytes)
}

pub fn simple_account_factory_address() -> (r: Address)
    ensures
        r@ == simple_account_factory_bytes(),
{
    let bytes: Vec<u8> = vec![
        0x94u8, 0x06, 0xCc, 0x61, 0x85, 0xa3, 0x46, 0x90, 0x62, 0x96, 0x84, 0x07, 0x46, 0x12,
        0x5a, 0x0E, 0x44, 0x97, 0x64, 0x54,
    ];
    proof {
        assert(bytes@ =~= simple_account_factory_bytes());
    }
    Address::from_vec_exact(bytes)
}

pub fn msa_factory_sepolia_address() -> (r: Address)
    ensures
        r@ == msa_factory_sepolia_bytes(),
{
    let bytes: Vec<u8> = vec![
        0xc1u8, 0xf3, 0xf2, 0xdB, 0xbe, 0x94, 0x98, 0xFE, 0x9A, 0x2F, 0xd7, 0x5d, 0xEa, 0x65,
        0x07, 0xA5, 0x70, 0x33, 0xfe, 0x42,
    ];
    proof {
        assert(bytes@ =~= msa_factory_sepolia_bytes());
    }
    Address::from_vec_exact(bytes)
}

pub fn geth_simple_account_factory_address() -> (r: Address)
    ensures
        r@ == geth_simple_account_factory_bytes(),
{
    let bytes: Vec<u8> = vec![
        0xe7u8, 0xf1, 0x72, 0x5e, 0x77, 0x34, 0xce, 0x28, 0x8f, 0x83, 0x67, 0xe1, 0xbb, 0x14,
        0x3e, 0x90, 0xbb, 0x3f, 0x05, 0x12,
    ];
    proof {
        assert(bytes@ =~= geth_simple_account_factory_bytes());
    }
    Address::from_vec_exact(bytes)
}

} // verus!
