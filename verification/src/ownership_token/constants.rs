//! Fixed numbers and addresses of the ownership token.
use vstd::prelude::*;

use crate::address::Address;

verus! {

/// Basis points in a whole.
pub const BPS_DENOMINATOR: u64 = 10_000;

/// The protocol's part of distributed revenue.
pub const AREAL_PROTOCOL_FEE_BPS: u64 = 25;

/// Length of the destination list.
pub const MAX_DESTINATIONS: usize = 10;

/// Least balance that is distributed: 100 dollars, of six decimals.
pub const MIN_DISTRIBUTION_AMOUNT: u64 = 100_000_000;

/// Least time between two distributions: seven days, in seconds.
pub const DISTRIBUTION_COOLDOWN: i64 = 604_800;

/// Most decimals of an ownership token.
pub const MAX_DECIMALS: u8 = 9;

/// Size of a mint account.
pub const SPL_MINT_SIZE: usize = 82;

/// The token metadata program.
pub open spec fn spec_mpl_token_metadata_program() -> Address {
    [
        0x0bu8, 0x70u8, 0x65u8, 0xb1u8, 0xe3u8, 0xd1u8, 0x7cu8, 0x45u8,
        0x38u8, 0x9du8, 0x52u8, 0x7fu8, 0x6bu8, 0x04u8, 0xc3u8, 0xcdu8,
        0x58u8, 0xb8u8, 0x6cu8, 0x73u8, 0x1au8, 0xa0u8, 0xfdu8, 0xb5u8,
        0x49u8, 0xb6u8, 0xd1u8, 0xbcu8, 0x03u8, 0xf8u8, 0x29u8, 0x46u8,
    ]
}

/// The token metadata program.
#[verifier::when_used_as_spec(spec_mpl_token_metadata_program)]
pub fn mpl_token_metadata_program() -> (id: Address)
    ensures
        id == mpl_token_metadata_program(),
{
    [
        0x0bu8, 0x70u8, 0x65u8, 0xb1u8, 0xe3u8, 0xd1u8, 0x7cu8, 0x45u8,
        0x38u8, 0x9du8, 0x52u8, 0x7fu8, 0x6bu8, 0x04u8, 0xc3u8, 0xcdu8,
        0x58u8, 0xb8u8, 0x6cu8, 0x73u8, 0x1au8, 0xa0u8, 0xfdu8, 0xb5u8,
        0x49u8, 0xb6u8, 0xd1u8, 0xbcu8, 0x03u8, 0xf8u8, 0x29u8, 0x46u8,
    ]
}

/// The account that publishes the rent rate.
pub open spec fn spec_rent_sysvar() -> Address {
    [
        0x06u8, 0xa7u8, 0xd5u8, 0x17u8, 0x19u8, 0x2cu8, 0x5cu8, 0x51u8,
        0x21u8, 0x8cu8, 0xc9u8, 0x4cu8, 0x3du8, 0x4au8, 0xf1u8, 0x7fu8,
        0x58u8, 0xdau8, 0xeeu8, 0x08u8, 0x9bu8, 0xa1u8, 0xfdu8, 0x44u8,
        0xe3u8, 0xdbu8, 0xd9u8, 0x8au8, 0x00u8, 0x00u8, 0x00u8, 0x00u8,
    ]
}

/// The account that publishes the rent rate.
#[verifier::when_used_as_spec(spec_rent_sysvar)]
pub fn rent_sysvar() -> (id: Address)
    ensures
        id == rent_sysvar(),
{
    [
        0x06u8, 0xa7u8, 0xd5u8, 0x17u8, 0x19u8, 0x2cu8, 0x5cu8, 0x51u8,
        0x21u8, 0x8cu8, 0xc9u8, 0x4cu8, 0x3du8, 0x4au8, 0xf1u8, 0x7fu8,
        0x58u8, 0xdau8, 0xeeu8, 0x08u8, 0x9bu8, 0xa1u8, 0xfdu8, 0x44u8,
        0xe3u8, 0xdbu8, 0xd9u8, 0x8au8, 0x00u8, 0x00u8, 0x00u8, 0x00u8,
    ]
}

} // verus!
