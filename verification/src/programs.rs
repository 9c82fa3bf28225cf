//! Addresses of the programs that the two programs rely on.
use vstd::prelude::*;

use crate::address::{zero_address, Address};

verus! {

/// The token program.
pub open spec fn spec_spl_token_program() -> Address {
    [
        0x06u8, 0xddu8, 0xf6u8, 0xe1u8, 0xd7u8, 0x65u8, 0xa1u8, 0x93u8,
        0xd9u8, 0xcbu8, 0xe1u8, 0x46u8, 0xceu8, 0xebu8, 0x79u8, 0xacu8,
        0x1cu8, 0xb4u8, 0x85u8, 0xedu8, 0x5fu8, 0x5bu8, 0x37u8, 0x91u8,
        0x3au8, 0x8cu8, 0xf5u8, 0x85u8, 0x7eu8, 0xffu8, 0x00u8, 0xa9u8,
    ]
}

/// The token program.
#[verifier::when_used_as_spec(spec_spl_token_program)]
pub fn spl_token_program() -> (id: Address)
    ensures
        id == spl_token_program(),
{
    [
        0x06u8, 0xddu8, 0xf6u8, 0xe1u8, 0xd7u8, 0x65u8, 0xa1u8, 0x93u8,
        0xd9u8, 0xcbu8, 0xe1u8, 0x46u8, 0xceu8, 0xebu8, 0x79u8, 0xacu8,
        0x1cu8, 0xb4u8, 0x85u8, 0xedu8, 0x5fu8, 0x5bu8, 0x37u8, 0x91u8,
        0x3au8, 0x8cu8, 0xf5u8, 0x85u8, 0x7eu8, 0xffu8, 0x00u8, 0xa9u8,
    ]
}

/// The associated-token-account program.
pub open spec fn spec_associated_token_program() -> Address {
    [
        0x8cu8, 0x97u8, 0x25u8, 0x8fu8, 0x4eu8, 0x24u8, 0x89u8, 0xf1u8,
        0xbbu8, 0x3du8, 0x10u8, 0x29u8, 0x14u8, 0x8eu8, 0x0du8, 0x83u8,
        0x0bu8, 0x5au8, 0x13u8, 0x99u8, 0xdau8, 0xffu8, 0x10u8, 0x84u8,
        0x04u8, 0x8eu8, 0x7bu8, 0xd8u8, 0xdbu8, 0xe9u8, 0xf8u8, 0x59u8,
    ]
}

/// The associated-token-account program.
#[verifier::when_used_as_spec(spec_associated_token_program)]
pub fn associated_token_program() -> (id: Address)
    ensures
        id == associated_token_program(),
{
    [
        0x8cu8, 0x97u8, 0x25u8, 0x8fu8, 0x4eu8, 0x24u8, 0x89u8, 0xf1u8,
        0xbbu8, 0x3du8, 0x10u8, 0x29u8, 0x14u8, 0x8eu8, 0x0du8, 0x83u8,
        0x0bu8, 0x5au8, 0x13u8, 0x99u8, 0xdau8, 0xffu8, 0x10u8, 0x84u8,
        0x04u8, 0x8eu8, 0x7bu8, 0xd8u8, 0xdbu8, 0xe9u8, 0xf8u8, 0x59u8,
    ]
}

/// The yield distribution program.
pub open spec fn spec_yd_program_id() -> Address {
    [
        0x08u8, 0x06u8, 0xb9u8, 0xa3u8, 0xaeu8, 0xcdu8, 0x1bu8, 0xecu8,
        0xb0u8, 0x2au8, 0xf2u8, 0x1bu8, 0x03u8, 0x64u8, 0xd9u8, 0x29u8,
        0xfbu8, 0xb1u8, 0x02u8, 0x21u8, 0x7fu8, 0x1au8, 0x93u8, 0xd2u8,
        0x89u8, 0x99u8, 0xebu8, 0xc8u8, 0xbfu8, 0x60u8, 0xa0u8, 0xaau8,
    ]
}

/// The yield distribution program.
#[verifier::when_used_as_spec(spec_yd_program_id)]
pub fn yd_program_id() -> (id: Address)
    ensures
        id == yd_program_id(),
{
    [
        0x08u8, 0x06u8, 0xb9u8, 0xa3u8, 0xaeu8, 0xcdu8, 0x1bu8, 0xecu8,
        0xb0u8, 0x2au8, 0xf2u8, 0x1bu8, 0x03u8, 0x64u8, 0xd9u8, 0x29u8,
        0xfbu8, 0xb1u8, 0x02u8, 0x21u8, 0x7fu8, 0x1au8, 0x93u8, 0xd2u8,
        0x89u8, 0x99u8, 0xebu8, 0xc8u8, 0xbfu8, 0x60u8, 0xa0u8, 0xaau8,
    ]
}

/// The ownership-token program.
pub open spec fn spec_ot_program_id() -> Address {
    [
        0x0bu8, 0xeau8, 0x66u8, 0xb6u8, 0xadu8, 0xc5u8, 0x50u8, 0xb8u8,
        0xe1u8, 0x4au8, 0x03u8, 0x75u8, 0x5du8, 0x55u8, 0xdcu8, 0x40u8,
        0x52u8, 0x1au8, 0xa9u8, 0x2au8, 0xf7u8, 0x06u8, 0xfbu8, 0x25u8,
        0x16u8, 0xbfu8, 0xc4u8, 0xc7u8, 0xf7u8, 0x6bu8, 0x12u8, 0x27u8,
    ]
}

/// The ownership-token program.
#[verifier::when_used_as_spec(spec_ot_program_id)]
pub fn ot_program_id() -> (id: Address)
    ensures
        id == ot_program_id(),
{
    [
        0x0bu8, 0xeau8, 0x66u8, 0xb6u8, 0xadu8, 0xc5u8, 0x50u8, 0xb8u8,
        0xe1u8, 0x4au8, 0x03u8, 0x75u8, 0x5du8, 0x55u8, 0xdcu8, 0x40u8,
        0x52u8, 0x1au8, 0xa9u8, 0x2au8, 0xf7u8, 0x06u8, 0xfbu8, 0x25u8,
        0x16u8, 0xbfu8, 0xc4u8, 0xc7u8, 0xf7u8, 0x6bu8, 0x12u8, 0x27u8,
    ]
}

/// The reward-token engine.
pub open spec fn spec_rwt_engine_program_id() -> Address {
    [
        0x06u8, 0x47u8, 0x3du8, 0x57u8, 0x5au8, 0xeeu8, 0x84u8, 0xb9u8,
        0x31u8, 0xd6u8, 0xc0u8, 0x90u8, 0x1eu8, 0x42u8, 0xc6u8, 0xb5u8,
        0xf4u8, 0x57u8, 0x82u8, 0x1cu8, 0x13u8, 0x68u8, 0x40u8, 0xc6u8,
        0x49u8, 0xa1u8, 0x15u8, 0xcdu8, 0x39u8, 0xdbu8, 0x48u8, 0x1fu8,
    ]
}

/// The reward-token engine.
#[verifier::when_used_as_spec(spec_rwt_engine_program_id)]
pub fn rwt_engine_program_id() -> (id: Address)
    ensures
        id == rwt_engine_program_id(),
{
    [
        0x06u8, 0x47u8, 0x3du8, 0x57u8, 0x5au8, 0xeeu8, 0x84u8, 0xb9u8,
        0x31u8, 0xd6u8, 0xc0u8, 0x90u8, 0x1eu8, 0x42u8, 0xc6u8, 0xb5u8,
        0xf4u8, 0x57u8, 0x82u8, 0x1cu8, 0x13u8, 0x68u8, 0x40u8, 0xc6u8,
        0x49u8, 0xa1u8, 0x15u8, 0xcdu8, 0x39u8, 0xdbu8, 0x48u8, 0x1fu8,
    ]
}

/// The system program: the zero address.
pub open spec fn spec_system_program() -> Address {
    zero_address()
}

/// The system program: the zero address.
#[verifier::when_used_as_spec(spec_system_program)]
pub fn system_program() -> (id: Address)
    ensures
        id == system_program(),
{
    zero_address()
}

} // verus!
