//! The accounts of the ownership token.
use vstd::prelude::*;

use crate::address::{zero_address, Address};
use crate::bytes::{address_at, read_address, read_u16, u16_at};
use crate::error::ProgramError;
use crate::ownership_token::constants::MAX_DESTINATIONS;

verus! {

/// One receiver of revenue.
#[derive(Clone, Copy, Debug, PartialEq, Eq)]
pub struct RevenueDestination {
    pub address: Address,
    pub allocation_bps: u16,
    pub label: [u8; 32],
}

impl RevenueDestination {
    /// Bytes of one destination.
    pub const SIZE: usize = 66;

    /// The content of an unused slot.
    pub open spec fn spec_zeroed() -> RevenueDestination {
        RevenueDestination {
            address: zero_address(),
            allocation_bps: 0,
            label: zero_address(),
        }
    }

    /// The content of an unused slot.
    #[verifier::when_used_as_spec(spec_zeroed)]
    pub fn zeroed() -> (empty: RevenueDestination)
        ensures
            empty == RevenueDestination::zeroed(),
    {
        RevenueDestination { address: zero_address(), allocation_bps: 0, label: zero_address() }
    }
}

/// One receiver of revenue, as an instruction names it.
#[derive(Clone, Copy, Debug, PartialEq, Eq)]
pub struct BatchDestination {
    pub address: Address,
    pub allocation_bps: u16,
    pub label: [u8; 32],
}

impl BatchDestination {
    /// The destination whose bytes start at `offset`: the address, the allocation, the label.
    pub open spec fn at(data: Seq<u8>, offset: int) -> Result<BatchDestination, ProgramError> {
        if offset + RevenueDestination::SIZE > data.len() {
            Err(ProgramError::InvalidInstructionData)
        } else {
            Ok(
                BatchDestination {
                    address: address_at(data, offset),
                    allocation_bps: u16_at(data, offset + 32),
                    label: address_at(data, offset + 34),
                },
            )
        }
    }

    /// Reads the destination whose bytes start at `offset`, and says where the next one starts.
    pub fn deserialize(data: &Vec<u8>, offset: usize) -> (r: Result<
        (BatchDestination, usize),
        ProgramError,
    >)
        ensures
            match (r, BatchDestination::at(data@, offset as int)) {
                (Ok((destination, next)), Ok(expected)) => destination == expected && next == offset
                    + RevenueDestination::SIZE,
                (Err(e), Err(expected)) => e == expected,
                _ => false,
            },
    {
        let len: usize = data.len();
        if offset > len || len - offset < RevenueDestination::SIZE {
            return Err(ProgramError::InvalidInstructionData);
        }
        let address = read_address(data, offset);
        let allocation_bps: u16 = read_u16(data, offset + 32);
        let label = read_address(data, offset + 34);
        Ok((BatchDestination { address, allocation_bps, label }, offset + RevenueDestination::SIZE))
    }
}

/// One ownership token.
#[derive(Clone, Copy, Debug, PartialEq, Eq)]
pub struct OtConfig {
    pub ot_mint: Address,
    pub name: [u8; 32],
    pub symbol: [u8; 10],
    pub decimals: u8,
    pub total_minted: u64,
    pub uri: [u8; 200],
    pub bump: u8,
}

impl OtConfig {
    /// Bytes of the fields.
    pub const SIZE: usize = 284;

    /// Bytes of the account, marker included.
    pub const SPACE: usize = 292;
}

/// Revenue waiting for distribution.
#[derive(Clone, Copy, Debug, PartialEq, Eq)]
pub struct RevenueAccount {
    pub ot_mint: Address,
    /// The one token account that revenue is distributed from.
    pub revenue_token_account: Address,
    pub total_distributed: u64,
    pub distribution_count: u64,
    /// Zero before the first distribution.
    pub last_distribution_ts: i64,
    pub min_distribution_amount: u64,
    pub is_distributing: bool,
    pub bump: u8,
}

impl RevenueAccount {
    /// Bytes of the fields.
    pub const SIZE: usize = 98;

    /// Bytes of the account, marker included.
    pub const SPACE: usize = 106;
}

/// Who receives revenue.
#[derive(Clone, Copy, Debug, PartialEq, Eq)]
pub struct RevenueConfig {
    pub ot_mint: Address,
    pub destinations: [RevenueDestination; 10],
    pub active_count: u8,
    pub config_version: u64,
    pub areal_fee_destination: Address,
    pub bump: u8,
}

impl RevenueConfig {
    /// Bytes of the fields.
    pub const SIZE: usize = 734;

    /// Bytes of the account, marker included.
    pub const SPACE: usize = 742;

    /// Whether the count is within the list.
    pub open spec fn wf(&self) -> bool {
        self.active_count <= MAX_DESTINATIONS
    }

    /// Whether the count is within the list.
    pub fn is_wf(&self) -> (yes: bool)
        ensures
            yes == self.wf(),
    {
        self.active_count as usize <= MAX_DESTINATIONS
    }

    /// The destinations in use.
    pub open spec fn active(&self) -> Seq<RevenueDestination> {
        self.destinations@.take(self.active_count as int)
    }
}

/// Who governs an ownership token.
#[derive(Clone, Copy, Debug, PartialEq, Eq)]
pub struct OtGovernance {
    pub ot_mint: Address,
    pub authority: Address,
    /// The proposed next authority; all zero where none is proposed.
    pub pending_authority: Address,
    pub has_pending: bool,
    pub is_active: bool,
    pub bump: u8,
}

impl OtGovernance {
    /// Bytes of the fields.
    pub const SIZE: usize = 99;

    /// Bytes of the account, marker included.
    pub const SPACE: usize = 107;
}

/// The treasury of an ownership token.
#[derive(Clone, Copy, Debug, PartialEq, Eq)]
pub struct OtTreasury {
    pub ot_mint: Address,
    pub bump: u8,
}

impl OtTreasury {
    /// Bytes of the fields.
    pub const SIZE: usize = 33;

    /// Bytes of the account, marker included.
    pub const SPACE: usize = 41;
}

} // verus!
