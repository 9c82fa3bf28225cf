//! Registration of a mint as an ownership token.
use vstd::prelude::*;

use crate::account::{AccountInfo, Context};
use crate::actions::{CreateAssociatedAccount, SetMintAuthority};
use crate::address::{
    address_eq, derived_address, find_address_2, is_zero_address, zero_address, Address,
};
use crate::bytes::{address_at, read_address, read_u32, read_u64, u32_at, u64_at};
use crate::error::{OtError, ProgramError};
use crate::ownership_token::constants::{MAX_DECIMALS, MIN_DISTRIBUTION_AMOUNT, SPL_MINT_SIZE};
use crate::ownership_token::events::OtInitialized;
use crate::ownership_token::state::{
    OtConfig, OtGovernance, OtTreasury, RevenueAccount, RevenueConfig, RevenueDestination,
};
use crate::seeds::{
    ot_config_seed, ot_governance_seed, ot_treasury_seed, revenue_config_seed, revenue_seed,
};

verus! {

/// The accounts of a registration.
pub struct InitializeOt {
    pub deployer: AccountInfo,
    pub ot_mint: AccountInfo,
    pub usdc_mint: AccountInfo,
    pub ot_config: AccountInfo,
    pub revenue_account: AccountInfo,
    pub revenue_token_account: AccountInfo,
    pub revenue_config: AccountInfo,
    pub ot_governance: AccountInfo,
    pub ot_treasury: AccountInfo,
    pub areal_fee_destination_account: AccountInfo,
    pub token_program: AccountInfo,
    pub system_program: AccountInfo,
    pub ata_program: AccountInfo,
}

/// The five derived addresses of an ownership token, with their bumps.
#[derive(Clone, Copy, Debug, PartialEq, Eq)]
pub struct OtAddresses {
    pub config: (Address, u8),
    pub revenue: (Address, u8),
    pub revenue_config: (Address, u8),
    pub governance: (Address, u8),
    pub treasury: (Address, u8),
}

/// An accepted registration.
#[derive(Clone, Copy, Debug, PartialEq, Eq)]
pub struct InitializeOtOutcome {
    pub config: OtConfig,
    pub revenue: RevenueAccount,
    pub revenue_config: RevenueConfig,
    pub governance: OtGovernance,
    pub treasury: OtTreasury,
    pub create_revenue_token_account: CreateAssociatedAccount,
    /// Comes last: the deployer's mint authority goes to the configuration account.
    pub set_mint_authority: SetMintAuthority,
    pub event: OtInitialized,
}

/// The five derived addresses of `ot_mint`, where all of them exist.
pub open spec fn ot_addresses(ot_mint: Address, program_id: Address) -> Option<OtAddresses> {
    match (
        derived_address(seq![ot_config_seed()@, ot_mint@], program_id@),
        derived_address(seq![revenue_seed()@, ot_mint@], program_id@),
        derived_address(seq![revenue_config_seed()@, ot_mint@], program_id@),
        derived_address(seq![ot_governance_seed()@, ot_mint@], program_id@),
        derived_address(seq![ot_treasury_seed()@, ot_mint@], program_id@),
    ) {
        (Some(config), Some(revenue), Some(revenue_config), Some(governance), Some(treasury)) => Some(
            OtAddresses { config, revenue, revenue_config, governance, treasury },
        ),
        _ => None,
    }
}

/// The five derived addresses of `ot_mint`.
pub fn find_ot_addresses(ot_mint: &Address, program_id: &Address) -> (r: Option<OtAddresses>)
    ensures
        r == ot_addresses(*ot_mint, *program_id),
{
    let config_seed = ot_config_seed();
    let revenue_seed = revenue_seed();
    let revenue_config_seed = revenue_config_seed();
    let governance_seed = ot_governance_seed();
    let treasury_seed = ot_treasury_seed();
    match (
        find_address_2(config_seed.as_slice(), ot_mint.as_slice(), program_id),
        find_address_2(revenue_seed.as_slice(), ot_mint.as_slice(), program_id),
        find_address_2(revenue_config_seed.as_slice(), ot_mint.as_slice(), program_id),
        find_address_2(governance_seed.as_slice(), ot_mint.as_slice(), program_id),
        find_address_2(treasury_seed.as_slice(), ot_mint.as_slice(), program_id),
    ) {
        (Some(config), Some(revenue), Some(revenue_config), Some(governance), Some(treasury)) => Some(
            OtAddresses { config, revenue, revenue_config, governance, treasury },
        ),
        _ => None,
    }
}

/// Whether all bytes are zero.
pub open spec fn blank(bytes: Seq<u8>) -> bool {
    forall|i: int| 0 <= i < bytes.len() ==> bytes[i] == 0
}

/// Whether all bytes are zero.
pub fn is_blank(bytes: &[u8]) -> (yes: bool)
    ensures
        yes == blank(bytes@),
{
    let mut i: usize = 0;
    while i < bytes.len()
        invariant
            i <= bytes@.len(),
            forall|j: int| 0 <= j < i ==> bytes@[j] == 0,
        decreases bytes@.len() - i,
    {
        if bytes[i] != 0 {
            return false;
        }
        i += 1;
    }
    true
}

/// The decimals of a mint that may become an ownership token: nothing minted yet, one to nine
/// decimals, minted by the deployer, and nobody can freeze it.
pub open spec fn mint_decimals(mint: AccountInfo, deployer: Address) -> Result<u8, ProgramError> {
    let data = mint.data@;
    if data.len() < SPL_MINT_SIZE {
        Err(ProgramError::InvalidAccountData)
    } else if u64_at(data, 36) != 0 {
        Err(ProgramError::Ot(OtError::InvalidMintSupply))
    } else if data[44] == 0 || data[44] > MAX_DECIMALS {
        Err(ProgramError::Ot(OtError::InvalidDecimals))
    } else if u32_at(data, 0) != 1 || address_at(data, 4) != deployer {
        Err(ProgramError::Ot(OtError::InvalidMintAuthority))
    } else if u32_at(data, 46) != 0 {
        Err(ProgramError::Ot(OtError::FreezeAuthoritySet))
    } else {
        Ok(data[44])
    }
}

/// Checks a mint that is to become an ownership token, and reads its decimals.
pub fn check_mint(mint: &AccountInfo, deployer: &Address) -> (r: Result<u8, ProgramError>)
    ensures
        r == mint_decimals(*mint, *deployer),
{
    let data = &mint.data;
    if data.len() < SPL_MINT_SIZE {
        return Err(ProgramError::InvalidAccountData);
    }
    if read_u64(data, 36) != 0 {
        return Err(ProgramError::Ot(OtError::InvalidMintSupply));
    }
    let decimals: u8 = data[44];
    if decimals == 0 || decimals > MAX_DECIMALS {
        return Err(ProgramError::Ot(OtError::InvalidDecimals));
    }
    if read_u32(data, 0) != 1 {
        return Err(ProgramError::Ot(OtError::InvalidMintAuthority));
    }
    let authority = read_address(data, 4);
    if !address_eq(&authority, deployer) {
        return Err(ProgramError::Ot(OtError::InvalidMintAuthority));
    }
    if read_u32(data, 46) != 0 {
        return Err(ProgramError::Ot(OtError::FreezeAuthoritySet));
    }
    Ok(decimals)
}

/// An accepted registration's outcome.
pub open spec fn registered(
    accounts: InitializeOt,
    addresses: OtAddresses,
    decimals: u8,
    name: [u8; 32],
    symbol: [u8; 10],
    uri: [u8; 200],
    initial_authority: Address,
    now: i64,
) -> InitializeOtOutcome {
    let ot_mint = accounts.ot_mint.address;
    InitializeOtOutcome {
        config: OtConfig {
            ot_mint,
            name,
            symbol,
            decimals,
            total_minted: 0,
            uri,
            bump: addresses.config.1,
        },
        revenue: RevenueAccount {
            ot_mint,
            revenue_token_account: accounts.revenue_token_account.address,
            total_distributed: 0,
            distribution_count: 0,
            last_distribution_ts: 0,
            min_distribution_amount: MIN_DISTRIBUTION_AMOUNT,
            is_distributing: false,
            bump: addresses.revenue.1,
        },
        revenue_config: RevenueConfig {
            ot_mint,
            destinations: vstd::array::spec_array_fill_for_copy_type::<RevenueDestination, 10>(
                RevenueDestination::zeroed(),
            ),
            active_count: 0,
            config_version: 0,
            areal_fee_destination: accounts.areal_fee_destination_account.address,
            bump: addresses.revenue_config.1,
        },
        governance: OtGovernance {
            ot_mint,
            authority: initial_authority,
            pending_authority: zero_address(),
            has_pending: false,
            is_active: true,
            bump: addresses.governance.1,
        },
        treasury: OtTreasury { ot_mint, bump: addresses.treasury.1 },
        create_revenue_token_account: CreateAssociatedAccount {
            payer: accounts.deployer.address,
            account: accounts.revenue_token_account.address,
            wallet: accounts.revenue_account.address,
            mint: accounts.usdc_mint.address,
            keep_existing: false,
        },
        set_mint_authority: SetMintAuthority {
            mint: ot_mint,
            authority: accounts.deployer.address,
            new_authority: addresses.config.0,
        },
        event: OtInitialized { ot_mint, authority: initial_authority, decimals, timestamp: now },
    }
}

/// What a registration does, or why it is refused.
pub open spec fn initialize_ot_result(
    accounts: InitializeOt,
    program_id: Address,
    name: [u8; 32],
    symbol: [u8; 10],
    uri: [u8; 200],
    initial_authority: Address,
    now: i64,
) -> Result<InitializeOtOutcome, ProgramError> {
    match ot_addresses(accounts.ot_mint.address, program_id) {
        None => Err(ProgramError::InvalidSeeds),
        Some(addresses) => match mint_decimals(accounts.ot_mint, accounts.deployer.address) {
            Err(e) => Err(e),
            Ok(decimals) => if blank(name@) {
                Err(ProgramError::Ot(OtError::InvalidName))
            } else if blank(symbol@) {
                Err(ProgramError::Ot(OtError::InvalidSymbol))
            } else if initial_authority == zero_address() {
                Err(ProgramError::Ot(OtError::InvalidInitialAuthority))
            } else {
                Ok(
                    registered(
                        accounts,
                        addresses,
                        decimals,
                        name,
                        symbol,
                        uri,
                        initial_authority,
                        now,
                    ),
                )
            },
        },
    }
}

/// Registers an unused mint as an ownership token.
pub fn handler(
    ctx: &Context<'_, InitializeOt>,
    name: [u8; 32],
    symbol: [u8; 10],
    uri: [u8; 200],
    initial_authority: Address,
) -> (r: Result<InitializeOtOutcome, ProgramError>)
    ensures
        r == initialize_ot_result(
            *ctx.accounts,
            *ctx.program_id,
            name,
            symbol,
            uri,
            initial_authority,
            ctx.now,
        ),
{
    let a = ctx.accounts;
    let ot_mint = a.ot_mint.address;
    let addresses = match find_ot_addresses(&ot_mint, ctx.program_id) {
        None => {
            return Err(ProgramError::InvalidSeeds);
        },
        Some(addresses) => addresses,
    };
    let decimals: u8 = match check_mint(&a.ot_mint, &a.deployer.address) {
        Err(e) => {
            return Err(e);
        },
        Ok(decimals) => decimals,
    };
    if is_blank(name.as_slice()) {
        return Err(ProgramError::Ot(OtError::InvalidName));
    }
    if is_blank(symbol.as_slice()) {
        return Err(ProgramError::Ot(OtError::InvalidSymbol));
    }
    if is_zero_address(&initial_authority) {
        return Err(ProgramError::Ot(OtError::InvalidInitialAuthority));
    }
    Ok(
        InitializeOtOutcome {
            config: OtConfig {
                ot_mint,
                name,
                symbol,
                decimals,
                total_minted: 0,
                uri,
                bump: addresses.config.1,
            },
            revenue: RevenueAccount {
                ot_mint,
                revenue_token_account: a.revenue_token_account.address,
                total_distributed: 0,
                distribution_count: 0,
                last_distribution_ts: 0,
                min_distribution_amount: MIN_DISTRIBUTION_AMOUNT,
                is_distributing: false,
                bump: addresses.revenue.1,
            },
            revenue_config: RevenueConfig {
                ot_mint,
                destinations: [RevenueDestination::zeroed();10],
                active_count: 0,
                config_version: 0,
                areal_fee_destination: a.areal_fee_destination_account.address,
                bump: addresses.revenue_config.1,
            },
            governance: OtGovernance {
                ot_mint,
                authority: initial_authority,
                pending_authority: zero_address(),
                has_pending: false,
                is_active: true,
                bump: addresses.governance.1,
            },
            treasury: OtTreasury { ot_mint, bump: addresses.treasury.1 },
            create_revenue_token_account: CreateAssociatedAccount {
                payer: a.deployer.address,
                account: a.revenue_token_account.address,
                wallet: a.revenue_account.address,
                mint: a.usdc_mint.address,
                keep_existing: false,
            },
            set_mint_authority: SetMintAuthority {
                mint: ot_mint,
                authority: a.deployer.address,
                new_authority: addresses.config.0,
            },
            event: OtInitialized {
                ot_mint,
                authority: initial_authority,
                decimals,
                timestamp: ctx.now,
            },
        },
    )
}

} // verus!
