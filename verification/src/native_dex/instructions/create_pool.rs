//! Creation of a constant-product pool.
use vstd::prelude::*;

use crate::account::{AccountInfo, Context};
use crate::actions::CreateAccount;
use crate::address::Address;
use crate::error::{DexError, ProgramError};
use crate::native_dex::constants::{DexParams, POOL_TYPE_STANDARD};
use crate::native_dex::events::PoolCreated;
use crate::native_dex::pool_creation::{
    create_pool_account, detect_ot_treasury, init_vault_pair, ot_treasury_of, pool_account,
    require_valid_mint_pair, require_whitelisted_creator, valid_pair, vault_pair, whitelisted,
    VaultPair,
};
use crate::native_dex::state::{DexConfig, PoolCreators, PoolState};

verus! {

/// The accounts of a pool creation.
pub struct CreatePool {
    pub creator: AccountInfo,
    pub dex_config: AccountInfo,
    pub pool_creators: AccountInfo,
    pub pool_state: AccountInfo,
    pub token_a_mint: AccountInfo,
    pub token_b_mint: AccountInfo,
    pub vault_a: AccountInfo,
    pub vault_b: AccountInfo,
    pub token_program: AccountInfo,
    pub system_program: AccountInfo,
}

/// An accepted pool creation.
#[derive(Clone, Copy, Debug, PartialEq, Eq)]
pub struct CreatePoolOutcome {
    pub pool: PoolState,
    pub create_pool: CreateAccount,
    pub vaults: VaultPair,
    pub event: PoolCreated,
}

/// An empty constant-product pool.
pub open spec fn new_pool(
    mint_a: Address,
    mint_b: Address,
    vault_a: Address,
    vault_b: Address,
    fee_bps: u16,
    ot_treasury: (Address, bool),
    bump: u8,
) -> PoolState {
    PoolState {
        pool_type: POOL_TYPE_STANDARD,
        token_a_mint: mint_a,
        token_b_mint: mint_b,
        vault_a,
        vault_b,
        reserve_a: 0,
        reserve_b: 0,
        total_lp_shares: 0,
        fee_bps,
        is_active: true,
        total_fees_accumulated: 0,
        bin_step_bps: 0,
        active_bin_id: 0,
        ot_treasury_fee_destination: ot_treasury.0,
        has_ot_treasury: ot_treasury.1,
        bump,
        cumulative_fees_per_share_a: 0,
        cumulative_fees_per_share_b: 0,
        left_anchor_bin: 0,
        permanent_tail_floor_bin: 0,
        last_rebalance_nav_bin: 0,
        active_zone_lower: 0,
        permanent_tail_offset_bps: 0,
        _pad_monotonic: [0u8, 0u8],
    }
}

/// What a pool creation does, or why it is refused.
pub open spec fn create_pool_result(
    params: DexParams,
    accounts: CreatePool,
    remaining: Seq<AccountInfo>,
    program_id: Address,
    config: DexConfig,
    creators: PoolCreators,
    now: i64,
) -> Result<CreatePoolOutcome, ProgramError> {
    let a = accounts;
    if !config.is_active {
        Err(ProgramError::Dex(DexError::DexPaused))
    } else {
        match whitelisted(creators, a.creator.address) {
            Err(e) => Err(e),
            Ok(creator) => match valid_pair(
                a.token_a_mint.address,
                a.token_b_mint.address,
                params,
            ) {
                Err(e) => Err(e),
                Ok((mint_a, mint_b)) => match pool_account(
                    creator,
                    a.pool_state.address,
                    mint_a,
                    mint_b,
                    program_id,
                ) {
                    Err(e) => Err(e),
                    Ok((create, bump)) => match ot_treasury_of(remaining, mint_a, mint_b, params) {
                        Err(e) => Err(e),
                        Ok(treasury) => Ok(
                            CreatePoolOutcome {
                                pool: new_pool(
                                    mint_a,
                                    mint_b,
                                    a.vault_a.address,
                                    a.vault_b.address,
                                    config.base_fee_bps,
                                    treasury,
                                    bump,
                                ),
                                create_pool: create,
                                vaults: vault_pair(
                                    creator,
                                    a.vault_a.address,
                                    a.vault_b.address,
                                    mint_a,
                                    mint_b,
                                    a.pool_state.address,
                                ),
                                event: PoolCreated {
                                    pool: a.pool_state.address,
                                    token_a_mint: mint_a,
                                    token_b_mint: mint_b,
                                    pool_type: POOL_TYPE_STANDARD,
                                    creator,
                                    ot_treasury_fee_destination: treasury.0,
                                    timestamp: now,
                                },
                            },
                        ),
                    },
                },
            },
        }
    }
}

/// Creates a constant-product pool with the exchange's present fee.
pub fn handler(
    ctx: &Context<'_, CreatePool>,
    params: &DexParams,
    config: &DexConfig,
    creators: &PoolCreators,
) -> (r: Result<CreatePoolOutcome, ProgramError>)
    requires
        creators.wf(),
    ensures
        r == create_pool_result(
            *params,
            *ctx.accounts,
            ctx.remaining_accounts@,
            *ctx.program_id,
            *config,
            *creators,
            ctx.now,
        ),
{
    let a = ctx.accounts;
    if !config.is_active {
        return Err(ProgramError::Dex(DexError::DexPaused));
    }
    let creator = match require_whitelisted_creator(creators, &a.creator) {
        Err(e) => {
            return Err(e);
        },
        Ok(creator) => creator,
    };
    let (mint_a, mint_b) = match require_valid_mint_pair(&a.token_a_mint, &a.token_b_mint, params) {
        Err(e) => {
            return Err(e);
        },
        Ok(pair) => pair,
    };
    let (create_pool, bump) = match create_pool_account(
        &a.creator,
        &a.pool_state,
        &mint_a,
        &mint_b,
        ctx.program_id,
    ) {
        Err(e) => {
            return Err(e);
        },
        Ok(created) => created,
    };
    let (ot_treasury_fee_destination, has_ot_treasury) = match detect_ot_treasury(
        ctx.remaining_accounts,
        &mint_a,
        &mint_b,
        params,
    ) {
        Err(e) => {
            return Err(e);
        },
        Ok(treasury) => treasury,
    };
    Ok(
        CreatePoolOutcome {
            pool: PoolState {
                pool_type: POOL_TYPE_STANDARD,
                token_a_mint: mint_a,
                token_b_mint: mint_b,
                vault_a: a.vault_a.address,
                vault_b: a.vault_b.address,
                reserve_a: 0,
                reserve_b: 0,
                total_lp_shares: 0,
                fee_bps: config.base_fee_bps,
                is_active: true,
                total_fees_accumulated: 0,
                bin_step_bps: 0,
                active_bin_id: 0,
                ot_treasury_fee_destination,
                has_ot_treasury,
                bump,
                cumulative_fees_per_share_a: 0,
                cumulative_fees_per_share_b: 0,
                left_anchor_bin: 0,
                permanent_tail_floor_bin: 0,
                last_rebalance_nav_bin: 0,
                active_zone_lower: 0,
                permanent_tail_offset_bps: 0,
                _pad_monotonic: [0u8, 0u8],
            },
            create_pool,
            vaults: init_vault_pair(
                &a.creator,
                &a.vault_a,
                &a.vault_b,
                &a.token_a_mint,
                &a.token_b_mint,
                &a.pool_state.address,
            ),
            event: PoolCreated {
                pool: a.pool_state.address,
                token_a_mint: mint_a,
                token_b_mint: mint_b,
                pool_type: POOL_TYPE_STANDARD,
                creator,
                ot_treasury_fee_destination,
                timestamp: ctx.now,
            },
        },
    )
}

} // verus!
