//! Creation of a ladder pool.
use vstd::prelude::*;

use crate::account::{AccountInfo, Context};
use crate::actions::CreateAccount;
use crate::address::{
    address_eq, derived_address, find_address_2, is_zero_address, zero_address, Address,
};
use crate::error::{DexError, ProgramError};
use crate::native_dex::constants::{
    DEFAULT_PERMANENT_TAIL_OFFSET_BPS, DexParams, MIN_PERMANENT_TAIL_OFFSET_BPS,
    PERMANENT_TAIL_BIN_COUNT, POOL_TYPE_CONCENTRATED,
};
use crate::native_dex::events::PoolCreated;
use crate::native_dex::pool_creation::{
    create_pool_account, init_vault_pair, pool_account, require_valid_mint_pair,
    require_whitelisted_creator, valid_pair, vault_pair, whitelisted, VaultPair,
};
use crate::native_dex::state::{Bin, BinArray, DexConfig, PoolCreators, PoolState};
use crate::native_dex::validation::is_rwt_mint;
use crate::seeds::{bins_seed, SignedBy};

verus! {

/// The accounts of a ladder-pool creation.
pub struct CreateConcentratedPool {
    pub creator: AccountInfo,
    pub dex_config: AccountInfo,
    pub pool_creators: AccountInfo,
    pub pool_state: AccountInfo,
    pub bin_array: AccountInfo,
    pub token_a_mint: AccountInfo,
    pub token_b_mint: AccountInfo,
    pub vault_a: AccountInfo,
    pub vault_b: AccountInfo,
    pub token_program: AccountInfo,
    pub system_program: AccountInfo,
}

/// An accepted ladder-pool creation.
#[derive(Clone, Copy, Debug, PartialEq, Eq)]
pub struct CreateConcentratedPoolOutcome {
    pub pool: PoolState,
    pub bins: BinArray,
    pub create_pool: CreateAccount,
    pub create_bins: CreateAccount,
    pub vaults: VaultPair,
    pub event: PoolCreated,
}

/// Whether a ladder pool may pair the reward token with the other mint. Where a deployment pins
/// neither dollar mint any other token will do.
pub open spec fn master_pair(
    mint_a: Address,
    mint_b: Address,
    params: DexParams,
) -> Result<(), ProgramError> {
    let other = if mint_a == params.rwt_mint { mint_b } else { mint_a };
    let usdc_pinned = params.usdc_mint != zero_address();
    let usdy_pinned = params.usdy_mint != zero_address();
    if (usdc_pinned || usdy_pinned) && !(usdc_pinned && other == params.usdc_mint) && !(usdy_pinned
        && other == params.usdy_mint) {
        Err(ProgramError::Dex(DexError::InvalidMintPair))
    } else {
        Ok(())
    }
}

/// Refuses a pair that no ladder pool can have.
pub fn require_master_pair(mint_a: &Address, mint_b: &Address, params: &DexParams) -> (r: Result<
    (),
    ProgramError,
>)
    ensures
        r == master_pair(*mint_a, *mint_b, *params),
{
    let other = if is_rwt_mint(mint_a, params) {
        mint_b
    } else {
        mint_a
    };
    let usdc_pinned = !is_zero_address(&params.usdc_mint);
    let usdy_pinned = !is_zero_address(&params.usdy_mint);
    if usdc_pinned || usdy_pinned {
        let matches_usdc = usdc_pinned && address_eq(other, &params.usdc_mint);
        let matches_usdy = usdy_pinned && address_eq(other, &params.usdy_mint);
        if !matches_usdc && !matches_usdy {
            return Err(ProgramError::Dex(DexError::InvalidMintPair));
        }
    }
    Ok(())
}

/// Whether the permanent tail may sit this far below the initial price.
pub open spec fn tail_offset_ok(permanent_tail_offset_bps: i32) -> Result<(), ProgramError> {
    if permanent_tail_offset_bps < MIN_PERMANENT_TAIL_OFFSET_BPS || permanent_tail_offset_bps
        > DEFAULT_PERMANENT_TAIL_OFFSET_BPS {
        Err(ProgramError::Dex(DexError::InvalidPermanentTailOffset))
    } else {
        Ok(())
    }
}

/// Refuses a permanent tail too close to the initial price or too far below it.
pub fn validate_permanent_tail_offset(permanent_tail_offset_bps: i32) -> (r: Result<
    (),
    ProgramError,
>)
    ensures
        r == tail_offset_ok(permanent_tail_offset_bps),
{
    if permanent_tail_offset_bps < MIN_PERMANENT_TAIL_OFFSET_BPS || permanent_tail_offset_bps
        > DEFAULT_PERMANENT_TAIL_OFFSET_BPS {
        return Err(ProgramError::Dex(DexError::InvalidPermanentTailOffset));
    }
    Ok(())
}

/// The leftmost bin of a new ladder: the tail's offset below the initial bin, in whole bins.
pub open spec fn left_anchor(initial_active_bin: i32, bin_step_bps: u16, offset_bps: i32) -> int {
    initial_active_bin - offset_bps as int / bin_step_bps as int
}

/// The lower end of a new ladder's permanent tail.
pub open spec fn tail_floor(initial_active_bin: i32, bin_step_bps: u16, offset_bps: i32) -> int {
    left_anchor(initial_active_bin, bin_step_bps, offset_bps) - PERMANENT_TAIL_BIN_COUNT
}

/// An offset in whole bins is at most the offset.
proof fn offset_in_bins(offset_bps: i32, bin_step_bps: u16)
    requires
        offset_bps > 0,
        bin_step_bps > 0,
    ensures
        0 <= offset_bps as int / bin_step_bps as int <= offset_bps,
{
    let n = offset_bps as int;
    let d = bin_step_bps as int;
    assert(0 <= n / d <= n) by (nonlinear_arith)
        requires
            n > 0,
            d > 0,
    ;
}

/// The leftmost bin and the tail's lower end of a new ladder.
pub fn ladder_anchors(initial_active_bin: i32, bin_step_bps: u16, offset_bps: i32) -> (anchors: (
    i32,
    i32,
))
    requires
        bin_step_bps > 0,
        offset_bps > 0,
        tail_floor(initial_active_bin, bin_step_bps, offset_bps) >= i32::MIN,
    ensures
        anchors.0 == left_anchor(initial_active_bin, bin_step_bps, offset_bps),
        anchors.1 == tail_floor(initial_active_bin, bin_step_bps, offset_bps),
{
    let step: i32 = bin_step_bps as i32;
    let q = offset_bps / step;
    proof {
        offset_in_bins(offset_bps, bin_step_bps);
    }
    let left: i32 = initial_active_bin - q;
    (left, left - PERMANENT_TAIL_BIN_COUNT)
}

/// An empty bin.
pub open spec fn empty_bin() -> Bin {
    Bin { liquidity_a: 0, liquidity_b: 0 }
}

/// Empty price bins that start at the tail's lower end.
pub open spec fn new_bins(
    pool_key: Address,
    initial_active_bin: i32,
    bin_step_bps: u16,
    offset_bps: i32,
    bump: u8,
) -> BinArray {
    BinArray {
        pool: pool_key,
        bins: vstd::array::spec_array_fill_for_copy_type::<Bin, 1000>(empty_bin()),
        lower_bin_id: tail_floor(initial_active_bin, bin_step_bps, offset_bps) as i32,
        bin_step_bps,
        active_bin_id: initial_active_bin,
        bump,
    }
}

/// An empty ladder pool. Its bid zone is empty until the nexus fills it.
pub open spec fn new_ladder_pool(
    mint_a: Address,
    mint_b: Address,
    vault_a: Address,
    vault_b: Address,
    fee_bps: u16,
    initial_active_bin: i32,
    bin_step_bps: u16,
    offset_bps: i32,
    bump: u8,
) -> PoolState {
    PoolState {
        pool_type: POOL_TYPE_CONCENTRATED,
        token_a_mint: mint_a,
        token_b_mint: mint_b,
        vault_a,
        vault_b,
        reserve_a: 0,
        reserve_b: 0,
        total_lp_shares: 0,
        fee_bps,
        is_active: true,
        total_fees_accumulated: 0,
        bin_step_bps,
        active_bin_id: initial_active_bin,
        ot_treasury_fee_destination: zero_address(),
        has_ot_treasury: false,
        bump,
        cumulative_fees_per_share_a: 0,
        cumulative_fees_per_share_b: 0,
        left_anchor_bin: left_anchor(initial_active_bin, bin_step_bps, offset_bps) as i32,
        permanent_tail_floor_bin: tail_floor(initial_active_bin, bin_step_bps, offset_bps) as i32,
        last_rebalance_nav_bin: initial_active_bin,
        active_zone_lower: initial_active_bin,
        permanent_tail_offset_bps: offset_bps as u16,
        _pad_monotonic: [0u8, 0u8],
    }
}

/// The conditions of a ladder-pool creation up to its accounts, in the order in which they are
/// reported.
pub open spec fn ladder_checks(
    params: DexParams,
    accounts: CreateConcentratedPool,
    remaining: Seq<AccountInfo>,
    config: DexConfig,
    creators: PoolCreators,
    bin_step_bps: u16,
    initial_active_bin: i32,
    permanent_tail_offset_bps: i32,
) -> Result<(), ProgramError> {
    let mint_a = accounts.token_a_mint.address;
    let mint_b = accounts.token_b_mint.address;
    if !config.is_active {
        Err(ProgramError::Dex(DexError::DexPaused))
    } else if bin_step_bps == 0 || bin_step_bps > params.max_bin_step_bps {
        Err(ProgramError::Dex(DexError::InvalidBinStep))
    } else if initial_active_bin > params.max_initial_active_bin || -initial_active_bin
        > params.max_initial_active_bin {
        Err(ProgramError::Dex(DexError::InvalidBinRange))
    } else {
        match tail_offset_ok(permanent_tail_offset_bps) {
            Err(e) => Err(e),
            Ok(_) => match whitelisted(creators, accounts.creator.address) {
                Err(e) => Err(e),
                Ok(_) => match valid_pair(mint_a, mint_b, params) {
                    Err(e) => Err(e),
                    Ok(_) => match master_pair(mint_a, mint_b, params) {
                        Err(e) => Err(e),
                        Ok(_) => if remaining.len() != 0 {
                            Err(ProgramError::Dex(DexError::OtTreasuryNotAllowedOnMasterPool))
                        } else {
                            Ok(())
                        },
                    },
                },
            },
        }
    }
}

/// What a ladder-pool creation does, or why it is refused.
pub open spec fn create_ladder_result(
    params: DexParams,
    accounts: CreateConcentratedPool,
    remaining: Seq<AccountInfo>,
    program_id: Address,
    config: DexConfig,
    creators: PoolCreators,
    bin_step_bps: u16,
    initial_active_bin: i32,
    permanent_tail_offset_bps: i32,
    now: i64,
) -> Result<CreateConcentratedPoolOutcome, ProgramError> {
    let a = accounts;
    let creator = a.creator.address;
    let mint_a = a.token_a_mint.address;
    let mint_b = a.token_b_mint.address;
    let pool_key = a.pool_state.address;
    match ladder_checks(
        params,
        accounts,
        remaining,
        config,
        creators,
        bin_step_bps,
        initial_active_bin,
        permanent_tail_offset_bps,
    ) {
        Err(e) => Err(e),
        Ok(_) => match pool_account(creator, pool_key, mint_a, mint_b, program_id) {
            Err(e) => Err(e),
            Ok((create_pool, pool_bump)) => match derived_address(
                seq![bins_seed()@, pool_key@],
                program_id@,
            ) {
                None => Err(ProgramError::InvalidSeeds),
                Some((bins_address, bins_bump)) => if a.bin_array.address != bins_address {
                    Err(ProgramError::InvalidSeeds)
                } else {
                    Ok(
                        CreateConcentratedPoolOutcome {
                            pool: new_ladder_pool(
                                mint_a,
                                mint_b,
                                a.vault_a.address,
                                a.vault_b.address,
                                config.base_fee_bps,
                                initial_active_bin,
                                bin_step_bps,
                                permanent_tail_offset_bps,
                                pool_bump,
                            ),
                            bins: new_bins(
                                pool_key,
                                initial_active_bin,
                                bin_step_bps,
                                permanent_tail_offset_bps,
                                bins_bump,
                            ),
                            create_pool,
                            create_bins: CreateAccount {
                                payer: creator,
                                account: a.bin_array.address,
                                space: BinArray::SPACE as u64,
                                owner: program_id,
                                signed_by: SignedBy::Bins { pool: pool_key, bump: bins_bump },
                            },
                            vaults: vault_pair(
                                creator,
                                a.vault_a.address,
                                a.vault_b.address,
                                mint_a,
                                mint_b,
                                pool_key,
                            ),
                            event: PoolCreated {
                                pool: pool_key,
                                token_a_mint: mint_a,
                                token_b_mint: mint_b,
                                pool_type: POOL_TYPE_CONCENTRATED,
                                creator,
                                ot_treasury_fee_destination: zero_address(),
                                timestamp: now,
                            },
                        },
                    )
                },
            },
        },
    }
}

/// Whether the bin numbers that a ladder-pool creation computes can be held: the distance of the
/// initial bin from bin zero, and once every condition holds the ladder's lower end. With a tail
/// offset within its bounds only initial bins within 170 of the least number miss it.
pub open spec fn ladder_fits(
    params: DexParams,
    accounts: CreateConcentratedPool,
    remaining: Seq<AccountInfo>,
    config: DexConfig,
    creators: PoolCreators,
    bin_step_bps: u16,
    initial_active_bin: i32,
    permanent_tail_offset_bps: i32,
) -> bool {
    &&& config.is_active && 0 < bin_step_bps <= params.max_bin_step_bps ==> initial_active_bin
        > i32::MIN
    &&& ladder_checks(
        params,
        accounts,
        remaining,
        config,
        creators,
        bin_step_bps,
        initial_active_bin,
        permanent_tail_offset_bps,
    ) is Ok ==> tail_floor(initial_active_bin, bin_step_bps, permanent_tail_offset_bps) >= i32::MIN
}

/// Checks the conditions of a ladder-pool creation up to its accounts.
fn check_ladder(
    ctx: &Context<'_, CreateConcentratedPool>,
    params: &DexParams,
    config: &DexConfig,
    creators: &PoolCreators,
    bin_step_bps: u16,
    initial_active_bin: i32,
    permanent_tail_offset_bps: i32,
) -> (r: Result<(), ProgramError>)
    requires
        creators.wf(),
        config.is_active && 0 < bin_step_bps <= params.max_bin_step_bps ==> initial_active_bin
            > i32::MIN,
    ensures
        r == ladder_checks(
            *params,
            *ctx.accounts,
            ctx.remaining_accounts@,
            *config,
            *creators,
            bin_step_bps,
            initial_active_bin,
            permanent_tail_offset_bps,
        ),
{
    let a = ctx.accounts;
    if !config.is_active {
        return Err(ProgramError::Dex(DexError::DexPaused));
    }
    if bin_step_bps == 0 || bin_step_bps > params.max_bin_step_bps {
        return Err(ProgramError::Dex(DexError::InvalidBinStep));
    }
    if initial_active_bin > params.max_initial_active_bin || -initial_active_bin
        > params.max_initial_active_bin {
        return Err(ProgramError::Dex(DexError::InvalidBinRange));
    }
    if let Err(e) = validate_permanent_tail_offset(permanent_tail_offset_bps) {
        return Err(e);
    }
    if let Err(e) = require_whitelisted_creator(creators, &a.creator) {
        return Err(e);
    }
    let (mint_a, mint_b) = match require_valid_mint_pair(&a.token_a_mint, &a.token_b_mint, params) {
        Err(e) => {
            return Err(e);
        },
        Ok(pair) => pair,
    };
    if let Err(e) = require_master_pair(&mint_a, &mint_b, params) {
        return Err(e);
    }
    if ctx.remaining_accounts.len() != 0 {
        return Err(ProgramError::Dex(DexError::OtTreasuryNotAllowedOnMasterPool));
    }
    Ok(())
}

/// Whether the bin numbers that a ladder-pool creation computes can be held.
pub fn fits_ladder(
    ctx: &Context<'_, CreateConcentratedPool>,
    params: &DexParams,
    config: &DexConfig,
    creators: &PoolCreators,
    bin_step_bps: u16,
    initial_active_bin: i32,
    permanent_tail_offset_bps: i32,
) -> (fits: bool)
    requires
        creators.wf(),
    ensures
        fits == ladder_fits(
            *params,
            *ctx.accounts,
            ctx.remaining_accounts@,
            *config,
            *creators,
            bin_step_bps,
            initial_active_bin,
            permanent_tail_offset_bps,
        ),
{
    if initial_active_bin == i32::MIN {
        return !(config.is_active && bin_step_bps > 0 && bin_step_bps <= params.max_bin_step_bps);
    }
    if check_ladder(
        ctx,
        params,
        config,
        creators,
        bin_step_bps,
        initial_active_bin,
        permanent_tail_offset_bps,
    ).is_err() {
        return true;
    }
    let offset: i32 = permanent_tail_offset_bps / (bin_step_bps as i32);
    proof {
        offset_in_bins(permanent_tail_offset_bps, bin_step_bps);
    }
    initial_active_bin as i64 - offset as i64 - PERMANENT_TAIL_BIN_COUNT as i64 >= i32::MIN as i64
}

/// Creates a ladder pool.
pub fn handler(
    ctx: &Context<'_, CreateConcentratedPool>,
    params: &DexParams,
    config: &DexConfig,
    creators: &PoolCreators,
    bin_step_bps: u16,
    initial_active_bin: i32,
    permanent_tail_offset_bps: i32,
) -> (r: Result<CreateConcentratedPoolOutcome, ProgramError>)
    requires
        creators.wf(),
        ladder_fits(
            *params,
            *ctx.accounts,
            ctx.remaining_accounts@,
            *config,
            *creators,
            bin_step_bps,
            initial_active_bin,
            permanent_tail_offset_bps,
        ),
    ensures
        r == create_ladder_result(
            *params,
            *ctx.accounts,
            ctx.remaining_accounts@,
            *ctx.program_id,
            *config,
            *creators,
            bin_step_bps,
            initial_active_bin,
            permanent_tail_offset_bps,
            ctx.now,
        ),
{
    let a = ctx.accounts;
    if let Err(e) = check_ladder(
        ctx,
        params,
        config,
        creators,
        bin_step_bps,
        initial_active_bin,
        permanent_tail_offset_bps,
    ) {
        return Err(e);
    }
    let creator = a.creator.address;
    let mint_a = a.token_a_mint.address;
    let mint_b = a.token_b_mint.address;
    let (create_pool, pool_bump) = match create_pool_account(
        &a.creator,
        &a.pool_state,
        &mint_a,
        &mint_b,
        ctx.program_id,
    ) {
        Err(e) => {
            return Err(e);
        },
        Ok(created) => created,
    };
    let pool_key = a.pool_state.address;
    let seed = bins_seed();
    let bins_bump: u8 = match find_address_2(seed.as_slice(), pool_key.as_slice(), ctx.program_id) {
        None => {
            return Err(ProgramError::InvalidSeeds);
        },
        Some((address, bump)) => {
            if !a.bin_array.is_at(&address) {
                return Err(ProgramError::InvalidSeeds);
            }
            bump
        },
    };
    let (left_anchor_bin, permanent_tail_floor_bin): (i32, i32) = ladder_anchors(
        initial_active_bin,
        bin_step_bps,
        permanent_tail_offset_bps,
    );
    Ok(
        CreateConcentratedPoolOutcome {
            pool: PoolState {
                pool_type: POOL_TYPE_CONCENTRATED,
                token_a_mint: mint_a,
                token_b_mint: mint_b,
                vault_a: a.vault_a.address,
                vault_b: a.vault_b.address,
                reserve_a: 0,
                reserve_b: 0,
                total_lp_shares: 0,
                fee_bps: config.base_fee_bps,
                is_active: true,
                total_fees_accumulated: 0,
                bin_step_bps,
                active_bin_id: initial_active_bin,
                ot_treasury_fee_destination: zero_address(),
                has_ot_treasury: false,
                bump: pool_bump,
                cumulative_fees_per_share_a: 0,
                cumulative_fees_per_share_b: 0,
                left_anchor_bin,
                permanent_tail_floor_bin,
                last_rebalance_nav_bin: initial_active_bin,
                active_zone_lower: initial_active_bin,
                permanent_tail_offset_bps: permanent_tail_offset_bps as u16,
                _pad_monotonic: [0u8, 0u8],
            },
            bins: BinArray {
                pool: pool_key,
                bins: [Bin { liquidity_a: 0, liquidity_b: 0 };1000],
                lower_bin_id: permanent_tail_floor_bin,
                bin_step_bps,
                active_bin_id: initial_active_bin,
                bump: bins_bump,
            },
            create_pool,
            create_bins: CreateAccount {
                payer: creator,
                account: a.bin_array.address,
                space: BinArray::SPACE as u64,
                owner: *ctx.program_id,
                signed_by: SignedBy::Bins { pool: pool_key, bump: bins_bump },
            },
            vaults: init_vault_pair(
                &a.creator,
                &a.vault_a,
                &a.vault_b,
                &a.token_a_mint,
                &a.token_b_mint,
                &pool_key,
            ),
            event: PoolCreated {
                pool: pool_key,
                token_a_mint: mint_a,
                token_b_mint: mint_b,
                pool_type: POOL_TYPE_CONCENTRATED,
                creator,
                ot_treasury_fee_destination: zero_address(),
                timestamp: ctx.now,
            },
        },
    )
}

/// The pool records the tail offset that was asked for, and that lies within its bounds.
pub proof fn tail_offset_is_recorded(
    params: DexParams,
    accounts: CreateConcentratedPool,
    remaining: Seq<AccountInfo>,
    program_id: Address,
    config: DexConfig,
    creators: PoolCreators,
    bin_step_bps: u16,
    initial_active_bin: i32,
    permanent_tail_offset_bps: i32,
    now: i64,
)
    ensures
        create_ladder_result(
            params,
            accounts,
            remaining,
            program_id,
            config,
            creators,
            bin_step_bps,
            initial_active_bin,
            permanent_tail_offset_bps,
            now,
        ) matches Ok(o) ==> {
            &&& o.pool.permanent_tail_offset_bps == permanent_tail_offset_bps
            &&& MIN_PERMANENT_TAIL_OFFSET_BPS <= permanent_tail_offset_bps
                <= DEFAULT_PERMANENT_TAIL_OFFSET_BPS
        },
{
}

} // verus!
