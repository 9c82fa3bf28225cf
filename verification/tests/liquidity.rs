//! Deposits, zaps, withdrawals and payouts of fees, by wallets and by the nexus.
use areal_contracts::account::{AccountInfo, Context};
use areal_contracts::address::find_address_3;
use areal_contracts::error::{DexError, ProgramError};
use areal_contracts::native_dex::amm::{
    calculate_fees, calculate_lp_shares, calculate_remove_amounts, constant_product_output,
};
use areal_contracts::native_dex::constants::{
    DexParams, POOL_TYPE_CONCENTRATED, POOL_TYPE_STANDARD,
};
use areal_contracts::native_dex::instructions::add_liquidity;
use areal_contracts::native_dex::instructions::add_liquidity::{
    balance_deposit, credit_position, enforce_user_lp_allowed, AddLiquidity, AddOutcome,
};
use areal_contracts::native_dex::instructions::claim_lp_fees;
use areal_contracts::native_dex::instructions::claim_lp_fees::{
    compute_claimable, find_pending_fees, ClaimLpFees, ClaimOutcome,
};
use areal_contracts::native_dex::instructions::nexus_add_liquidity;
use areal_contracts::native_dex::instructions::nexus_add_liquidity::NexusAddLiquidity;
use areal_contracts::native_dex::instructions::nexus_claim_rewards;
use areal_contracts::native_dex::instructions::nexus_claim_rewards::NexusClaimRewards;
use areal_contracts::native_dex::instructions::nexus_remove_liquidity;
use areal_contracts::native_dex::instructions::nexus_remove_liquidity::NexusRemoveLiquidity;
use areal_contracts::native_dex::instructions::remove_liquidity;
use areal_contracts::native_dex::instructions::remove_liquidity::{RemoveLiquidity, RemoveOutcome};
use areal_contracts::native_dex::instructions::swap::accrue_lp_fee_per_share;
use areal_contracts::native_dex::instructions::zap_liquidity;
use areal_contracts::native_dex::instructions::zap_liquidity::{
    internal_swap, ZapLiquidity, ZapOutcome,
};
use areal_contracts::native_dex::program;
use areal_contracts::native_dex::state::{DexConfig, LiquidityNexus, LpPosition, PoolState};
use areal_contracts::programs::{spl_token_program, system_program};
use areal_contracts::seeds::SignedBy;
use areal_contracts::steps::{Record, Report, Step};

const RWT: [u8; 32] = [0xA6; 32];
const OT: [u8; 32] = [0x77; 32];
const PROGRAM: [u8; 32] = [0xD0; 32];
const POOL: [u8; 32] = [0x03; 32];
const PROVIDER: [u8; 32] = [0x01; 32];
const NOW: i64 = 1_700_000_000;
const OT_FEE_BPS: u16 = 20;

fn params() -> DexParams {
    DexParams {
        rwt_mint: RWT,
        usdc_mint: [0x11; 32],
        usdy_mint: [0x22; 32],
        rwt_vault_discriminator: [0; 8],
        min_liquidity: 1_000,
        ot_treasury_fee_bps: OT_FEE_BPS,
        default_base_fee_bps: 30,
        default_lp_fee_share_bps: 5_000,
        max_fee_bps: 1_000,
        max_bin_step_bps: 100,
        max_initial_active_bin: 100_000,
        max_shift_distance: 100,
    }
}

fn account(address: u8) -> AccountInfo {
    AccountInfo {
        address: [address; 32],
        owner: spl_token_program(),
        is_signer: true,
        is_writable: true,
        lamports: 10,
        data: vec![],
    }
}

fn token_account(address: u8, mint: [u8; 32]) -> AccountInfo {
    let mut data = mint.to_vec();
    data.extend_from_slice(&[0u8; 40]);
    AccountInfo { data, ..account(address) }
}

fn config() -> DexConfig {
    DexConfig {
        authority: [1; 32],
        pending_authority: [0; 32],
        has_pending: false,
        pause_authority: [2; 32],
        base_fee_bps: 30,
        lp_fee_share_bps: 5_000,
        areal_fee_destination: [0x0F; 32],
        rebalancer: [3; 32],
        is_active: true,
        bump: 255,
    }
}

/// A pool of another mint (A) and the reward token (B), a million of each and as many shares.
fn pool() -> PoolState {
    let mut pool = PoolState::decode(&vec![0u8; PoolState::SIZE]).unwrap();
    pool.pool_type = POOL_TYPE_STANDARD;
    pool.token_a_mint = OT;
    pool.token_b_mint = RWT;
    pool.vault_a = [0xAA; 32];
    pool.vault_b = [0xBB; 32];
    pool.reserve_a = 1_000_000;
    pool.reserve_b = 1_000_000;
    pool.total_lp_shares = 1_000_000;
    pool.fee_bps = 30;
    pool.is_active = true;
    pool.bump = 254;
    pool
}

fn make_pool(cumulative_a: u128, cumulative_b: u128, total_lp_shares: u128) -> PoolState {
    let mut pool = pool();
    pool.cumulative_fees_per_share_a = cumulative_a;
    pool.cumulative_fees_per_share_b = cumulative_b;
    pool.total_lp_shares = total_lp_shares;
    pool
}

fn make_position(shares: u128, fees_claimed_a: u128, fees_claimed_b: u128) -> LpPosition {
    LpPosition {
        pool: POOL,
        owner: PROVIDER,
        shares,
        last_update_ts: 0,
        bump: 253,
        fees_claimed_per_share_a: fees_claimed_a,
        fees_claimed_per_share_b: fees_claimed_b,
    }
}

fn position_address(provider: [u8; 32]) -> ([u8; 32], u8) {
    find_address_3(b"lp", &POOL, &provider, &PROGRAM).unwrap()
}

fn add_accounts() -> AddLiquidity {
    AddLiquidity {
        provider: account(0x01),
        payer: account(0x09),
        dex_config: account(0x02),
        pool_state: account(0x03),
        lp_position: AccountInfo { address: position_address(PROVIDER).0, ..account(0) },
        provider_token_a: account(0x04),
        provider_token_b: account(0x05),
        vault_a: account(0xAA),
        vault_b: account(0xBB),
        token_program: AccountInfo { address: spl_token_program(), ..account(0) },
        system_program: AccountInfo { address: system_program(), ..account(0) },
    }
}

fn add(
    pool: &PoolState,
    existing: Option<LpPosition>,
    a: u64,
    b: u64,
    min_shares: u128,
) -> Result<AddOutcome, ProgramError> {
    let accounts = add_accounts();
    let none = vec![];
    let ctx = Context {
        accounts: &accounts,
        remaining_accounts: &none,
        program_id: &PROGRAM,
        now: NOW,
    };
    add_liquidity::handler(&ctx, &params(), &config(), pool, &existing, a, b, min_shares)
}

fn zap_accounts() -> ZapLiquidity {
    let a = add_accounts();
    ZapLiquidity {
        provider: a.provider,
        payer: a.payer,
        dex_config: a.dex_config,
        pool_state: a.pool_state,
        lp_position: a.lp_position,
        provider_token_a: a.provider_token_a,
        provider_token_b: a.provider_token_b,
        vault_a: a.vault_a,
        vault_b: a.vault_b,
        areal_fee_account: token_account(0x0F, RWT),
        token_program: a.token_program,
        system_program: a.system_program,
    }
}

fn zap_with(
    accounts: &ZapLiquidity,
    remaining: &Vec<AccountInfo>,
    config: &DexConfig,
    pool: &PoolState,
    existing: Option<LpPosition>,
    a: u64,
    b: u64,
    min_shares: u128,
) -> Result<ZapOutcome, ProgramError> {
    let ctx = Context {
        accounts,
        remaining_accounts: remaining,
        program_id: &PROGRAM,
        now: NOW,
    };
    zap_liquidity::handler(&ctx, &params(), config, pool, &existing, a, b, min_shares)
}

fn zap(pool: &PoolState, existing: Option<LpPosition>, a: u64, b: u64) -> Result<ZapOutcome, ProgramError> {
    zap_with(&zap_accounts(), &vec![], &config(), pool, existing, a, b, 0)
}

fn remove_accounts() -> RemoveLiquidity {
    let a = add_accounts();
    RemoveLiquidity {
        provider: a.provider,
        pool_state: a.pool_state,
        lp_position: a.lp_position,
        provider_token_a: a.provider_token_a,
        provider_token_b: a.provider_token_b,
        vault_a: a.vault_a,
        vault_b: a.vault_b,
        token_program: a.token_program,
    }
}

fn remove_with(
    accounts: &RemoveLiquidity,
    pool: &PoolState,
    position: &LpPosition,
    shares: u128,
) -> Result<RemoveOutcome, ProgramError> {
    let none = vec![];
    let ctx = Context {
        accounts,
        remaining_accounts: &none,
        program_id: &PROGRAM,
        now: NOW,
    };
    remove_liquidity::handler(&ctx, pool, position, shares)
}

fn remove(pool: &PoolState, position: &LpPosition, shares: u128) -> Result<RemoveOutcome, ProgramError> {
    remove_with(&remove_accounts(), pool, position, shares)
}

fn claim_accounts() -> ClaimLpFees {
    let a = add_accounts();
    ClaimLpFees {
        recipient: a.provider,
        pool_state: a.pool_state,
        lp_position: a.lp_position,
        pool_vault_a: a.vault_a,
        pool_vault_b: a.vault_b,
        recipient_token_a_ata: a.provider_token_a,
        recipient_token_b_ata: a.provider_token_b,
        token_program: a.token_program,
    }
}

fn claim(pool: &PoolState, position: &LpPosition) -> Result<ClaimOutcome, ProgramError> {
    let accounts = claim_accounts();
    let none = vec![];
    let ctx = Context {
        accounts: &accounts,
        remaining_accounts: &none,
        program_id: &PROGRAM,
        now: NOW,
    };
    claim_lp_fees::handler(&ctx, pool, position)
}

fn dex<T>(e: DexError) -> Result<T, ProgramError> {
    Err(ProgramError::Dex(e))
}

#[test]
fn add_liquidity_initializes_fee_snapshot_from_pool_cumulative() {
    let cumulative_a: u128 = 7u128 << 64;
    let cumulative_b: u128 = 11u128 << 64;
    let pool = make_pool(cumulative_a, cumulative_b, 5_000);
    let o = add(&pool, None, 200_000, 200_000, 0).unwrap();
    assert_eq!(o.position.shares, 1_000);
    assert_eq!(o.position.fees_claimed_per_share_a, cumulative_a);
    assert_eq!(o.position.fees_claimed_per_share_b, cumulative_b);
    assert_eq!(find_pending_fees(&pool, &o.position), Ok((0, 0)));
    assert_eq!(compute_claimable(0, o.position.shares).unwrap(), 0u64);
}

#[test]
fn add_liquidity_existing_position_auto_claims_before_increment() {
    let cumulative_a: u128 = 4u128 << 64;
    let pool = make_pool(cumulative_a, 0, 1_000);
    let lp = make_position(1_000, 0, 0);
    let o = add(&pool, Some(lp), 500_000, 500_000, 0).unwrap();
    assert_eq!(o.claims.transfer_a.unwrap().amount, 4_000u64);
    assert_eq!(o.claims.transfer_b, None);
    assert_eq!(o.position.shares, 1_500);
    assert_eq!(o.create_position, None);
    assert_eq!(find_pending_fees(&pool, &o.position), Ok((0, 0)));
}

#[test]
fn rejects_master_pool_add_liquidity() {
    let err = enforce_user_lp_allowed(POOL_TYPE_CONCENTRATED).unwrap_err();
    assert_eq!(err, ProgramError::Dex(DexError::MasterPoolUserLpDisabled));
    let mut p = pool();
    p.pool_type = POOL_TYPE_CONCENTRATED;
    assert_eq!(add(&p, None, 1, 1, 0), dex(DexError::MasterPoolUserLpDisabled));
}

#[test]
fn accepts_standard_curve_add_liquidity() {
    assert!(enforce_user_lp_allowed(POOL_TYPE_STANDARD).is_ok());
}

#[test]
fn first_deposit_burns_the_minimum() {
    let mut p = pool();
    p.reserve_a = 0;
    p.reserve_b = 0;
    p.total_lp_shares = 0;
    let o = add(&p, None, 40_000, 10_000, 0).unwrap();
    assert_eq!(o.event.shares_minted, 20_000 - 1_000);
    assert_eq!(o.pool.total_lp_shares, 20_000);
    assert_eq!(o.pool.reserve_a, 40_000);
    assert_eq!(o.pool.reserve_b, 10_000);
    assert_eq!(o.position.shares, 19_000);
    let created = o.create_position.unwrap();
    let (address, bump) = position_address(PROVIDER);
    assert_eq!(created.account, address);
    assert_eq!(created.payer, [0x09; 32]);
    assert_eq!(created.space, 129);
    let signature = SignedBy::Position { pool: POOL, provider: PROVIDER, bump };
    assert_eq!(created.signed_by, signature);
    assert_eq!(add(&p, None, 1_000, 1_000, 0), dex(DexError::ZeroOutput));
    assert_eq!(add(&p, None, 40_000, 10_000, 19_001), dex(DexError::SlippageExceeded));
}

#[test]
fn later_deposit_is_balanced() {
    let mut p = pool();
    p.reserve_b = 2_000_000;
    let o = add(&p, None, 1_000, 5_000, 0).unwrap();
    assert_eq!(o.transfer_a.unwrap().amount, 1_000);
    assert_eq!(o.transfer_b.unwrap().amount, 2_000);
    assert_eq!(o.event.shares_minted, 1_000);
    let o = add(&p, None, 9_000, 5_000, 0).unwrap();
    assert_eq!(o.transfer_a.unwrap().amount, 2_500);
    assert_eq!(o.transfer_b.unwrap().amount, 5_000);
    assert_eq!(balance_deposit(9_000, 5_000, 0, 5), dex(DexError::MathOverflow));
    assert_eq!(o.transfer_a.unwrap().signed_by, SignedBy::Transaction);
}

#[test]
fn add_refusals() {
    let p = pool();
    assert_eq!(add(&p, None, 0, 1, 0), dex(DexError::ZeroAmount));
    assert_eq!(add(&p, None, 1, 0, 0), dex(DexError::ZeroAmount));
    let inactive = PoolState { is_active: false, ..p };
    assert_eq!(add(&inactive, None, 1, 1, 0), dex(DexError::PoolNotActive));
    let moved = PoolState { vault_a: [1; 32], ..p };
    assert_eq!(add(&moved, None, 1, 1, 0), dex(DexError::InvalidVault));
    let foreign = LpPosition { owner: [8; 32], ..make_position(1, 0, 0) };
    assert_eq!(add(&p, Some(foreign), 10, 10, 0), dex(DexError::Unauthorized));
    let elsewhere = LpPosition { pool: [8; 32], ..make_position(1, 0, 0) };
    assert_eq!(add(&p, Some(elsewhere), 10, 10, 0), dex(DexError::InvalidVault));
    let full = make_position(u128::MAX, 0, 0);
    assert_eq!(add(&p, Some(full), 10, 10, 0), dex(DexError::MathOverflow));
    let ahead = make_position(1, 5, 0);
    assert_eq!(add(&p, Some(ahead), 10, 10, 0), dex(DexError::MathOverflow));
    let brim = PoolState { reserve_a: u64::MAX, reserve_b: u64::MAX, ..p };
    assert_eq!(add(&brim, None, u64::MAX, u64::MAX, 0), dex(DexError::MathOverflow));
    let mut accounts = add_accounts();
    accounts.lp_position = account(0x44);
    let none = vec![];
    let ctx = Context {
        accounts: &accounts,
        remaining_accounts: &none,
        program_id: &PROGRAM,
        now: NOW,
    };
    let r = add_liquidity::handler(&ctx, &params(), &config(), &p, &None, 10, 10, 0);
    assert_eq!(r, Err(ProgramError::InvalidSeeds));
    let paused = DexConfig { is_active: false, ..config() };
    let r = add_liquidity::handler(&ctx, &params(), &paused, &p, &None, 10, 10, 0);
    assert_eq!(r, dex(DexError::DexPaused));
}

#[test]
fn depositing_and_withdrawing_never_profits() {
    let mut p = pool();
    p.reserve_a = 999_983;
    p.reserve_b = 1_234_567;
    p.total_lp_shares = 777_777;
    let o = add(&p, None, 12_345, 67_890, 0).unwrap();
    let back = remove(&o.pool, &o.position, o.position.shares).unwrap();
    assert!(back.transfer_a.unwrap().amount <= o.transfer_a.unwrap().amount);
    assert!(back.transfer_b.unwrap().amount <= o.transfer_b.unwrap().amount);
    assert_eq!(back.pool.total_lp_shares, p.total_lp_shares);
    assert!(back.pool.reserve_a >= p.reserve_a);
}

#[test]
fn claim_lp_fees_basic_one_side() {
    let pool = make_pool(10u128 << 64, 0, 1);
    let position_shares: u128 = 1_000;
    let claimable_a = compute_claimable(pool.cumulative_fees_per_share_a, position_shares).unwrap();
    assert_eq!(claimable_a, 10_000u64);
    let claimable_b = compute_claimable(pool.cumulative_fees_per_share_b, position_shares).unwrap();
    assert_eq!(claimable_b, 0u64);
    let o = claim(&pool, &make_position(position_shares, 0, 0)).unwrap();
    let paid = o.transfer_a.unwrap();
    assert_eq!(paid.amount, 10_000);
    assert_eq!(paid.from, [0xAA; 32]);
    assert_eq!(paid.to, [0x04; 32]);
    assert_eq!(o.transfer_b, None);
    assert_eq!(o.event.claimable_a, 10_000);
}

#[test]
fn claim_lp_fees_zero_delta_no_op() {
    let cumulative_a: u128 = 7u128 << 64;
    let cumulative_b: u128 = 3u128 << 64;
    let pool = make_pool(cumulative_a, cumulative_b, 1);
    let lp = make_position(500, cumulative_a, cumulative_b);
    assert_eq!(find_pending_fees(&pool, &lp), Ok((0, 0)));
    let o = claim(&pool, &lp).unwrap();
    assert_eq!(o.transfer_a, None);
    assert_eq!(o.transfer_b, None);
    assert_eq!(o.event.claimable_a, 0);
}

#[test]
fn claim_lp_fees_position_pool_mismatch_revert() {
    let other_pool_key: [u8; 32] = [2u8; 32];
    let lp = LpPosition { pool: other_pool_key, ..make_position(100, 0, 0) };
    assert_ne!(lp.pool, POOL);
    assert_eq!(claim(&pool(), &lp), dex(DexError::InvalidLpPosition));
}

#[test]
fn claim_lp_fees_updates_position_snapshot() {
    let cumulative_a: u128 = (5u128 << 64) | 0xABCD;
    let cumulative_b: u128 = (11u128 << 64) | 0x1234;
    let pool = make_pool(cumulative_a, cumulative_b, 1);
    let lp = make_position(1_000, 0, 0);
    let o = claim(&pool, &lp).unwrap();
    assert_eq!(o.position.fees_claimed_per_share_a, cumulative_a);
    assert_eq!(o.position.fees_claimed_per_share_b, cumulative_b);
    assert_eq!(o.position.last_update_ts, NOW);
    assert_eq!(find_pending_fees(&pool, &o.position), Ok((0, 0)));
    let again = claim(&pool, &o.position).unwrap();
    assert_eq!(again.transfer_a, None);
    assert_eq!(again.transfer_b, None);
}

#[test]
fn claim_refusals() {
    let lp = make_position(100, 0, 0);
    let moved = PoolState { vault_b: [1; 32], ..pool() };
    assert_eq!(claim(&moved, &lp), dex(DexError::InvalidVault));
    let foreign = LpPosition { owner: [8; 32], ..lp };
    assert_eq!(claim(&pool(), &foreign), dex(DexError::Unauthorized));
    let ahead = make_position(100, 1, 0);
    assert_eq!(claim(&pool(), &ahead), dex(DexError::MathOverflow));
    assert_eq!(compute_claimable(u128::MAX, 2), dex(DexError::MathOverflow));
}

#[test]
fn remove_liquidity_full_close_auto_claims_pending_fees() {
    let cumulative_a: u128 = 6u128 << 64;
    let cumulative_b: u128 = 2u128 << 64;
    let pool = make_pool(cumulative_a, cumulative_b, 5_000);
    let lp = make_position(5_000, 0, 0);
    let o = remove(&pool, &lp, 5_000).unwrap();
    assert_eq!(o.claims.transfer_a.unwrap().amount, 30_000u64);
    assert_eq!(o.claims.transfer_b.unwrap().amount, 10_000u64);
    assert_eq!(o.position.shares, 0u128);
    assert_eq!(o.position.fees_claimed_per_share_a, cumulative_a);
    assert_eq!(o.position.fees_claimed_per_share_b, cumulative_b);
    assert_eq!(find_pending_fees(&pool, &o.position), Ok((0, 0)));
    let close = o.close.unwrap();
    assert_eq!(close.recipient, PROVIDER);
    assert_eq!(close.recipient_lamports, 20);
}

#[test]
fn withdrawal_pays_its_part() {
    let p = pool();
    let lp = make_position(300_000, 0, 0);
    let o = remove(&p, &lp, 100_001).unwrap();
    assert_eq!(o.transfer_a.unwrap().amount, 100_001);
    assert_eq!(o.transfer_a.unwrap().from, [0xAA; 32]);
    assert_eq!(o.pool.reserve_a, 899_999);
    assert_eq!(o.pool.total_lp_shares, 899_999);
    assert_eq!(o.position.shares, 199_999);
    assert_eq!(o.close, None);
    assert_eq!(o.bins, None);
    assert_eq!(calculate_remove_amounts(1, 5, 7, 3), Ok((1, 2)));
    assert_eq!(calculate_remove_amounts(1, 5, 7, 0), dex(DexError::MathOverflow));
}

#[test]
fn withdrawal_works_while_paused() {
    let lp = make_position(300_000, 0, 0);
    let open = remove(&pool(), &lp, 1_000).unwrap();
    let paused = PoolState { is_active: false, ..pool() };
    let closed = remove(&paused, &lp, 1_000).unwrap();
    assert_eq!(open.transfer_a, closed.transfer_a);
    assert_eq!(open.transfer_b, closed.transfer_b);
    assert!(claim(&paused, &lp).is_ok());
}

#[test]
fn remove_refusals() {
    let p = pool();
    let lp = make_position(100, 0, 0);
    assert_eq!(remove(&p, &lp, 0), dex(DexError::ZeroAmount));
    assert_eq!(remove(&p, &lp, 101), dex(DexError::InsufficientShares));
    let moved = PoolState { vault_b: [1; 32], ..p };
    assert_eq!(remove(&moved, &lp, 1), dex(DexError::InvalidVault));
    let foreign = LpPosition { owner: [8; 32], ..lp };
    assert_eq!(remove(&p, &foreign, 1), dex(DexError::Unauthorized));
    let elsewhere = LpPosition { pool: [8; 32], ..lp };
    assert_eq!(remove(&p, &elsewhere, 1), dex(DexError::InvalidVault));
    let ladder = PoolState { pool_type: POOL_TYPE_CONCENTRATED, ..p };
    assert_eq!(remove(&ladder, &lp, 1), dex(DexError::InvalidBinRange));
    let mut rich = remove_accounts();
    rich.provider.lamports = u64::MAX;
    assert_eq!(remove_with(&rich, &p, &lp, 100), dex(DexError::MathOverflow));
}

#[test]
fn zap_liquidity_existing_position_auto_claims_before_increment() {
    let cumulative_b: u128 = 8u128 << 64;
    let pool = make_pool(0, cumulative_b, 2_000);
    let lp = make_position(2_000, 0, 0);
    assert_eq!(find_pending_fees(&pool, &lp), Ok((0, 16_000)));
    let o = zap(&pool, Some(lp), 500_000, 500_000).unwrap();
    assert_eq!(o.claims.transfer_a, None);
    assert_eq!(o.claims.transfer_b.unwrap().amount, 16_000u64);
    assert_eq!(o.position.shares, 3_000);
    assert_eq!(find_pending_fees(&o.pool, &o.position), Ok((0, 0)));
}

#[test]
fn zap_internal_swap_bumps_accumulator_on_rwt_input_side() {
    let mut pool = make_pool(0, 0, 1_000_000);
    let fee_lp = 50_000u64;
    accrue_lp_fee_per_share(&mut pool, fee_lp, false).expect("accrues");
    assert_eq!(pool.cumulative_fees_per_share_a, 0u128);
    let expected_b = ((fee_lp as u128) << 64) / 1_000_000u128;
    assert_eq!(pool.cumulative_fees_per_share_b, expected_b);
    let claimable_b = compute_claimable(pool.cumulative_fees_per_share_b, 100_000).unwrap();
    assert_eq!(claimable_b, 4_999u64);
}

#[test]
fn zap_internal_swap_bumps_accumulator_on_rwt_output_side() {
    let mut pool = make_pool(0, 0, 2_000_000);
    let fee_lp = 75_000u64;
    accrue_lp_fee_per_share(&mut pool, fee_lp, true).expect("accrues");
    assert_eq!(pool.cumulative_fees_per_share_b, 0u128);
    let expected_a = ((fee_lp as u128) << 64) / 2_000_000u128;
    assert_eq!(pool.cumulative_fees_per_share_a, expected_a);
    let claimable_a = compute_claimable(pool.cumulative_fees_per_share_a, 200_000).unwrap();
    assert_eq!(claimable_a, 7_499u64);
}

#[test]
fn zap_internal_swap_with_zero_total_shares_is_noop() {
    let mut pool = make_pool(0, 0, 0);
    accrue_lp_fee_per_share(&mut pool, 100_000, true).expect("no shares");
    accrue_lp_fee_per_share(&mut pool, 100_000, false).expect("no shares");
    assert_eq!(pool.cumulative_fees_per_share_a, 0u128);
    assert_eq!(pool.cumulative_fees_per_share_b, 0u128);
}

#[test]
fn zap_fresh_init_starts_at_post_bump_cumulative() {
    let mut pool = make_pool(0, 0, 100);
    let fee_lp = 100u64;
    accrue_lp_fee_per_share(&mut pool, fee_lp, false).expect("accrues");
    assert_eq!(pool.cumulative_fees_per_share_a, 0u128);
    assert_eq!(pool.cumulative_fees_per_share_b, 1u128 << 64);
    let (address, _) = position_address(PROVIDER);
    let update =
        credit_position(&None, &pool, 50, &[0x09; 32], &address, &PROGRAM, &POOL, &PROVIDER, NOW)
            .unwrap();
    assert_eq!(update.position.shares, 50);
    let (new_a, new_b) = find_pending_fees(&pool, &update.position).unwrap();
    assert_eq!(new_a, 0u64);
    assert_eq!(new_b, 0u64);
    let (_, predeposit) = find_pending_fees(&pool, &make_position(100, 0, 0)).unwrap();
    assert_eq!(predeposit + new_b, fee_lp);
}

#[test]
fn zap_existing_position_auto_claims_full_share_then_advances_to_post_bump() {
    let mut pool = make_pool(0, 0, 100);
    let lp = make_position(100, 0, 0);
    let fee_lp = 100u64;
    accrue_lp_fee_per_share(&mut pool, fee_lp, false).expect("accrues");
    let (address, _) = position_address(PROVIDER);
    let update = credit_position(
        &Some(lp),
        &pool,
        50,
        &[0x09; 32],
        &address,
        &PROGRAM,
        &POOL,
        &PROVIDER,
        NOW,
    )
    .unwrap();
    assert_eq!(update.claim_a, 0u64);
    assert_eq!(update.claim_b, 100u64);
    assert_eq!(update.position.shares, 150u128);
    assert_eq!(find_pending_fees(&pool, &update.position), Ok((0, 0)));
    assert_eq!(update.claim_b, fee_lp);
}

#[test]
fn zap_existing_position_with_zero_shares_repins_to_current_cumulative() {
    let pool = make_pool(0, 100u128 << 64, 1_000_000);
    let lp = make_position(0, 0, 50u128 << 64);
    let (address, _) = position_address(PROVIDER);
    let update = credit_position(
        &Some(lp),
        &pool,
        100_000,
        &[0x09; 32],
        &address,
        &PROGRAM,
        &POOL,
        &PROVIDER,
        NOW,
    )
    .unwrap();
    assert_eq!(update.position.fees_claimed_per_share_b, 100u128 << 64);
    assert_eq!(find_pending_fees(&pool, &update.position), Ok((0, 0)));
    assert_eq!(update.claim_b, 0);
    let broken = compute_claimable(50u128 << 64, update.position.shares).unwrap();
    assert_eq!(broken, 5_000_000u64);
}

#[test]
fn zap_internal_swap_full_swap_amount_enters_reserves() {
    let reserve_a_before: u64 = 1_000_000;
    let reserve_b_before: u64 = 1_000_000;
    let swap_b: u64 = 10_000;
    let (swap_out, _flp, _fp, _fot) = internal_swap(
        swap_b,
        reserve_b_before,
        reserve_a_before,
        true,
        30,
        5_000,
        false,
        OT_FEE_BPS,
    )
    .expect("trades");
    let expected_out =
        constant_product_output(reserve_b_before, reserve_a_before, swap_b).expect("output");
    assert_eq!(swap_out, expected_out);
    let o = zap(&pool(), None, 50_000, 70_000).unwrap();
    assert_eq!(o.event.swapped_amount, swap_b);
    assert_eq!(o.pool.reserve_b, reserve_b_before + swap_b + 60_000);
    assert_eq!(o.pool.reserve_a, reserve_a_before - swap_out + 58_817);
    assert_eq!(o.event.shares_minted, 59_405);
}

#[test]
fn zap_inbound_debit_grossed_up_on_rwt_side() {
    let amount_a: u64 = 100_000;
    let amount_b: u64 = 110_000;
    let swap_b: u64 = 5_000;
    assert!(amount_b > amount_a);
    let fees = calculate_fees(swap_b, 30, 5_000, true, OT_FEE_BPS).expect("fees");
    let mut p = pool();
    p.has_ot_treasury = true;
    p.ot_treasury_fee_destination = [0x42; 32];
    let o = zap_with(
        &zap_accounts(),
        &vec![account(0x42)],
        &config(),
        &p,
        None,
        amount_a,
        amount_b,
        0,
    )
    .unwrap();
    assert_eq!(o.event.swapped_amount, swap_b);
    let inbound_b = amount_b + fees.fee_lp + fees.fee_protocol + fees.ot_treasury_fee;
    assert_eq!(inbound_b, amount_b + fees.fee_total + fees.ot_treasury_fee);
    assert_eq!(o.transfer_b.unwrap().amount, inbound_b);
    assert_eq!(o.transfer_a.unwrap().amount, amount_a);
    assert_eq!(o.ot_treasury_fee.unwrap().to, [0x42; 32]);
}

#[test]
fn zap_post_swap_vault_invariant() {
    let amount_a: u64 = 50_000;
    let amount_b: u64 = 70_000;
    let mut p = pool();
    p.has_ot_treasury = true;
    p.ot_treasury_fee_destination = [0x42; 32];
    let o = zap_with(
        &zap_accounts(),
        &vec![account(0x42)],
        &config(),
        &p,
        None,
        amount_a,
        amount_b,
        0,
    )
    .unwrap();
    let swap_b = o.event.swapped_amount;
    assert!(swap_b > 0);
    let fees = calculate_fees(swap_b, 30, 5_000, true, OT_FEE_BPS).expect("fees");
    let mut vault_b = p.reserve_b + o.transfer_b.unwrap().amount;
    vault_b -= o.protocol_fee.unwrap().amount;
    vault_b -= o.ot_treasury_fee.unwrap().amount;
    let swap_leg_vault_b = vault_b - (amount_b - swap_b);
    assert_eq!(swap_leg_vault_b, p.reserve_b + swap_b + fees.fee_lp);
    assert_eq!(vault_b, o.pool.reserve_b + fees.fee_lp);
    let vault_a = p.reserve_a + o.transfer_a.unwrap().amount;
    assert!(vault_a >= o.pool.reserve_a);
    assert_eq!(find_pending_fees(&o.pool, &o.position), Ok((0, 0)));
}

#[test]
fn zap_leaves_no_reward_tokens_uncounted() {
    let p = PoolState { reserve_a: 990_000, ..pool() };
    let o = zap(&p, None, 69_500, 50_000).unwrap();
    assert_eq!(o.event.swapped_amount, 10_000);
    assert_eq!(o.event.shares_minted, 59_500);
    let vault_a = 990_000 + o.transfer_a.unwrap().amount;
    let vault_b = 1_000_000 + o.transfer_b.unwrap().amount - o.protocol_fee.unwrap().amount;
    assert_eq!(vault_a, 1_059_500);
    assert_eq!(o.pool.reserve_a, 1_059_500);
    assert_eq!(vault_b, 1_049_985);
    assert_eq!(vault_b, o.pool.reserve_b + 15);
    let swapped = PoolState {
        token_a_mint: RWT,
        token_b_mint: [0xB7; 32],
        reserve_b: 990_000,
        ..pool()
    };
    let o = zap(&swapped, None, 50_000, 69_500).unwrap();
    assert_eq!(o.event.shares_minted, 59_500);
    let vault_a = 1_000_000 + o.transfer_a.unwrap().amount - o.protocol_fee.unwrap().amount;
    assert_eq!(vault_a, 1_049_985);
    assert_eq!(vault_a, o.pool.reserve_a + 15);
}

#[test]
fn zap_takes_a_single_token() {
    let o = zap(&pool(), None, 0, 20_000).unwrap();
    assert_eq!(o.event.swapped_amount, 10_000);
    assert_eq!(o.transfer_a, None);
    assert_eq!(o.transfer_b.unwrap().amount, 20_030);
    assert_eq!(o.pool.reserve_a, 990_100 + 9_802);
    let o = zap(&pool(), None, 20_000, 0).unwrap();
    assert_eq!(o.event.swapped_amount, 10_000);
    assert_eq!(o.transfer_b, None);
    assert_eq!(o.transfer_a.unwrap().amount, 20_000);
    assert_eq!(o.protocol_fee.unwrap().from, [0xBB; 32]);
}

#[test]
fn zap_refusals() {
    let p = pool();
    assert_eq!(zap(&p, None, 0, 0), dex(DexError::ZeroAmount));
    let inactive = PoolState { is_active: false, ..p };
    assert_eq!(zap(&inactive, None, 1, 1), dex(DexError::PoolNotActive));
    let moved = PoolState { vault_a: [1; 32], ..p };
    assert_eq!(zap(&moved, None, 1, 1), dex(DexError::InvalidVault));
    let empty = PoolState { reserve_a: 0, reserve_b: 0, total_lp_shares: 0, ..p };
    assert_eq!(zap(&empty, None, 0, 5), dex(DexError::ZeroAmount));
    assert_eq!(zap(&empty, None, 5, 5), dex(DexError::ZeroOutput));
    let lopsided = PoolState { reserve_a: 0, ..p };
    assert_eq!(zap(&lopsided, None, 5, 5), dex(DexError::MathOverflow));
    let with_ot = PoolState {
        has_ot_treasury: true,
        ot_treasury_fee_destination: [0x42; 32],
        ..p
    };
    assert_eq!(zap(&with_ot, None, 5, 5), dex(DexError::MissingOtTreasuryAccount));
    let c = config();
    let r = zap_with(&zap_accounts(), &vec![account(0x43)], &c, &with_ot, None, 5, 5, 0);
    assert_eq!(r, dex(DexError::OtTreasuryAccountMismatch));
    let paused = DexConfig { is_active: false, ..c };
    let r = zap_with(&zap_accounts(), &vec![], &paused, &p, None, 5, 5, 0);
    assert_eq!(r, dex(DexError::DexPaused));
    let elsewhere = DexConfig { areal_fee_destination: [1; 32], ..c };
    let r = zap_with(&zap_accounts(), &vec![], &elsewhere, &p, None, 5, 5, 0);
    assert_eq!(r, dex(DexError::InvalidTokenAccount));
    let mut wrong_mint = zap_accounts();
    wrong_mint.areal_fee_account = token_account(0x0F, OT);
    let r = zap_with(&wrong_mint, &vec![], &c, &p, None, 5, 5, 0);
    assert_eq!(r, dex(DexError::InvalidProtocolFeeDestination));
    let r = zap_with(&zap_accounts(), &vec![], &c, &p, None, 50_000, 70_000, 59_406);
    assert_eq!(r, dex(DexError::SlippageExceeded));
}

#[test]
fn rejects_master_pool_zap_liquidity() {
    let err = enforce_user_lp_allowed(POOL_TYPE_CONCENTRATED).unwrap_err();
    assert_eq!(err, ProgramError::Dex(DexError::MasterPoolUserLpDisabled));
    let ladder = PoolState { pool_type: POOL_TYPE_CONCENTRATED, ..pool() };
    assert_eq!(zap(&ladder, None, 5, 5), dex(DexError::MasterPoolUserLpDisabled));
}

#[test]
fn accepts_standard_curve_zap_liquidity() {
    assert!(enforce_user_lp_allowed(POOL_TYPE_STANDARD).is_ok());
    assert!(zap(&pool(), None, 5_000, 5_000).is_ok());
}

#[test]
fn share_formula() {
    assert_eq!(calculate_lp_shares(4, 9, 0, 0, 0, true, 1), Ok(5));
    assert_eq!(calculate_lp_shares(4, 9, 0, 0, 0, true, 6), Ok(0));
    assert_eq!(calculate_lp_shares(10, 30, 100, 200, 1_000, false, 1), Ok(100));
    assert_eq!(calculate_lp_shares(10, 10, 100, 200, 1_000, false, 1), Ok(50));
    assert_eq!(calculate_lp_shares(1, 1, 0, 5, 7, false, 1), dex(DexError::MathOverflow));
    let r = calculate_lp_shares(2, 1, 5, 5, u128::MAX, false, 1);
    assert_eq!(r, dex(DexError::MathOverflow));
}

#[test]
fn fees_of_one_trade_cover_all_claims() {
    let mut p = make_pool(0, 0, 1_000);
    accrue_lp_fee_per_share(&mut p, 100, true).unwrap();
    let mut paid = 0;
    for shares in [1u128, 332, 333, 334] {
        paid += compute_claimable(p.cumulative_fees_per_share_a, shares).unwrap();
    }
    assert!(paid <= 100);
    assert_eq!(paid, 99);
}

fn nexus_with(manager: [u8; 32], is_active: bool) -> LiquidityNexus {
    LiquidityNexus {
        manager,
        total_deposited_usdc: 0,
        total_deposited_rwt: 0,
        is_active,
        bump: 0xFD,
    }
}

fn nexus_add(
    signer: [u8; 32],
    nexus: &LiquidityNexus,
    pool: &PoolState,
    existing: Option<LpPosition>,
    a: u64,
    b: u64,
) -> Result<AddOutcome, ProgramError> {
    let base = add_accounts();
    let accounts = NexusAddLiquidity {
        manager: AccountInfo { address: signer, ..account(0) },
        dex_config: base.dex_config,
        liquidity_nexus: account(0x4E),
        pool_state: base.pool_state,
        lp_position: AccountInfo { address: position_address([0x4E; 32]).0, ..account(0) },
        nexus_token_a: base.provider_token_a,
        nexus_token_b: base.provider_token_b,
        vault_a: base.vault_a,
        vault_b: base.vault_b,
        token_program: base.token_program,
        system_program: base.system_program,
    };
    let none = vec![];
    let ctx = Context {
        accounts: &accounts,
        remaining_accounts: &none,
        program_id: &PROGRAM,
        now: NOW,
    };
    nexus_add_liquidity::handler(&ctx, &params(), nexus, &config(), pool, &existing, a, b, 0)
}

#[test]
fn nexus_add_liquidity_kill_switch_revert() {
    let nexus = nexus_with([0u8; 32], true);
    let r = nexus_add([0xFFu8; 32], &nexus, &pool(), None, 10, 10);
    assert_eq!(r, dex(DexError::NexusManagerDisabled));
    let off = nexus_with([0xFFu8; 32], false);
    let r = nexus_add([0xFFu8; 32], &off, &pool(), None, 10, 10);
    assert_eq!(r, dex(DexError::NexusNotActive));
}

#[test]
fn nexus_add_liquidity_inherits_d29_fresh_init() {
    let cumulative_a: u128 = 9u128 << 64;
    let cumulative_b: u128 = 3u128 << 64;
    let pool = make_pool(cumulative_a, cumulative_b, 4_000);
    let nexus = nexus_with([0x4D; 32], true);
    let o = nexus_add([0x4D; 32], &nexus, &pool, None, 250_000, 250_000).unwrap();
    assert_eq!(o.position.shares, 1_000);
    assert_eq!(o.position.owner, [0x4E; 32]);
    assert_eq!(o.create_position.unwrap().payer, [0x4D; 32]);
    assert_eq!(o.transfer_a.unwrap().signed_by, SignedBy::Nexus { bump: 0xFD });
    assert_eq!(find_pending_fees(&pool, &o.position), Ok((0, 0)));
}

#[test]
fn nexus_add_liquidity_existing_position_auto_claims_d29() {
    let cumulative_a: u128 = 5u128 << 64;
    let pool = make_pool(cumulative_a, 0, 1_500);
    let lp = LpPosition { owner: [0x4E; 32], ..make_position(1_500, 0, 0) };
    let nexus = nexus_with([0x4D; 32], true);
    let o = nexus_add([0x4D; 32], &nexus, &pool, Some(lp), 333_334, 333_334).unwrap();
    assert_eq!(o.claims.transfer_a.unwrap().amount, 7_500u64);
    assert_eq!(o.claims.transfer_b, None);
    assert_eq!(o.position.shares, 2_000);
    assert_eq!(find_pending_fees(&pool, &o.position), Ok((0, 0)));
    let ladder = PoolState { pool_type: POOL_TYPE_CONCENTRATED, ..pool };
    assert!(nexus_add([0x4D; 32], &nexus, &ladder, Some(lp), 333_334, 333_334).is_ok());
}

fn nexus_remove(
    signer: [u8; 32],
    nexus: &LiquidityNexus,
    pool: &PoolState,
    position: &LpPosition,
    shares: u128,
) -> Result<RemoveOutcome, ProgramError> {
    let base = add_accounts();
    let accounts = NexusRemoveLiquidity {
        manager: AccountInfo { address: signer, ..account(0) },
        liquidity_nexus: account(0x4E),
        pool_state: base.pool_state,
        lp_position: AccountInfo { address: position_address([0x4E; 32]).0, ..account(0) },
        nexus_token_a: base.provider_token_a,
        nexus_token_b: base.provider_token_b,
        vault_a: base.vault_a,
        vault_b: base.vault_b,
        token_program: base.token_program,
    };
    let none = vec![];
    let ctx = Context {
        accounts: &accounts,
        remaining_accounts: &none,
        program_id: &PROGRAM,
        now: NOW,
    };
    nexus_remove_liquidity::handler(&ctx, nexus, pool, position, shares)
}

#[test]
fn nexus_remove_liquidity_kill_switch_revert() {
    let nexus = nexus_with([0u8; 32], true);
    let lp = LpPosition { owner: [0x4E; 32], ..make_position(3_000, 0, 0) };
    let r = nexus_remove([0xAAu8; 32], &nexus, &pool(), &lp, 1);
    assert_eq!(r, dex(DexError::NexusManagerDisabled));
}

#[test]
fn nexus_remove_liquidity_inherits_d30_auto_claim() {
    let cumulative_b: u128 = 7u128 << 64;
    let pool = make_pool(0, cumulative_b, 3_000);
    let lp = LpPosition { owner: [0x4E; 32], ..make_position(3_000, 0, 0) };
    let nexus = nexus_with([0x4D; 32], true);
    let o = nexus_remove([0x4D; 32], &nexus, &pool, &lp, 1_000).unwrap();
    assert_eq!(o.claims.transfer_a, None);
    assert_eq!(o.claims.transfer_b.unwrap().amount, 21_000u64);
    assert_eq!(o.position.shares, 2_000);
    assert_eq!(find_pending_fees(&pool, &o.position), Ok((0, 0)));
    let closed = nexus_remove([0x4D; 32], &nexus, &pool, &lp, 3_000).unwrap();
    assert_eq!(closed.close.unwrap().recipient, [0x4E; 32]);
}

fn nexus_claim(nexus: &LiquidityNexus, pool: &PoolState, position: &LpPosition) -> Result<ClaimOutcome, ProgramError> {
    let base = add_accounts();
    let accounts = NexusClaimRewards {
        authority: account(0x01),
        dex_config: base.dex_config,
        liquidity_nexus: account(0x4E),
        pool_state: base.pool_state,
        lp_position: base.lp_position,
        pool_vault_a: base.vault_a,
        pool_vault_b: base.vault_b,
        nexus_token_a_ata: base.provider_token_a,
        nexus_token_b_ata: base.provider_token_b,
    };
    let none = vec![];
    let ctx = Context {
        accounts: &accounts,
        remaining_accounts: &none,
        program_id: &PROGRAM,
        now: NOW,
    };
    nexus_claim_rewards::handler(&ctx, nexus, pool, position)
}

#[test]
fn nexus_claim_rewards_inherits_d28_claim_logic() {
    let pool = make_pool(4u128 << 64, 0, 1_000_000);
    let lp = LpPosition { owner: [0x4E; 32], ..make_position(2_500, 0, 0) };
    let o = nexus_claim(&nexus_with([0; 32], true), &pool, &lp).unwrap();
    assert_eq!(o.transfer_a.unwrap().amount, 10_000u64);
    assert_eq!(o.transfer_b, None);
    let r = nexus_claim(&nexus_with([0; 32], false), &pool, &lp);
    assert_eq!(r, dex(DexError::NexusNotActive));
}

#[test]
fn nexus_claim_rewards_zero_pending_no_op() {
    let cumulative_a: u128 = 7u128 << 64;
    let cumulative_b: u128 = 11u128 << 64;
    let pool = make_pool(cumulative_a, cumulative_b, 1_000_000);
    let lp = LpPosition { owner: [0x4E; 32], ..make_position(1_000, cumulative_a, cumulative_b) };
    let o = nexus_claim(&nexus_with([0x4D; 32], true), &pool, &lp).unwrap();
    assert_eq!(o.transfer_a, None);
    assert_eq!(o.transfer_b, None);
}

#[test]
fn called_deposits_check_their_accounts() {
    let (config_address, _) =
        areal_contracts::address::find_address_1(b"dex_config", &PROGRAM).unwrap();
    let none = vec![];
    let mut accounts = add_accounts();
    accounts.dex_config.address = config_address;
    let call = |accounts: &AddLiquidity| {
        let ctx = Context {
            accounts,
            remaining_accounts: &none,
            program_id: &PROGRAM,
            now: NOW,
        };
        program::add_liquidity(&ctx, &params(), &config(), &pool(), &None, 10_000, 10_000, 0)
    };
    assert!(call(&accounts).is_ok());
    accounts.payer.is_writable = false;
    assert_eq!(call(&accounts), Err(ProgramError::AccountConstraint));
    accounts.payer.is_writable = true;
    accounts.system_program.address = [1; 32];
    assert_eq!(call(&accounts), Err(ProgramError::AccountConstraint));
}

#[test]
fn deposits_write_before_they_pay() {
    let new = add(&make_pool(0, 0, 5_000), None, 200_000, 200_000, 0).unwrap();
    let want = vec![
        Step::Store(Record::Pool),
        Step::Create(new.create_position.unwrap()),
        Step::Store(Record::Position),
        Step::Transfer(new.transfer_a.unwrap()),
        Step::Transfer(new.transfer_b.unwrap()),
        Step::Report(Report::Outcome),
    ];
    assert_eq!(new.steps(), want);
    let pool = make_pool(4u128 << 64, 3u128 << 64, 1_000);
    let more = add(&pool, Some(make_position(1_000, 0, 0)), 500_000, 500_000, 0).unwrap();
    let want = vec![
        Step::Store(Record::Pool),
        Step::Store(Record::Position),
        Step::Transfer(more.transfer_a.unwrap()),
        Step::Transfer(more.transfer_b.unwrap()),
        Step::Transfer(more.claims.transfer_a.unwrap()),
        Step::Transfer(more.claims.transfer_b.unwrap()),
        Step::Report(Report::Claims),
        Step::Report(Report::Outcome),
    ];
    assert_eq!(more.steps(), want);
}

#[test]
fn zaps_pay_their_fees_last() {
    let mut p = pool();
    p.has_ot_treasury = true;
    p.ot_treasury_fee_destination = [0x42; 32];
    let o = zap_with(
        &zap_accounts(),
        &vec![account(0x42)],
        &config(),
        &p,
        None,
        100_000,
        110_000,
        0,
    )
    .unwrap();
    let want = vec![
        Step::Store(Record::Pool),
        Step::Create(o.create_position.unwrap()),
        Step::Store(Record::Position),
        Step::Transfer(o.transfer_a.unwrap()),
        Step::Transfer(o.transfer_b.unwrap()),
        Step::Transfer(o.protocol_fee.unwrap()),
        Step::Transfer(o.ot_treasury_fee.unwrap()),
        Step::Report(Report::Outcome),
    ];
    assert_eq!(o.steps(), want);
}

#[test]
fn withdrawals_close_last() {
    let pool = make_pool(6u128 << 64, 2u128 << 64, 5_000);
    let o = remove(&pool, &make_position(5_000, 0, 0), 5_000).unwrap();
    let want = vec![
        Step::Store(Record::Pool),
        Step::Store(Record::Position),
        Step::Transfer(o.transfer_a.unwrap()),
        Step::Transfer(o.transfer_b.unwrap()),
        Step::Transfer(o.claims.transfer_a.unwrap()),
        Step::Transfer(o.claims.transfer_b.unwrap()),
        Step::Report(Report::Claims),
        Step::Close(o.close.unwrap()),
        Step::Report(Report::Outcome),
    ];
    assert_eq!(o.steps(), want);
}

#[test]
fn payouts_begin_with_side_a() {
    let pool = make_pool(10u128 << 64, 5u128 << 64, 1);
    let o = claim(&pool, &make_position(1_000, 0, 0)).unwrap();
    let want = vec![
        Step::Store(Record::Position),
        Step::Transfer(o.transfer_a.unwrap()),
        Step::Transfer(o.transfer_b.unwrap()),
        Step::Report(Report::Outcome),
    ];
    assert_eq!(o.steps(), want);
    assert_eq!(o.transfer_a.unwrap().amount, 10_000);
    assert_eq!(o.transfer_b.unwrap().amount, 5_000);
}
