//! Trades, their fees, and the hand-over of purchases to the reward-token engine.
use areal_contracts::account::{AccountInfo, Context};
use areal_contracts::address::find_address_2;
use areal_contracts::error::{DexError, ProgramError};
use areal_contracts::native_dex::amm::{calculate_fees, constant_product_output};
use areal_contracts::native_dex::constants::{
    DexParams, BPS_DENOMINATOR, CONCENTRATED_SCALE, MINT_ROUTE_PRICE_OFFSET_BPS,
    POOL_TYPE_CONCENTRATED, POOL_TYPE_STANDARD,
};
use areal_contracts::native_dex::events::SwapRoutedToMint;
use areal_contracts::native_dex::instructions::nexus_swap;
use areal_contracts::native_dex::instructions::nexus_swap::NexusSwap;
use areal_contracts::native_dex::instructions::swap;
use areal_contracts::native_dex::instructions::swap::{
    accrue_lp_fee_per_share, ask_bins, is_master_pool_usdc_to_rwt, should_route_to_mint,
    BinLedgerReply, BinWalk, Swap, SwapOutcome, SwapQuestion, SwapTrade,
};
use areal_contracts::native_dex::program;
use areal_contracts::native_dex::state::{DexConfig, LiquidityNexus, PoolState};
use areal_contracts::programs::{rwt_engine_program_id, spl_token_program};
use areal_contracts::seeds::SignedBy;
use areal_contracts::steps::{Record, Report, Step};

const RWT: [u8; 32] = [0xA6; 32];
const USDC: [u8; 32] = [0x11; 32];
const USDY: [u8; 32] = [0x22; 32];
const OT: [u8; 32] = [0x77; 32];
const PROGRAM: [u8; 32] = [0xD0; 32];
const NOW: i64 = 1_700_000_000;
const OT_FEE_BPS: u16 = 20;

fn params() -> DexParams {
    DexParams {
        rwt_mint: RWT,
        usdc_mint: USDC,
        usdy_mint: USDY,
        rwt_vault_discriminator: [1, 2, 3, 4, 5, 6, 7, 8],
        min_liquidity: 1_000,
        ot_treasury_fee_bps: OT_FEE_BPS,
        default_base_fee_bps: 30,
        default_lp_fee_share_bps: 5_000,
        max_fee_bps: 1_000,
        max_bin_step_bps: 100,
        max_initial_active_bin: 100_000,
        max_shift_distance: 100,
    }
}

fn account(address: u8) -> AccountInfo {
    AccountInfo {
        address: [address; 32],
        owner: spl_token_program(),
        is_signer: true,
        is_writable: true,
        lamports: 0,
        data: vec![],
    }
}

fn token_account(address: u8, mint: [u8; 32]) -> AccountInfo {
    let mut data = mint.to_vec();
    data.extend_from_slice(&[0u8; 40]);
    AccountInfo { data, ..account(address) }
}

fn config() -> DexConfig {
    DexConfig {
        authority: [1; 32],
        pending_authority: [0; 32],
        has_pending: false,
        pause_authority: [2; 32],
        base_fee_bps: 30,
        lp_fee_share_bps: 5_000,
        areal_fee_destination: [0x0F; 32],
        rebalancer: [3; 32],
        is_active: true,
        bump: 255,
    }
}

/// A pool of the reward token (A) and another mint (B), a million of each.
fn pool() -> PoolState {
    let mut pool = PoolState::decode(&vec![0u8; PoolState::SIZE]).unwrap();
    pool.pool_type = POOL_TYPE_STANDARD;
    pool.token_a_mint = RWT;
    pool.token_b_mint = OT;
    pool.vault_a = [0xAA; 32];
    pool.vault_b = [0xBB; 32];
    pool.reserve_a = 1_000_000;
    pool.reserve_b = 1_000_000;
    pool.total_lp_shares = 1_000;
    pool.fee_bps = 30;
    pool.is_active = true;
    pool.bump = 254;
    pool
}

fn make_pool(total_lp_shares: u128) -> PoolState {
    let mut pool = PoolState::decode(&vec![0u8; PoolState::SIZE]).unwrap();
    pool.total_lp_shares = total_lp_shares;
    pool
}

fn accounts(a_to_b: bool) -> Swap {
    Swap {
        user: account(0x01),
        dex_config: account(0x02),
        pool_state: account(0x03),
        user_token_in: account(0x04),
        user_token_out: token_account(0x05, RWT),
        vault_in: account(if a_to_b { 0xAA } else { 0xBB }),
        vault_out: account(if a_to_b { 0xBB } else { 0xAA }),
        areal_fee_account: token_account(0x0F, RWT),
        token_program: account(0x06),
    }
}

fn no_ledger() -> BinLedgerReply {
    BinLedgerReply {
        unreadable: None,
        has_organic_ask: false,
        best_ask_price_q: None,
        walk: Err(ProgramError::Dex(DexError::EmptyReserves)),
    }
}

fn run(
    accounts: &Swap,
    remaining: &Vec<AccountInfo>,
    config: &DexConfig,
    pool: &PoolState,
    ledger: &BinLedgerReply,
    amount_in: u64,
    min_out: u64,
    a_to_b: bool,
) -> Result<SwapOutcome, ProgramError> {
    let ctx = Context {
        accounts,
        remaining_accounts: remaining,
        program_id: &PROGRAM,
        now: NOW,
    };
    swap::handler(&ctx, &params(), config, pool, ledger, amount_in, min_out, a_to_b)
}

fn traded(outcome: Result<SwapOutcome, ProgramError>) -> SwapTrade {
    match outcome {
        Ok(SwapOutcome::Traded(trade)) => trade,
        other => panic!("expected a trade, got {:?}", other),
    }
}

fn dex(e: DexError) -> Result<SwapOutcome, ProgramError> {
    Err(ProgramError::Dex(e))
}

/// The accounts that a purchase from a ladder pool brings: bins, reward vault, reward mint,
/// capital, fee account, engine.
fn route_accounts(nav: u64) -> Vec<AccountInfo> {
    let (bins, _) = find_address_2(b"bins", &[0x03; 32], &PROGRAM).unwrap();
    let mut vault = AccountInfo { owner: rwt_engine_program_id(), ..account(0x31) };
    vault.data = vec![1, 2, 3, 4, 5, 6, 7, 8];
    vault.data.extend_from_slice(&[0u8; 24]);
    vault.data.extend_from_slice(&nav.to_le_bytes());
    vec![
        AccountInfo { address: bins, ..account(0) },
        vault,
        account(0x32),
        account(0x33),
        account(0x34),
        AccountInfo { address: rwt_engine_program_id(), ..account(0) },
    ]
}

fn ladder() -> PoolState {
    let mut p = pool();
    p.pool_type = POOL_TYPE_CONCENTRATED;
    p.token_b_mint = USDC;
    p.bin_step_bps = 10;
    p.active_bin_id = 5;
    p
}

fn nav_to_q_price(nav: u64, bps_offset_from_nav: i64) -> u128 {
    let nav_q = (nav as u128) * (CONCENTRATED_SCALE / 1_000_000);
    if bps_offset_from_nav >= 0 {
        nav_q * (10_000u128 + bps_offset_from_nav as u128) / 10_000u128
    } else {
        nav_q * (10_000u128 - (-bps_offset_from_nav) as u128) / 10_000u128
    }
}

#[test]
fn swap_updates_cumulative_fees_per_share_a() {
    let mut pool = make_pool(1_000);
    accrue_lp_fee_per_share(&mut pool, 10, true).unwrap();
    let expected: u128 = (10u128 << 64) / 1_000u128;
    assert_eq!(pool.cumulative_fees_per_share_a, expected);
    assert_eq!(pool.cumulative_fees_per_share_b, 0u128);
}

#[test]
fn swap_updates_cumulative_fees_per_share_b() {
    let mut pool = make_pool(2_000);
    accrue_lp_fee_per_share(&mut pool, 25, false).unwrap();
    let expected: u128 = (25u128 << 64) / 2_000u128;
    assert_eq!(pool.cumulative_fees_per_share_b, expected);
    assert_eq!(pool.cumulative_fees_per_share_a, 0u128);
}

#[test]
fn swap_zero_lp_shares_does_not_panic() {
    let mut pool = make_pool(0);
    accrue_lp_fee_per_share(&mut pool, 100, true).unwrap();
    accrue_lp_fee_per_share(&mut pool, 100, false).unwrap();
    assert_eq!(pool.cumulative_fees_per_share_a, 0u128);
    assert_eq!(pool.cumulative_fees_per_share_b, 0u128);
}

#[test]
fn accumulator_overflow_leaves_the_pool() {
    let mut pool = make_pool(1);
    pool.cumulative_fees_per_share_a = u128::MAX;
    let before = pool;
    let r = accrue_lp_fee_per_share(&mut pool, 1, true);
    assert_eq!(r, Err(ProgramError::Dex(DexError::MathOverflow)));
    assert_eq!(pool, before);
}

#[test]
fn swap_rejects_non_rwt_protocol_fee_destination_mint() {
    let non_rwt_mint: [u8; 32] = {
        let mut bytes = [0u8; 32];
        for (i, byte) in bytes.iter_mut().enumerate() {
            *byte = (i as u8).wrapping_add(1);
        }
        bytes
    };
    assert_ne!(non_rwt_mint, RWT);
    let mut a = accounts(true);
    a.areal_fee_account = token_account(0x0F, non_rwt_mint);
    let r = run(&a, &vec![], &config(), &pool(), &no_ledger(), 10_000, 0, true);
    assert_eq!(r, dex(DexError::InvalidProtocolFeeDestination));
    let r = run(&accounts(true), &vec![], &config(), &pool(), &no_ledger(), 10_000, 0, true);
    assert!(r.is_ok());
}

#[test]
fn sell_rwt_full_amount_in_enters_curve() {
    let reserve_in: u64 = 1_000_000;
    let reserve_out: u64 = 1_000_000;
    let amount_in: u64 = 10_000;
    let fees = calculate_fees(amount_in, 30, 5_000, false, OT_FEE_BPS).expect("fees");
    let amount_out = constant_product_output(reserve_in, reserve_out, amount_in).expect("output");
    let expected_out: u64 = (reserve_out as u128 * amount_in as u128
        / (reserve_in as u128 + amount_in as u128)) as u64;
    assert_eq!(amount_out, expected_out);
    assert_eq!(amount_out, 9_900u64);
    let old_net_input = amount_in - fees.fee_total;
    let old_amount_out =
        constant_product_output(reserve_in, reserve_out, old_net_input).expect("output");
    assert!(old_amount_out < amount_out);
    let trade = traded(run(&accounts(true), &vec![], &config(), &pool(), &no_ledger(), 10_000, 0, true));
    assert_eq!(trade.transfer_out.amount, 9_900);
    assert_eq!(trade.pool.reserve_a, 1_010_000);
    assert_eq!(trade.pool.reserve_b, 990_100);
}

#[test]
fn sell_rwt_user_total_debit_math() {
    let amount_in: u64 = 10_000;
    let fees = calculate_fees(amount_in, 30, 5_000, true, OT_FEE_BPS).expect("fees");
    let user_total_debit = amount_in + fees.fee_lp + fees.fee_protocol + fees.ot_treasury_fee;
    let user_total_debit_alt = amount_in + fees.fee_total + fees.ot_treasury_fee;
    assert_eq!(user_total_debit, user_total_debit_alt);
    assert_eq!(fees.fee_lp + fees.fee_protocol, fees.fee_total);
    let mut p = pool();
    p.has_ot_treasury = true;
    p.ot_treasury_fee_destination = [0x42; 32];
    let remaining = vec![account(0x42)];
    let trade = traded(run(&accounts(true), &remaining, &config(), &p, &no_ledger(), 10_000, 0, true));
    assert_eq!(trade.transfer_in.amount, user_total_debit);
    assert_eq!(trade.transfer_in.amount, 10_050);
    let mut huge = pool();
    huge.reserve_a = 1;
    huge.reserve_b = u64::MAX;
    let r = run(&accounts(true), &vec![], &config(), &huge, &no_ledger(), u64::MAX, 0, true);
    assert_eq!(r, dex(DexError::MathOverflow));
    let mut tight = pool();
    tight.reserve_a = 0;
    tight.pool_type = POOL_TYPE_CONCENTRATED;
    let (bins, _) = find_address_2(b"bins", &[0x03; 32], &PROGRAM).unwrap();
    let remaining = vec![AccountInfo { address: bins, ..account(0) }];
    let ledger = BinLedgerReply {
        unreadable: None,
        has_organic_ask: true,
        best_ask_price_q: Some(1),
        walk: Ok(BinWalk { amount_out: 1, active_bin_id: 5 }),
    };
    let r = run(&accounts(true), &remaining, &config(), &tight, &ledger, u64::MAX, 0, true);
    assert_eq!(r, dex(DexError::MathOverflow));
}

#[test]
fn sell_rwt_post_swap_invariant() {
    let mut p = pool();
    p.has_ot_treasury = true;
    p.ot_treasury_fee_destination = [0x42; 32];
    let remaining = vec![account(0x42)];
    let vault_in_before: u64 = p.reserve_a;
    let trade = traded(run(&accounts(true), &remaining, &config(), &p, &no_ledger(), 10_000, 0, true));
    let mut vault_in = vault_in_before + trade.transfer_in.amount;
    vault_in -= trade.protocol_fee.unwrap().amount;
    vault_in -= trade.ot_treasury_fee.unwrap().amount;
    assert_eq!(vault_in, trade.pool.reserve_a + trade.event.fee_lp);
    assert_eq!(trade.event.fee_lp, 15);
    assert_eq!(trade.event.fee_protocol, 15);
    assert_eq!(trade.event.fee_ot_treasury, 20);
    assert_eq!(trade.pool.total_fees_accumulated, 50);
    assert_eq!(trade.pool.cumulative_fees_per_share_a, (15u128 << 64) / 1_000);
    assert_eq!(trade.pool.cumulative_fees_per_share_b, 0);
}

#[test]
fn buying_rwt_takes_fees_from_the_output() {
    let trade = traded(run(&accounts(false), &vec![], &config(), &pool(), &no_ledger(), 10_000, 0, false));
    assert_eq!(trade.transfer_in.amount, 10_000);
    assert_eq!(trade.event.fee_lp, 14);
    assert_eq!(trade.event.fee_protocol, 15);
    assert_eq!(trade.transfer_out.amount, 9_900 - 29);
    assert_eq!(trade.pool.reserve_a, 1_000_000 - 9_900);
    assert_eq!(trade.pool.reserve_b, 1_010_000);
    let fee = trade.protocol_fee.unwrap();
    assert_eq!(fee.from, [0xAA; 32]);
    assert_eq!(fee.to, [0x0F; 32]);
    assert_eq!(trade.ot_treasury_fee, None);
    let vault_change = trade.transfer_out.amount + fee.amount;
    let reserve_change = 1_000_000 - trade.pool.reserve_a;
    assert_eq!(vault_change + trade.event.fee_lp, reserve_change);
    let before = 1_000_000u128 * 1_000_000;
    assert!(trade.pool.reserve_a as u128 * trade.pool.reserve_b as u128 >= before);
}

#[test]
fn transfers_name_their_signers() {
    let trade = traded(run(&accounts(true), &vec![], &config(), &pool(), &no_ledger(), 10_000, 0, true));
    assert_eq!(trade.transfer_in.from, [0x04; 32]);
    assert_eq!(trade.transfer_in.to, [0xAA; 32]);
    assert_eq!(trade.transfer_in.authority, [0x01; 32]);
    assert_eq!(trade.transfer_in.signed_by, SignedBy::Transaction);
    assert_eq!(trade.transfer_out.from, [0xBB; 32]);
    assert_eq!(trade.transfer_out.to, [0x05; 32]);
    assert_eq!(trade.transfer_out.authority, [0x03; 32]);
    let signature = SignedBy::Pool { token_a_mint: RWT, token_b_mint: OT, bump: 254 };
    assert_eq!(trade.transfer_out.signed_by, signature);
    assert_eq!(trade.event.timestamp, NOW);
    assert!(trade.event.a_to_b);
}

#[test]
fn swap_refusals() {
    let a = accounts(true);
    let c = config();
    let p = pool();
    let l = no_ledger();
    let none = vec![];
    let paused = DexConfig { is_active: false, ..c };
    assert_eq!(run(&a, &none, &paused, &p, &l, 1, 0, true), dex(DexError::DexPaused));
    let inactive = PoolState { is_active: false, ..p };
    assert_eq!(run(&a, &none, &c, &inactive, &l, 1, 0, true), dex(DexError::PoolNotActive));
    assert_eq!(run(&a, &none, &c, &p, &l, 0, 0, true), dex(DexError::ZeroAmount));
    let empty = PoolState { reserve_b: 0, ..p };
    assert_eq!(run(&a, &none, &c, &empty, &l, 1, 0, true), dex(DexError::EmptyReserves));
    assert_eq!(run(&a, &none, &c, &p, &l, 1, 0, false), dex(DexError::InvalidVault));
    let moved = DexConfig { areal_fee_destination: [9; 32], ..c };
    assert_eq!(run(&a, &none, &moved, &p, &l, 1, 0, true), dex(DexError::InvalidTokenAccount));
    let mut with_ot = p;
    with_ot.has_ot_treasury = true;
    with_ot.ot_treasury_fee_destination = [0x42; 32];
    let r = run(&a, &none, &c, &with_ot, &l, 1, 0, true);
    assert_eq!(r, dex(DexError::MissingOtTreasuryAccount));
    let r = run(&a, &vec![account(0x43)], &c, &with_ot, &l, 1, 0, true);
    assert_eq!(r, dex(DexError::OtTreasuryAccountMismatch));
    assert_eq!(run(&a, &none, &c, &p, &l, 1, 0, true), dex(DexError::ZeroOutput));
    let r = run(&a, &none, &c, &p, &l, 10_000, 9_901, true);
    assert_eq!(r, dex(DexError::SlippageExceeded));
    assert!(run(&a, &none, &c, &p, &l, 10_000, 9_900, true).is_ok());
    let mut short = accounts(true);
    short.areal_fee_account = account(0x0F);
    let r = run(&short, &none, &c, &p, &l, 1, 0, true);
    assert_eq!(r, Err(ProgramError::InvalidAccountData));
}

#[test]
fn master_usdc_to_rwt_empty_ask_routes_to_mint() {
    let nav = 1_000_000u64;
    let best_ask_q = nav_to_q_price(nav, -100);
    assert!(should_route_to_mint(false, nav, best_ask_q, 10));
}

#[test]
fn master_usdc_to_rwt_ask_present_below_threshold_uses_bin_walk() {
    let nav = 1_000_000u64;
    let best_ask_q = nav_to_q_price(nav, 10);
    assert!(!should_route_to_mint(true, nav, best_ask_q, 10));
}

#[test]
fn master_usdc_to_rwt_ask_present_above_threshold_routes_to_mint() {
    let nav = 1_000_000u64;
    let best_ask_q = nav_to_q_price(nav, 100);
    assert!(should_route_to_mint(true, nav, best_ask_q, 10));
}

#[test]
fn master_rwt_to_usdc_never_routes_to_mint() {
    assert!(!is_master_pool_usdc_to_rwt(&params(), &ladder(), true));
    assert!(is_master_pool_usdc_to_rwt(&params(), &ladder(), false));
}

#[test]
fn non_master_concentrated_never_routes_to_mint() {
    let mut p = ladder();
    p.token_b_mint = [0xFFu8; 32];
    assert!(!is_master_pool_usdc_to_rwt(&params(), &p, false));
    p.token_b_mint = USDY;
    assert!(is_master_pool_usdc_to_rwt(&params(), &p, false));
}

#[test]
fn standard_curve_never_routes_to_mint() {
    let mut p = ladder();
    p.pool_type = POOL_TYPE_STANDARD;
    assert!(!is_master_pool_usdc_to_rwt(&params(), &p, false));
}

#[test]
fn price_at_threshold_exact_uses_bin_walk() {
    let nav = 1_000_000u64;
    let nav_q = (nav as u128) * (CONCENTRATED_SCALE / 1_000_000);
    let threshold_q = nav_q * ((BPS_DENOMINATOR as u128) + (MINT_ROUTE_PRICE_OFFSET_BPS as u128))
        / (BPS_DENOMINATOR as u128);
    assert!(!should_route_to_mint(true, nav, threshold_q, 10));
}

#[test]
fn price_one_above_threshold_routes_to_mint() {
    let nav = 1_000_000u64;
    let nav_q = (nav as u128) * (CONCENTRATED_SCALE / 1_000_000);
    let threshold_q = nav_q * ((BPS_DENOMINATOR as u128) + (MINT_ROUTE_PRICE_OFFSET_BPS as u128))
        / (BPS_DENOMINATOR as u128);
    assert!(should_route_to_mint(true, nav, threshold_q + 1, 10));
}

#[test]
fn nav_zero_routes_to_mint() {
    assert!(should_route_to_mint(true, 0, 1, 10));
}

#[test]
fn bin_walk_path_fees_unchanged() {
    let nav = 1_000_000u64;
    let best_ask_q = nav_to_q_price(nav, 0);
    assert!(!should_route_to_mint(true, nav, best_ask_q, 10));
    let ledger = BinLedgerReply {
        unreadable: None,
        has_organic_ask: true,
        best_ask_price_q: Some(best_ask_q),
        walk: Ok(BinWalk { amount_out: 10_000, active_bin_id: 6 }),
    };
    let r = run(&accounts(false), &route_accounts(nav), &config(), &ladder(), &ledger, 9_000, 0, false);
    let trade = traded(r);
    let fees = calculate_fees(10_000, 30, 5_000, false, OT_FEE_BPS).unwrap();
    assert_eq!(trade.event.fee_lp, fees.fee_lp);
    assert_eq!(trade.event.fee_protocol, fees.fee_protocol);
    assert_eq!(trade.transfer_out.amount, 10_000 - fees.fee_total);
    assert_eq!(trade.pool.active_bin_id, 6);
}

#[test]
fn mint_route_path_emits_distinct_event() {
    let empty_ask = BinLedgerReply {
        unreadable: None,
        has_organic_ask: false,
        best_ask_price_q: Some(1_006_000_000_000u128),
        walk: Err(ProgramError::Dex(DexError::EmptyReserves)),
    };
    let a = Swap { user: account(0x22), pool_state: account(0x11), ..accounts(false) };
    let (bins, _) = find_address_2(b"bins", &[0x11; 32], &PROGRAM).unwrap();
    let mut brought = route_accounts(1_005_000);
    brought[0].address = bins;
    let r = run(&a, &brought, &config(), &ladder(), &empty_ask, 1_000_000, 7, false);
    let evt = match r {
        Ok(SwapOutcome::RoutedToMint(m)) => m.event,
        other => panic!("expected a routed purchase, got {:?}", other),
    };
    assert_eq!(evt.pool, [0x11u8; 32]);
    assert_eq!(evt.user, [0x22u8; 32]);
    assert_eq!(evt.amount_in, 1_000_000);
    assert_eq!(evt.nav_at_route, 1_005_000);
    assert_eq!(evt.best_ask_price_q, 1_006_000_000_000u128);
    assert_eq!(evt.timestamp, 1_700_000_000);
}

#[test]
fn routed_purchase_names_its_accounts() {
    let ledger = BinLedgerReply {
        unreadable: None,
        has_organic_ask: true,
        best_ask_price_q: Some(1_011_000_000_000u128),
        walk: Err(ProgramError::Dex(DexError::EmptyReserves)),
    };
    let r = run(
        &accounts(false),
        &route_accounts(1_005_000),
        &config(),
        &ladder(),
        &ledger,
        1_000_000,
        7,
        false,
    );
    match r {
        Ok(SwapOutcome::RoutedToMint(m)) => {
            let want = SwapRoutedToMint {
                pool: [0x03; 32],
                user: [0x01; 32],
                amount_in: 1_000_000,
                nav_at_route: 1_005_000,
                best_ask_price_q: 1_011_000_000_000u128,
                timestamp: NOW,
            };
            assert_eq!(m.event, want);
            assert_eq!(m.mint.amount_in, 1_000_000);
            assert_eq!(m.mint.min_rwt_out, 7);
            assert_eq!(m.mint.user_deposit, [0x04; 32]);
            assert_eq!(m.mint.user_rwt, [0x05; 32]);
            assert_eq!(m.mint.rwt_vault, [0x31; 32]);
        }
        other => panic!("expected a routed purchase, got {:?}", other),
    }
}

#[test]
fn route_refusals() {
    let nav = 1_000_000u64;
    let a = accounts(false);
    let c = config();
    let p = ladder();
    let empty_ask = BinLedgerReply {
        unreadable: None,
        has_organic_ask: false,
        best_ask_price_q: Some(1),
        walk: Ok(BinWalk { amount_out: 5_000, active_bin_id: 6 }),
    };
    let go = |a: &Swap, r: &Vec<AccountInfo>, l: &BinLedgerReply| run(a, r, &c, &p, l, 9_000, 0, false);
    assert_eq!(go(&a, &vec![], &empty_ask), dex(DexError::InvalidBinRange));
    let mut wrong_bins = route_accounts(nav);
    wrong_bins[0].address = [0; 32];
    assert_eq!(go(&a, &wrong_bins, &empty_ask), Err(ProgramError::InvalidSeeds));
    let unpriced = BinLedgerReply { best_ask_price_q: None, ..empty_ask };
    assert_eq!(go(&a, &route_accounts(nav), &unpriced), dex(DexError::PriceOverflow));
    let broken = Some(ProgramError::InvalidAccountData);
    let unread = BinLedgerReply { unreadable: broken, ..unpriced };
    assert_eq!(go(&a, &route_accounts(nav), &unread), Err(ProgramError::InvalidAccountData));
    let mut five = route_accounts(nav);
    five.pop();
    assert_eq!(go(&a, &five, &empty_ask), dex(DexError::MissingMintRouteAccounts));
    let mut foreign = route_accounts(nav);
    foreign[1].owner = [9; 32];
    assert_eq!(go(&a, &foreign, &empty_ask), dex(DexError::InvalidRwtVault));
    let mut unmarked = route_accounts(nav);
    unmarked[1].data[0] = 0;
    assert_eq!(go(&a, &unmarked, &empty_ask), dex(DexError::InvalidRwtVault));
    let mut short = route_accounts(nav);
    short[1].data.pop();
    assert_eq!(go(&a, &short, &empty_ask), dex(DexError::InvalidRwtVault));
    let mut other_out = accounts(false);
    other_out.user_token_out = token_account(0x05, OT);
    assert_eq!(go(&other_out, &route_accounts(nav), &empty_ask), dex(DexError::InvalidRwtMint));
    let mut engine = route_accounts(nav);
    engine[5].address = [8; 32];
    assert_eq!(go(&a, &engine, &empty_ask), dex(DexError::InvalidRwtVault));
    assert!(matches!(go(&a, &route_accounts(nav), &empty_ask), Ok(SwapOutcome::RoutedToMint(_))));
}

#[test]
fn trades_ask_the_bins() {
    assert_eq!(ask_bins(&pool(), 9, true), None);
    let mut p = ladder();
    let want = SwapQuestion {
        bins_index: 0,
        active_bin_id: 5,
        next_bin_id: 6,
        bin_step_bps: 10,
        amount_in: 9,
        a_to_b: true,
    };
    assert_eq!(ask_bins(&p, 9, true), Some(want));
    p.has_ot_treasury = true;
    p.active_bin_id = i32::MAX;
    let q = ask_bins(&p, 9, false).unwrap();
    assert_eq!(q.bins_index, 1);
    assert_eq!(q.next_bin_id, i32::MAX);
    assert!(!q.a_to_b);
}

#[test]
fn curve_needs_depth() {
    assert_eq!(constant_product_output(0, 5, 0), Err(ProgramError::Dex(DexError::MathOverflow)));
    assert_eq!(constant_product_output(0, 5, 1), Ok(5));
    assert_eq!(constant_product_output(10, 0, 1), Ok(0));
}

#[test]
fn fee_overflows_are_reported() {
    let overflow = Err(ProgramError::Dex(DexError::MathOverflow));
    assert_eq!(calculate_fees(u64::MAX, 10_001, 0, false, 0), overflow);
    assert_eq!(calculate_fees(1_000_000, 100, 10_001, false, 0), overflow);
    assert_eq!(calculate_fees(u64::MAX, 0, 0, true, 20_000), overflow);
    let fees = calculate_fees(10_000, 30, 3_333, true, 25).unwrap();
    assert_eq!(fees.fee_total, 30);
    assert_eq!(fees.fee_lp, 9);
    assert_eq!(fees.fee_protocol, 21);
    assert_eq!(fees.ot_treasury_fee, 25);
}

fn nexus_accounts() -> NexusSwap {
    NexusSwap {
        manager: account(0x4D),
        dex_config: account(0x02),
        liquidity_nexus: account(0x4E),
        pool_state: account(0x03),
        nexus_token_in: account(0x04),
        nexus_token_out: token_account(0x05, RWT),
        vault_in: account(0xBB),
        vault_out: account(0xAA),
        areal_fee_account: token_account(0x0F, RWT),
        token_program: account(0x06),
    }
}

fn nexus_with(manager: [u8; 32], is_active: bool, bump: u8) -> LiquidityNexus {
    LiquidityNexus {
        manager,
        total_deposited_usdc: 0,
        total_deposited_rwt: 0,
        is_active,
        bump,
    }
}

fn run_nexus(
    accounts: &NexusSwap,
    remaining: &Vec<AccountInfo>,
    nexus: &LiquidityNexus,
    pool: &PoolState,
    ledger: &BinLedgerReply,
    amount_in: u64,
    min_out: u64,
) -> Result<SwapOutcome, ProgramError> {
    let ctx = Context {
        accounts,
        remaining_accounts: remaining,
        program_id: &PROGRAM,
        now: NOW,
    };
    nexus_swap::handler(&ctx, &params(), nexus, &config(), pool, ledger, amount_in, min_out, false)
}

#[test]
fn nexus_swap_kill_switch_disabled_revert() {
    let mut a = nexus_accounts();
    a.manager.address = [0u8; 32];
    let nexus = nexus_with([0u8; 32], true, 0xFD);
    let r = run_nexus(&a, &vec![], &nexus, &pool(), &no_ledger(), 10_000, 1);
    assert_eq!(r, dex(DexError::NexusManagerDisabled));
}

#[test]
fn nexus_swap_wrong_signer_revert() {
    let mut a = nexus_accounts();
    a.manager.address = [0xBBu8; 32];
    let nexus = nexus_with([0xAAu8; 32], true, 0xFD);
    let r = run_nexus(&a, &vec![], &nexus, &pool(), &no_ledger(), 10_000, 1);
    assert_eq!(r, dex(DexError::InvalidNexusManager));
}

#[test]
fn nexus_swap_seed_layout_two_components() {
    let nexus = nexus_with([0x4D; 32], true, 0x42);
    let trade = traded(run_nexus(&nexus_accounts(), &vec![], &nexus, &pool(), &no_ledger(), 10_000, 1));
    let seeds = trade.transfer_in.signed_by.seeds();
    assert_eq!(seeds.len(), 2);
    assert_eq!(seeds[0], b"liquidity_nexus");
    assert_eq!(seeds[1].len(), 1);
    assert_eq!(seeds[1][0], 0x42);
    assert_eq!(trade.transfer_in.authority, [0x4E; 32]);
}

#[test]
fn nexus_swap_refusals() {
    let a = nexus_accounts();
    let none = vec![];
    let l = no_ledger();
    let off = nexus_with([0x4D; 32], false, 1);
    assert_eq!(run_nexus(&a, &none, &off, &pool(), &l, 1, 1), dex(DexError::NexusNotActive));
    let on = nexus_with([0x4D; 32], true, 1);
    assert_eq!(run_nexus(&a, &none, &on, &pool(), &l, 0, 1), dex(DexError::ZeroAmount));
    let r = run_nexus(&a, &none, &on, &pool(), &l, 10_000, 0);
    assert_eq!(r, dex(DexError::SlippageExceeded));
    let empty_ask = BinLedgerReply {
        unreadable: None,
        has_organic_ask: false,
        best_ask_price_q: Some(1),
        walk: Ok(BinWalk { amount_out: 5_000, active_bin_id: 6 }),
    };
    let r = run_nexus(&a, &route_accounts(1_000_000), &on, &ladder(), &empty_ask, 10_000, 1);
    assert_eq!(r, dex(DexError::InvalidRwtVault));
}

#[test]
fn called_swap_checks_its_accounts() {
    let (config_address, _) =
        areal_contracts::address::find_address_1(b"dex_config", &PROGRAM).unwrap();
    let mut a = accounts(true);
    a.dex_config.address = config_address;
    a.token_program.address = spl_token_program();
    let none = vec![];
    let call = |a: &Swap| {
        let ctx = Context {
            accounts: a,
            remaining_accounts: &none,
            program_id: &PROGRAM,
            now: NOW,
        };
        program::swap(&ctx, &params(), &config(), &pool(), &no_ledger(), 10_000, 0, true)
    };
    assert!(call(&a).is_ok());
    a.user.is_signer = false;
    assert_eq!(call(&a), Err(ProgramError::AccountConstraint));
    a.user.is_signer = true;
    a.vault_in.owner = [1; 32];
    assert_eq!(call(&a), Err(ProgramError::AccountConstraint));
    a.vault_in.owner = spl_token_program();
    a.dex_config.address = [2; 32];
    assert_eq!(call(&a), Err(ProgramError::AccountConstraint));
}

#[test]
fn trades_write_before_they_pay() {
    let mut p = pool();
    p.has_ot_treasury = true;
    p.ot_treasury_fee_destination = [0x42; 32];
    let o = run(
        &accounts(true),
        &vec![account(0x42)],
        &config(),
        &p,
        &no_ledger(),
        100_000,
        0,
        true,
    )
    .unwrap();
    let steps = o.steps();
    let t = traded(Ok(o));
    let want = vec![
        Step::Store(Record::Pool),
        Step::Transfer(t.transfer_in),
        Step::Transfer(t.transfer_out),
        Step::Transfer(t.protocol_fee.unwrap()),
        Step::Transfer(t.ot_treasury_fee.unwrap()),
        Step::Report(Report::Outcome),
    ];
    assert_eq!(steps, want);
}

#[test]
fn ladder_trades_write_their_bins_first() {
    let nav = 1_000_000u64;
    let ledger = BinLedgerReply {
        unreadable: None,
        has_organic_ask: true,
        best_ask_price_q: Some(nav_to_q_price(nav, 0)),
        walk: Ok(BinWalk { amount_out: 10_000, active_bin_id: 6 }),
    };
    let brought = route_accounts(nav);
    let o = run(&accounts(false), &brought, &config(), &ladder(), &ledger, 9_000, 0, false).unwrap();
    let steps = o.steps();
    let t = traded(Ok(o));
    assert_eq!(steps[0], Step::Store(Record::Bins));
    assert_eq!(steps[1], Step::Store(Record::Pool));
    assert_eq!(steps[2], Step::Transfer(t.transfer_in));
    assert_eq!(steps[3], Step::Transfer(t.transfer_out));
    let empty_ask = BinLedgerReply { has_organic_ask: false, ..ledger };
    let o = run(&accounts(false), &brought, &config(), &ladder(), &empty_ask, 9_000, 0, false).unwrap();
    let steps = o.steps();
    match o {
        SwapOutcome::RoutedToMint(m) => {
            assert_eq!(steps, vec![Step::MintRwt(m.mint), Step::Report(Report::Outcome)]);
        }
        other => panic!("expected a routed purchase, got {:?}", other),
    }
}
