//! Creation of pools, ladder pools and their rebalancing, and administration of the exchange.
use areal_contracts::account::{AccountInfo, Context};
use areal_contracts::address::{find_address_1, find_address_2, find_address_3};
use areal_contracts::error::{DexError, ProgramError};
use areal_contracts::native_dex::concentrated::{compress_zone, grow_zone};
use areal_contracts::native_dex::constants::{
    DexParams, ACTIVE_ZONE_WIDTH, DEFAULT_PERMANENT_TAIL_OFFSET_BPS, MIN_PERMANENT_TAIL_OFFSET_BPS, PERMANENT_TAIL_BIN_COUNT,
    POOL_TYPE_CONCENTRATED, POOL_TYPE_STANDARD,
};
use areal_contracts::native_dex::instructions::authority_transfer;
use areal_contracts::native_dex::instructions::authority_transfer::{
    AcceptAuthorityTransfer, ProposeAuthorityTransfer,
};
use areal_contracts::native_dex::instructions::compound_yield;
use areal_contracts::native_dex::instructions::compound_yield::CompoundYield;
use areal_contracts::native_dex::instructions::compress_liquidity;
use areal_contracts::native_dex::instructions::compress_liquidity::{
    ask_nav_bin, CompressLiquidity, CompressOutcome,
};
use areal_contracts::native_dex::instructions::create_concentrated_pool;
use areal_contracts::native_dex::instructions::create_concentrated_pool::{
    fits_ladder, require_master_pair, validate_permanent_tail_offset, CreateConcentratedPool,
    CreateConcentratedPoolOutcome,
};
use areal_contracts::native_dex::instructions::create_pool;
use areal_contracts::native_dex::instructions::create_pool::{CreatePool, CreatePoolOutcome};
use areal_contracts::native_dex::instructions::grow_liquidity;
use areal_contracts::native_dex::instructions::grow_liquidity::{GrowLiquidity, GrowOutcome};
use areal_contracts::native_dex::instructions::initialize_dex;
use areal_contracts::native_dex::instructions::initialize_dex::InitializeDex;
use areal_contracts::native_dex::instructions::pause;
use areal_contracts::native_dex::instructions::pause::{PausePool, UnpausePool};
use areal_contracts::native_dex::instructions::shift_liquidity;
use areal_contracts::native_dex::instructions::shift_liquidity::{
    activate, fits_shift, ShiftLiquidity, ShiftOutcome,
};
use areal_contracts::native_dex::instructions::update_areal_fee_destination;
use areal_contracts::native_dex::instructions::update_areal_fee_destination::UpdateArealFeeDestination;
use areal_contracts::native_dex::instructions::update_dex_config;
use areal_contracts::native_dex::instructions::update_dex_config::UpdateDexConfig;
use areal_contracts::native_dex::instructions::update_pool_creators;
use areal_contracts::native_dex::instructions::update_pool_creators::{
    UpdatePoolCreators, ACTION_ADD, ACTION_REMOVE,
};
use areal_contracts::native_dex::program;
use areal_contracts::native_dex::state::{
    BinArray, DexConfig, LiquidityNexus, PoolCreators, PoolState,
};
use areal_contracts::programs::{
    associated_token_program, ot_program_id, rwt_engine_program_id, spl_token_program,
    system_program, yd_program_id,
};
use areal_contracts::seeds::SignedBy;
use areal_contracts::steps::{Record, Report, Step};

const RWT: [u8; 32] = [0xA6; 32];
const OT: [u8; 32] = [0xB7; 32];
const PROGRAM: [u8; 32] = [0xD0; 32];
const NOW: i64 = 1_700_000_000;

fn params_with(usdc: [u8; 32], usdy: [u8; 32]) -> DexParams {
    DexParams {
        rwt_mint: RWT,
        usdc_mint: usdc,
        usdy_mint: usdy,
        rwt_vault_discriminator: [1, 2, 3, 4, 5, 6, 7, 8],
        min_liquidity: 1_000,
        ot_treasury_fee_bps: 20,
        default_base_fee_bps: 30,
        default_lp_fee_share_bps: 5_000,
        max_fee_bps: 1_000,
        max_bin_step_bps: 100,
        max_initial_active_bin: 100_000,
        max_shift_distance: 100,
    }
}

fn params() -> DexParams {
    params_with([0; 32], [0; 32])
}

fn account(address: [u8; 32]) -> AccountInfo {
    AccountInfo {
        address,
        owner: spl_token_program(),
        is_signer: true,
        is_writable: true,
        lamports: 0,
        data: vec![],
    }
}

fn token_account(address: u8, mint: [u8; 32], owner: [u8; 32], amount: u64) -> AccountInfo {
    let mut data = mint.to_vec();
    data.extend_from_slice(&owner);
    data.extend_from_slice(&amount.to_le_bytes());
    AccountInfo { data, ..account([address; 32]) }
}

fn rwt_vault(nav: u64) -> AccountInfo {
    let mut data = vec![1, 2, 3, 4, 5, 6, 7, 8];
    data.extend_from_slice(&[0u8; 24]);
    data.extend_from_slice(&nav.to_le_bytes());
    AccountInfo { owner: rwt_engine_program_id(), data, ..account([0x31; 32]) }
}

fn config() -> DexConfig {
    DexConfig {
        authority: [1; 32],
        pending_authority: [0; 32],
        has_pending: false,
        pause_authority: [2; 32],
        base_fee_bps: 30,
        lp_fee_share_bps: 5_000,
        areal_fee_destination: [0x0F; 32],
        rebalancer: [0xAA; 32],
        is_active: true,
        bump: 255,
    }
}

fn creators() -> PoolCreators {
    let mut list = PoolCreators::decode(&vec![0u8; PoolCreators::SIZE]).unwrap();
    list.authority = [1; 32];
    list.creators[0] = [0xC0; 32];
    list.active_count = 1;
    list
}

fn blank_pool() -> PoolState {
    PoolState::decode(&vec![0u8; PoolState::SIZE]).unwrap()
}

fn ladder() -> PoolState {
    let mut pool = blank_pool();
    pool.pool_type = POOL_TYPE_CONCENTRATED;
    pool.is_active = true;
    pool.vault_b = [0xBB; 32];
    pool.reserve_b = 1_000;
    pool.bin_step_bps = 10;
    pool.active_bin_id = 500;
    pool.left_anchor_bin = 100;
    pool.permanent_tail_floor_bin = 30;
    pool.last_rebalance_nav_bin = 500;
    pool
}

fn empty_bin_array(lower_bin_id: i32, active_bin_id: i32) -> BinArray {
    let mut bins = BinArray::decode(&vec![0u8; BinArray::SIZE]).unwrap();
    bins.lower_bin_id = lower_bin_id;
    bins.bin_step_bps = 10;
    bins.active_bin_id = active_bin_id;
    bins.pool = [0x03; 32];
    bins
}

fn dex<T>(e: DexError) -> Result<T, ProgramError> {
    Err(ProgramError::Dex(e))
}

fn random_non_usdx_mint() -> [u8; 32] {
    [0xFF; 32]
}

#[test]
fn accepts_zero_mint_b_in_placeholder_mode() {
    let p = params();
    assert!(require_master_pair(&p.usdc_mint, &RWT, &p).is_ok());
}

#[test]
fn accepts_any_non_rwt_when_placeholders_unset() {
    assert!(require_master_pair(&RWT, &random_non_usdx_mint(), &params()).is_ok());
}

#[test]
fn rejects_non_usdc_non_usdy_pair_when_pinned() {
    let p = params_with([0x11; 32], [0x22; 32]);
    let err = require_master_pair(&RWT, &random_non_usdx_mint(), &p).unwrap_err();
    assert_eq!(err, ProgramError::Dex(DexError::InvalidMintPair));
}

#[test]
fn accepts_usdc_pair_when_pinned() {
    let p = params_with([0x11; 32], [0x22; 32]);
    assert!(require_master_pair(&[0x11; 32], &RWT, &p).is_ok());
}

#[test]
fn accepts_usdy_pair_when_pinned() {
    let p = params_with([0x11; 32], [0x22; 32]);
    assert!(require_master_pair(&[0x22; 32], &RWT, &p).is_ok());
}

#[test]
fn rejects_non_usdc_when_only_usdc_pinned() {
    let p = params_with([0x11; 32], [0; 32]);
    let err = require_master_pair(&RWT, &random_non_usdx_mint(), &p).unwrap_err();
    assert_eq!(err, ProgramError::Dex(DexError::InvalidMintPair));
}

#[test]
fn rejects_offset_below_minimum() {
    let err = validate_permanent_tail_offset(20).unwrap_err();
    assert_eq!(err, ProgramError::Dex(DexError::InvalidPermanentTailOffset));
}

#[test]
fn rejects_zero_offset() {
    let err = validate_permanent_tail_offset(0).unwrap_err();
    assert_eq!(err, ProgramError::Dex(DexError::InvalidPermanentTailOffset));
}

#[test]
fn rejects_negative_offset() {
    let err = validate_permanent_tail_offset(-50).unwrap_err();
    assert_eq!(err, ProgramError::Dex(DexError::InvalidPermanentTailOffset));
}

#[test]
fn rejects_offset_above_maximum() {
    assert!(validate_permanent_tail_offset(DEFAULT_PERMANENT_TAIL_OFFSET_BPS).is_ok());
    for offset in [101, 65_566, 70_000, i32::MAX] {
        let err = validate_permanent_tail_offset(offset).unwrap_err();
        assert_eq!(err, ProgramError::Dex(DexError::InvalidPermanentTailOffset));
    }
    for offset in [30, 31, 99, 100] {
        let (pool, _) = run_anchor_init(0, 1, offset);
        assert_eq!(pool.permanent_tail_offset_bps as i32, offset);
    }
}

#[test]
fn accepts_minimum_offset() {
    assert!(validate_permanent_tail_offset(MIN_PERMANENT_TAIL_OFFSET_BPS).is_ok());
}

fn ladder_accounts() -> CreateConcentratedPool {
    let (pool, _) = find_address_3(b"pool", &RWT, &[0xFF; 32], &PROGRAM).unwrap();
    let (bins, _) = find_address_2(b"bins", &pool, &PROGRAM).unwrap();
    CreateConcentratedPool {
        creator: account([0xC0; 32]),
        dex_config: account([2; 32]),
        pool_creators: account([3; 32]),
        pool_state: account(pool),
        bin_array: account(bins),
        token_a_mint: account(RWT),
        token_b_mint: account([0xFF; 32]),
        vault_a: account([0xAA; 32]),
        vault_b: account([0xBB; 32]),
        token_program: account(spl_token_program()),
        system_program: account(system_program()),
    }
}

fn create_ladder(
    accounts: &CreateConcentratedPool,
    remaining: &Vec<AccountInfo>,
    params: &DexParams,
    config: &DexConfig,
    creators: &PoolCreators,
    step: u16,
    bin: i32,
    offset: i32,
) -> Result<CreateConcentratedPoolOutcome, ProgramError> {
    let ctx = Context {
        accounts,
        remaining_accounts: remaining,
        program_id: &PROGRAM,
        now: NOW,
    };
    create_concentrated_pool::handler(&ctx, params, config, creators, step, bin, offset)
}

fn run_anchor_init(bin: i32, step: u16, offset: i32) -> (PoolState, BinArray) {
    let o = create_ladder(
        &ladder_accounts(),
        &vec![],
        &params(),
        &config(),
        &creators(),
        step,
        bin,
        offset,
    )
    .unwrap();
    (o.pool, o.bins)
}

#[test]
fn anchors_correct_with_default_offset() {
    let (pool, _bins) = run_anchor_init(1000, 10, 100);
    assert_eq!(pool.left_anchor_bin, 990);
    assert_eq!(pool.permanent_tail_floor_bin, 920);
    assert_eq!(pool.last_rebalance_nav_bin, 1000);
    assert_eq!(pool.active_zone_lower, 1000);
    assert_eq!(pool.permanent_tail_offset_bps, 100u16);
    assert_eq!(pool.bin_step_bps, 10u16);
    assert_eq!(pool.active_bin_id, 1000);
    assert_eq!(PERMANENT_TAIL_BIN_COUNT, 70);
}

#[test]
fn bin_array_lower_bin_id_anchored_at_tail_floor() {
    let (_pool, bins) = run_anchor_init(1000, 10, 100);
    assert_eq!(bins.lower_bin_id, 920);
    assert_eq!(bins.active_bin_id, 1000);
    assert_eq!(bins.bin_step_bps, 10u16);
}

#[test]
fn bin_array_active_bin_id_set_correctly() {
    let (_pool, bins) = run_anchor_init(12_345, 10, 100);
    assert_eq!(bins.active_bin_id, 12_345);
}

#[test]
fn anchors_with_minimum_offset() {
    let (pool, _bins) = run_anchor_init(1000, 10, MIN_PERMANENT_TAIL_OFFSET_BPS);
    assert_eq!(pool.left_anchor_bin, 997);
    assert_eq!(pool.permanent_tail_floor_bin, 927);
    assert_eq!(pool.active_zone_lower, 1000);
    assert_eq!(pool.active_zone_lower - pool.left_anchor_bin, 3);
}

#[test]
fn ladder_creation_outcome() {
    let accounts = ladder_accounts();
    let o = create_ladder(&accounts, &vec![], &params(), &config(), &creators(), 10, -7, 100).unwrap();
    assert_eq!(o.pool.pool_type, POOL_TYPE_CONCENTRATED);
    assert_eq!(o.pool.fee_bps, 30);
    assert!(!o.pool.has_ot_treasury);
    assert_eq!(o.pool.left_anchor_bin, -17);
    assert_eq!(o.bins.pool, accounts.pool_state.address);
    assert!(o.bins.bins.iter().all(|b| b.liquidity_a == 0 && b.liquidity_b == 0));
    assert_eq!(o.create_bins.space, 16_051);
    let signature = SignedBy::Bins { pool: accounts.pool_state.address, bump: o.bins.bump };
    assert_eq!(o.create_bins.signed_by, signature);
    assert_eq!(o.create_pool.space, 272);
    assert_eq!(o.vaults.init_b.mint, [0xFF; 32]);
    assert_eq!(o.vaults.init_a.owner, accounts.pool_state.address);
    assert_eq!(o.event.pool_type, POOL_TYPE_CONCENTRATED);
}

#[test]
fn ladder_creation_refusals() {
    let a = ladder_accounts();
    let c = config();
    let w = creators();
    let p = params();
    let none = vec![];
    let paused = DexConfig { is_active: false, ..c };
    let r = create_ladder(&a, &none, &p, &paused, &w, 10, 0, 100);
    assert_eq!(r, dex(DexError::DexPaused));
    assert_eq!(create_ladder(&a, &none, &p, &c, &w, 0, 0, 100), dex(DexError::InvalidBinStep));
    assert_eq!(create_ladder(&a, &none, &p, &c, &w, 101, 0, 100), dex(DexError::InvalidBinStep));
    let r = create_ladder(&a, &none, &p, &c, &w, 10, 100_001, 100);
    assert_eq!(r, dex(DexError::InvalidBinRange));
    let r = create_ladder(&a, &none, &p, &c, &w, 10, -100_001, 100);
    assert_eq!(r, dex(DexError::InvalidBinRange));
    let r = create_ladder(&a, &none, &p, &c, &w, 10, 0, 29);
    assert_eq!(r, dex(DexError::InvalidPermanentTailOffset));
    let r = create_ladder(&a, &none, &p, &c, &w, 10, 0, 70_000);
    assert_eq!(r, dex(DexError::InvalidPermanentTailOffset));
    let mut nobody = w;
    nobody.active_count = 0;
    let r = create_ladder(&a, &none, &p, &c, &nobody, 10, 0, 100);
    assert_eq!(r, dex(DexError::CreatorNotWhitelisted));
    let pinned = params_with([0x11; 32], [0; 32]);
    let r = create_ladder(&a, &none, &pinned, &c, &w, 10, 0, 100);
    assert_eq!(r, dex(DexError::InvalidMintPair));
    let r = create_ladder(&a, &vec![account([1; 32])], &p, &c, &w, 10, 0, 100);
    assert_eq!(r, dex(DexError::OtTreasuryNotAllowedOnMasterPool));
    let mut moved = ladder_accounts();
    moved.pool_state.address = [1; 32];
    let r = create_ladder(&moved, &none, &p, &c, &w, 10, 0, 100);
    assert_eq!(r, Err(ProgramError::InvalidSeeds));
    let mut moved = ladder_accounts();
    moved.bin_array.address = [1; 32];
    let r = create_ladder(&moved, &none, &p, &c, &w, 10, 0, 100);
    assert_eq!(r, Err(ProgramError::InvalidSeeds));
}

fn pool_accounts(mint_a: [u8; 32], mint_b: [u8; 32]) -> CreatePool {
    let (pool, _) = find_address_3(b"pool", &mint_a, &mint_b, &PROGRAM).unwrap();
    CreatePool {
        creator: account([0xC0; 32]),
        dex_config: account([2; 32]),
        pool_creators: account([3; 32]),
        pool_state: account(pool),
        token_a_mint: account(mint_a),
        token_b_mint: account(mint_b),
        vault_a: account([0xAA; 32]),
        vault_b: account([0xBB; 32]),
        token_program: account(spl_token_program()),
        system_program: account(system_program()),
    }
}

fn create(accounts: &CreatePool, remaining: &Vec<AccountInfo>) -> Result<CreatePoolOutcome, ProgramError> {
    let ctx = Context {
        accounts,
        remaining_accounts: remaining,
        program_id: &PROGRAM,
        now: NOW,
    };
    create_pool::handler(&ctx, &params(), &config(), &creators())
}

#[test]
fn pool_creation() {
    let o = create(&pool_accounts(RWT, OT), &vec![]).unwrap();
    assert_eq!(o.pool.pool_type, POOL_TYPE_STANDARD);
    assert_eq!(o.pool.fee_bps, 30);
    assert!(o.pool.is_active);
    assert_eq!(o.pool.total_lp_shares, 0);
    assert_eq!(o.pool.vault_a, [0xAA; 32]);
    assert_eq!(o.event.creator, [0xC0; 32]);
    assert_eq!(o.vaults.create_a.space, 165);
    assert_eq!(o.vaults.create_a.owner, spl_token_program());
    let signature = SignedBy::Pool { token_a_mint: RWT, token_b_mint: OT, bump: o.pool.bump };
    assert_eq!(o.create_pool.signed_by, signature);
}

#[test]
fn pool_pairs_have_one_order() {
    assert_eq!(create(&pool_accounts(OT, RWT), &vec![]), dex(DexError::InvalidMintOrder));
    assert_eq!(create(&pool_accounts(RWT, RWT), &vec![]), dex(DexError::IdenticalMints));
    assert_eq!(create(&pool_accounts([1; 32], [2; 32]), &vec![]), dex(DexError::MissingRwtMint));
    assert!(create(&pool_accounts([1; 32], RWT), &vec![]).is_ok());
}

#[test]
fn pool_creation_finds_the_treasury() {
    let (treasury, _) = find_address_2(b"ot_treasury", &OT, &ot_program_id()).unwrap();
    let (ata, _) =
        find_address_3(&treasury, &spl_token_program(), &RWT, &associated_token_program()).unwrap();
    let good = AccountInfo { owner: ot_program_id(), ..account(treasury) };
    let remaining = vec![good, account(ata)];
    let o = create(&pool_accounts(RWT, OT), &remaining).unwrap();
    assert!(o.pool.has_ot_treasury);
    assert_eq!(o.pool.ot_treasury_fee_destination, ata);
    let foreign = vec![account(treasury), account(ata)];
    let r = create(&pool_accounts(RWT, OT), &foreign);
    assert_eq!(r, dex(DexError::InvalidOtTreasuryDestination));
    let elsewhere = vec![
        AccountInfo { owner: ot_program_id(), ..account(treasury) },
        account([7; 32]),
    ];
    let r = create(&pool_accounts(RWT, OT), &elsewhere);
    assert_eq!(r, dex(DexError::InvalidOtTreasuryDestination));
    let wrong = vec![
        AccountInfo { owner: ot_program_id(), ..account([7; 32]) },
        account(ata),
    ];
    let r = create(&pool_accounts(RWT, OT), &wrong);
    assert_eq!(r, dex(DexError::InvalidOtTreasuryDestination));
    let one = vec![account(treasury)];
    assert!(!create(&pool_accounts(RWT, OT), &one).unwrap().pool.has_ot_treasury);
}

fn grow_accounts() -> GrowLiquidity {
    GrowLiquidity {
        rebalancer: account([0xAA; 32]),
        dex_config: account([2; 32]),
        pool_state: account([0x03; 32]),
        bin_array: account([4; 32]),
        liquidity_nexus: account([0x4E; 32]),
        nexus_usdc_ata: token_account(5, [0x11; 32], [0x4E; 32], 50_000),
        pool_vault_b: account([0xBB; 32]),
        rwt_vault: rwt_vault(1_000_000),
        token_program: account(spl_token_program()),
    }
}

fn nexus() -> LiquidityNexus {
    LiquidityNexus {
        manager: [1; 32],
        total_deposited_usdc: 0,
        total_deposited_rwt: 0,
        is_active: true,
        bump: 0xFD,
    }
}

fn grow(
    accounts: &GrowLiquidity,
    pool: &PoolState,
    nexus: &LiquidityNexus,
    new_nav_bin: i32,
) -> Result<GrowOutcome, ProgramError> {
    let none = vec![];
    let ctx = Context {
        accounts,
        remaining_accounts: &none,
        program_id: &PROGRAM,
        now: NOW,
    };
    grow_liquidity::handler(
        &ctx,
        &params_with([0x11; 32], [0; 32]),
        &config(),
        pool,
        &empty_bin_array(0, 500),
        nexus,
        new_nav_bin,
        ACTIVE_ZONE_WIDTH,
    )
}

#[test]
fn grow_liquidity_rejects_standard_curve() {
    let standard = PoolState { pool_type: POOL_TYPE_STANDARD, ..ladder() };
    let r = grow(&grow_accounts(), &standard, &nexus(), 600);
    assert_eq!(r, dex(DexError::InvalidPoolType));
    assert!(grow(&grow_accounts(), &ladder(), &nexus(), 600).is_ok());
}

#[test]
fn grow_liquidity_rejects_wrong_rebalancer_signer() {
    let mut accounts = grow_accounts();
    accounts.rebalancer.address = [0xBBu8; 32];
    let r = grow(&accounts, &ladder(), &nexus(), 600);
    assert_eq!(r, dex(DexError::InvalidRebalancer));
}

#[test]
fn rejects_compression_direction() {
    let err = grow_zone(0, 100, 500, 400, ACTIVE_ZONE_WIDTH).unwrap_err();
    assert_eq!(err, ProgramError::Dex(DexError::NotGrowthDirection));
}

#[test]
fn rejects_no_movement() {
    let err = grow_zone(0, 100, 500, 500, ACTIVE_ZONE_WIDTH).unwrap_err();
    assert_eq!(err, ProgramError::Dex(DexError::NotGrowthDirection));
}

#[test]
fn rejects_empty_nexus() {
    let mut accounts = grow_accounts();
    accounts.nexus_usdc_ata = token_account(5, [0x11; 32], [0x4E; 32], 0);
    let r = grow(&accounts, &ladder(), &nexus(), 600);
    assert_eq!(r, dex(DexError::NexusAccumulatorEmpty));
    accounts.nexus_usdc_ata = token_account(5, [0x11; 32], [0x4E; 32], 1);
    assert!(grow(&accounts, &ladder(), &nexus(), 600).is_ok());
}

#[test]
fn grow_liquidity_rejects_overlap_with_tail() {
    let err = grow_zone(0, 80, 50, 100, ACTIVE_ZONE_WIDTH).unwrap_err();
    assert_eq!(err, ProgramError::Dex(DexError::ActiveZoneOverlapsTail));
}

#[test]
fn rejects_right_edge_buffer() {
    let err = grow_zone(0, 50, 800, 995, ACTIVE_ZONE_WIDTH).unwrap_err();
    assert_eq!(err, ProgramError::Dex(DexError::ExceedsRightEdgeBuffer));
    assert_eq!(grow_zone(0, 50, 800, 989, ACTIVE_ZONE_WIDTH), Ok(950));
    let err = grow_zone(0, 50, 800, 990, ACTIVE_ZONE_WIDTH).unwrap_err();
    assert_eq!(err, ProgramError::Dex(DexError::ExceedsRightEdgeBuffer));
}

#[test]
fn growth_outcome() {
    let o = grow(&grow_accounts(), &ladder(), &nexus(), 600).unwrap();
    assert_eq!(o.pool.active_zone_lower, 561);
    assert_eq!(o.pool.last_rebalance_nav_bin, 600);
    assert_eq!(o.pool.reserve_b, 51_000);
    assert_eq!(o.pool.active_bin_id, 500);
    assert_eq!(o.transfer.amount, 50_000);
    assert_eq!(o.transfer.from, [5; 32]);
    assert_eq!(o.transfer.to, [0xBB; 32]);
    assert_eq!(o.transfer.signed_by, SignedBy::Nexus { bump: 0xFD });
    assert_eq!(o.bins.last_rebalance_nav_bin, 500);
    assert_eq!(o.bins.new_nav_bin, 600);
    assert_eq!(o.bins.left_anchor_bin, 100);
    assert_eq!(o.bins.permanent_tail_floor_bin, 30);
    assert_eq!(o.bins.fresh_usdc, 50_000);
    assert_eq!(o.event.new_active_zone_lower, 561);
}

#[test]
fn growth_refusals() {
    let p = ladder();
    let n = nexus();
    let inactive = PoolState { is_active: false, ..p };
    assert_eq!(grow(&grow_accounts(), &inactive, &n, 600), dex(DexError::PoolNotActive));
    let moved = PoolState { vault_b: [1; 32], ..p };
    assert_eq!(grow(&grow_accounts(), &moved, &n, 600), dex(DexError::InvalidVault));
    let mut a = grow_accounts();
    a.rwt_vault.owner = [1; 32];
    assert_eq!(grow(&a, &p, &n, 600), dex(DexError::InvalidRwtVault));
    let mut a = grow_accounts();
    a.nexus_usdc_ata = token_account(5, [0x11; 32], [9; 32], 5);
    assert_eq!(grow(&a, &p, &n, 600), dex(DexError::InvalidTokenAccount));
    let mut a = grow_accounts();
    a.nexus_usdc_ata = token_account(5, RWT, [0x4E; 32], 5);
    assert_eq!(grow(&a, &p, &n, 600), dex(DexError::InvalidNexusToken));
    let off = LiquidityNexus { is_active: false, ..n };
    assert_eq!(grow(&grow_accounts(), &p, &off, 600), dex(DexError::NexusNotActive));
    let brim = PoolState { reserve_b: u64::MAX, ..p };
    assert_eq!(grow(&grow_accounts(), &brim, &n, 600), dex(DexError::MathOverflow));
    assert_eq!(grow(&grow_accounts(), &p, &n, 499), dex(DexError::NotGrowthDirection));
}

fn compress_accounts() -> CompressLiquidity {
    CompressLiquidity {
        rebalancer: account([0xAA; 32]),
        dex_config: account([2; 32]),
        pool_state: account([0x03; 32]),
        bin_array: account([4; 32]),
        rwt_vault: rwt_vault(1_000_000),
    }
}

fn compress(
    accounts: &CompressLiquidity,
    pool: &PoolState,
    within: Result<bool, ProgramError>,
    new_nav_bin: i32,
) -> Result<CompressOutcome, ProgramError> {
    let none = vec![];
    let ctx = Context {
        accounts,
        remaining_accounts: &none,
        program_id: &PROGRAM,
        now: NOW,
    };
    compress_liquidity::handler(
        &ctx,
        &params(),
        &config(),
        pool,
        &within,
        new_nav_bin,
        ACTIVE_ZONE_WIDTH,
    )
}

#[test]
fn compress_liquidity_rejects_standard_curve() {
    let standard = PoolState { pool_type: POOL_TYPE_STANDARD, ..ladder() };
    let r = compress(&compress_accounts(), &standard, Ok(true), 480);
    assert_eq!(r, dex(DexError::InvalidPoolType));
    assert!(compress(&compress_accounts(), &ladder(), Ok(true), 480).is_ok());
}

#[test]
fn compress_liquidity_rejects_wrong_rebalancer_signer() {
    let mut accounts = compress_accounts();
    accounts.rebalancer.address = [0xBBu8; 32];
    let r = compress(&accounts, &ladder(), Ok(true), 480);
    assert_eq!(r, dex(DexError::InvalidRebalancer));
}

#[test]
fn rejects_nav_bin_mismatch() {
    let question =
        ask_nav_bin(&params(), &compress_accounts(), &config(), &ladder(), 500).unwrap();
    assert_eq!(question.nav_bin, 500);
    assert_eq!(question.nav, 1_000_000);
    assert_eq!(question.bin_step_bps, 10);
    let r = compress(&compress_accounts(), &ladder(), Ok(false), 480);
    assert_eq!(r, dex(DexError::NavBinMismatch));
    let r = compress(&compress_accounts(), &ladder(), dex(DexError::PriceOverflow), 480);
    assert_eq!(r, dex(DexError::PriceOverflow));
}

#[test]
fn rejects_growth_direction() {
    let err = compress_zone(100, 500, 600, ACTIVE_ZONE_WIDTH).unwrap_err();
    assert_eq!(err, ProgramError::Dex(DexError::NotCompressionDirection));
    let err = compress_zone(100, 500, 500, ACTIVE_ZONE_WIDTH).unwrap_err();
    assert_eq!(err, ProgramError::Dex(DexError::NotCompressionDirection));
}

#[test]
fn compress_liquidity_rejects_overlap_with_tail() {
    let err = compress_zone(80, 200, 100, ACTIVE_ZONE_WIDTH).unwrap_err();
    assert_eq!(err, ProgramError::Dex(DexError::ActiveZoneOverlapsTail));
}

#[test]
fn compression_outcome() {
    let before = ladder();
    let o = compress(&compress_accounts(), &before, Ok(true), 480).unwrap();
    assert_eq!(o.pool.active_zone_lower, 441);
    assert_eq!(o.pool.last_rebalance_nav_bin, 480);
    assert_eq!(o.pool.reserve_b, before.reserve_b);
    assert_eq!(o.pool.active_bin_id, 500);
    assert_eq!(o.bins.new_nav_bin, 480);
    assert_eq!(o.bins.last_rebalance_nav_bin, 500);
    assert_eq!(o.event.new_active_zone_lower, 441);
    let inactive = PoolState { is_active: false, ..before };
    let r = compress(&compress_accounts(), &inactive, Ok(true), 480);
    assert_eq!(r, dex(DexError::PoolNotActive));
    let mut a = compress_accounts();
    a.rwt_vault.data[0] = 0;
    assert_eq!(compress(&a, &before, Ok(true), 480), dex(DexError::InvalidRwtVault));
}

fn shift_accounts() -> ShiftLiquidity {
    let (bins, _) = find_address_2(b"bins", &[0x03; 32], &PROGRAM).unwrap();
    ShiftLiquidity {
        rebalancer: account([0xAA; 32]),
        dex_config: account([2; 32]),
        pool_state: account([0x03; 32]),
        bin_array: account(bins),
    }
}

fn shift(
    accounts: &ShiftLiquidity,
    pool: &PoolState,
    bins: &BinArray,
    nav_bin: i32,
    count: u16,
) -> Result<ShiftOutcome, ProgramError> {
    let none = vec![];
    let ctx = Context {
        accounts,
        remaining_accounts: &none,
        program_id: &PROGRAM,
        now: NOW,
    };
    shift_liquidity::handler(&ctx, &params(), &config(), pool, bins, nav_bin, count)
}

#[test]
fn bin_numbers_are_held_or_not_computed() {
    let c = config();
    let p = ladder();
    let b = empty_bin_array(0, 500);
    let wide = DexParams { max_shift_distance: i32::MAX, ..params() };
    let a = shift_accounts();
    assert!(fits_shift(&a, &params(), &c, &p, &b, 550, 41));
    assert!(fits_shift(&a, &params(), &c, &p, &b, i32::MAX, 41));
    assert!(!fits_shift(&a, &params(), &c, &p, &b, i32::MIN, 41));
    assert!(!fits_shift(&a, &wide, &c, &p, &b, i32::MAX, 41));
    let mut other = shift_accounts();
    other.rebalancer.address = [1; 32];
    assert!(fits_shift(&other, &wide, &c, &p, &b, i32::MIN, 41));
    let accounts = ladder_accounts();
    let none = vec![];
    let ctx = Context {
        accounts: &accounts,
        remaining_accounts: &none,
        program_id: &PROGRAM,
        now: NOW,
    };
    let w = creators();
    assert!(fits_ladder(&ctx, &params(), &c, &w, 10, 0, 100));
    assert!(!fits_ladder(&ctx, &params(), &c, &w, 10, i32::MIN, 100));
    let paused = DexConfig { is_active: false, ..c };
    assert!(fits_ladder(&ctx, &params(), &paused, &w, 10, i32::MIN, 100));
    let far = DexParams { max_initial_active_bin: i32::MAX, ..params() };
    assert!(!fits_ladder(&ctx, &far, &c, &w, 1, i32::MIN + 169, 100));
    assert!(fits_ladder(&ctx, &far, &c, &w, 1, i32::MIN + 170, 100));
    assert!(fits_ladder(&ctx, &far, &c, &w, 1, i32::MIN + 169, 101));
}

#[test]
fn shift_outcome() {
    let o = shift(&shift_accounts(), &ladder(), &empty_bin_array(0, 500), 550, 41).unwrap();
    assert_eq!(o.pool.active_bin_id, 550);
    assert_eq!(o.pool.reserve_b, 1_000);
    assert_eq!(o.event.old_lower, 0);
    assert_eq!(o.event.old_upper, 999);
    assert_eq!(o.event.new_lower, 530);
    assert_eq!(o.event.new_upper, 570);
    assert_eq!(o.bins.nav_bin, 550);
    assert_eq!(o.bins.target_bin_count, 41);
}

#[test]
fn shift_refusals() {
    let a = shift_accounts();
    let p = ladder();
    let b = empty_bin_array(0, 500);
    let mut other = shift_accounts();
    other.rebalancer.address = [1; 32];
    assert_eq!(shift(&other, &p, &b, 550, 41), dex(DexError::Unauthorized));
    let standard = PoolState { pool_type: POOL_TYPE_STANDARD, ..p };
    assert_eq!(shift(&a, &standard, &b, 550, 41), dex(DexError::InvalidPoolType));
    assert_eq!(shift(&a, &p, &b, 550, 0), dex(DexError::InvalidBinRange));
    assert_eq!(shift(&a, &p, &b, 550, 1_001), dex(DexError::InvalidBinRange));
    let mut foreign = b;
    foreign.pool = [9; 32];
    assert_eq!(shift(&a, &p, &foreign, 550, 41), dex(DexError::InvalidVault));
    assert_eq!(shift(&a, &p, &b, 601, 41), dex(DexError::ShiftTooLarge));
    assert_eq!(shift(&a, &p, &b, 399, 41), dex(DexError::ShiftTooLarge));
    let edge = empty_bin_array(0, 10);
    assert_eq!(shift(&a, &p, &edge, 19, 41), dex(DexError::InvalidBinRange));
    let mut moved = shift_accounts();
    moved.bin_array.address = [1; 32];
    assert_eq!(shift(&moved, &p, &b, 550, 41), Err(ProgramError::InvalidSeeds));
    assert_eq!(shift(&a, &p, &b, 500, 41), dex(DexError::ShiftNoOp));
}

fn compound_pool() -> PoolState {
    let (_, bump) = find_address_3(b"pool", &RWT, &OT, &PROGRAM).unwrap();
    let mut pool = blank_pool();
    pool.token_a_mint = RWT;
    pool.token_b_mint = OT;
    pool.vault_a = [0xAA; 32];
    pool.vault_b = [0xBB; 32];
    pool.reserve_a = 700;
    pool.reserve_b = 900;
    pool.total_lp_shares = 50;
    pool.is_active = true;
    pool.bump = bump;
    pool
}

fn compound_accounts() -> CompoundYield {
    let (pool, _) = find_address_3(b"pool", &RWT, &OT, &PROGRAM).unwrap();
    CompoundYield {
        crank: account([1; 32]),
        pool_state: account(pool),
        target_vault: token_account(0xAA, RWT, pool, 700),
        yd_config: account([3; 32]),
        ot_mint: account(OT),
        yd_distributor: account([5; 32]),
        yd_claim_status: account([6; 32]),
        yd_reward_vault: account([7; 32]),
        yd_program: account(yd_program_id()),
        token_program: account(spl_token_program()),
        system_program: account(system_program()),
    }
}

#[test]
fn compounding_adds_what_arrived() {
    let accounts = compound_accounts();
    let none = vec![];
    let ctx = Context {
        accounts: &accounts,
        remaining_accounts: &none,
        program_id: &PROGRAM,
        now: NOW,
    };
    let pool = compound_pool();
    let (plan, call) =
        compound_yield::handler(&ctx, &params(), &pool, 99, &vec![[8; 32]]).unwrap();
    assert_eq!(plan.before, 700);
    assert_eq!(plan.rwt_side, 0);
    assert_eq!(call.data.len(), 52);
    assert_eq!(call.program, yd_program_id());
    assert_eq!(call.accounts.len(), 10);
    assert_eq!(plan.claim.claimant, accounts.pool_state.address);
    assert_eq!(plan.claim.payer, [1; 32]);
    assert_eq!(plan.claim.claimant_token, [0xAA; 32]);
    let signature = SignedBy::Pool { token_a_mint: RWT, token_b_mint: OT, bump: pool.bump };
    assert_eq!(plan.claim.signed_by, signature);
    let vault = |amount: u64| token_account(0xAA, RWT, [0; 32], amount);
    let (after, event) = compound_yield::finish(&plan, &vault(725), &pool, NOW).unwrap().unwrap();
    assert_eq!(after.reserve_a, 725);
    assert_eq!(after.reserve_b, 900);
    assert_eq!(after.total_lp_shares, 50);
    assert_eq!(event.rwt_claimed, 25);
    assert_eq!(event.reserve_after, 725);
    assert_eq!(compound_yield::finish(&plan, &vault(700), &pool, NOW), Ok(None));
    let r = compound_yield::finish(&plan, &vault(699), &pool, NOW);
    assert_eq!(r, dex(DexError::MathOverflow));
    let brim = PoolState { reserve_a: u64::MAX, ..pool };
    let r = compound_yield::finish(&plan, &vault(701), &brim, NOW);
    assert_eq!(r, dex(DexError::MathOverflow));
    let r = compound_yield::finish(&plan, &account([1; 32]), &pool, NOW);
    assert_eq!(r, Err(ProgramError::InvalidAccountData));
}

#[test]
fn compounding_refusals() {
    let none = vec![];
    let run = |accounts: &CompoundYield, pool: &PoolState| {
        let ctx = Context {
            accounts,
            remaining_accounts: &none,
            program_id: &PROGRAM,
            now: NOW,
        };
        compound_yield::handler(&ctx, &params(), pool, 1, &vec![])
    };
    let pool = compound_pool();
    let mut a = compound_accounts();
    a.yd_program.address = [1; 32];
    assert_eq!(run(&a, &pool), dex(DexError::InvalidYdProgram));
    let a = compound_accounts();
    let paused = PoolState { is_active: false, ..pool };
    assert_eq!(run(&a, &paused), dex(DexError::PoolNotActive));
    let no_rwt = PoolState { token_a_mint: [1; 32], ..pool };
    assert_eq!(run(&a, &no_rwt), dex(DexError::TargetVaultNotRwt));
    let mut moved = compound_accounts();
    moved.pool_state.address = [1; 32];
    assert_eq!(run(&moved, &pool), dex(DexError::InvalidPoolPda));
    let bumped = PoolState { bump: pool.bump.wrapping_add(1), ..pool };
    assert_eq!(run(&a, &bumped), dex(DexError::InvalidPoolPda));
    let mut vault = compound_accounts();
    vault.target_vault.address = [0xBB; 32];
    assert_eq!(run(&vault, &pool), dex(DexError::InvalidTargetVault));
    let mut mint = compound_accounts();
    mint.ot_mint.address = RWT;
    assert_eq!(run(&mint, &pool), dex(DexError::InvalidOtMint));
    let mut short = compound_accounts();
    short.target_vault.data.pop();
    assert_eq!(run(&short, &pool), Err(ProgramError::InvalidAccountData));
}

#[test]
fn exchange_creation() {
    let accounts = InitializeDex {
        deployer: account([1; 32]),
        dex_config: account([2; 32]),
        pool_creators: account([3; 32]),
        system_program: account(system_program()),
    };
    let none = vec![];
    let ctx = Context {
        accounts: &accounts,
        remaining_accounts: &none,
        program_id: &PROGRAM,
        now: NOW,
    };
    let o = initialize_dex::handler(&ctx, &params(), [4; 32], [5; 32], [6; 32]).unwrap();
    assert_eq!(o.config.authority, [1; 32]);
    assert_eq!(o.config.areal_fee_destination, [4; 32]);
    assert_eq!(o.config.pause_authority, [5; 32]);
    assert_eq!(o.config.rebalancer, [6; 32]);
    assert_eq!(o.config.base_fee_bps, 30);
    assert!(o.config.is_active);
    assert_eq!(o.creators.active_count, 1);
    assert_eq!(o.creators.creators[0], [1; 32]);
    assert_eq!(o.creators.creators[1], [0; 32]);
    let (_, bump) = find_address_1(b"dex_config", &PROGRAM).unwrap();
    assert_eq!(o.config.bump, bump);
    let r = initialize_dex::handler(&ctx, &params(), [4; 32], [0; 32], [6; 32]);
    assert_eq!(r, dex(DexError::InvalidPauseAuthority));
    let r = initialize_dex::handler(&ctx, &params(), [0; 32], [5; 32], [6; 32]);
    assert_eq!(r, dex(DexError::InvalidFeeDestination));
    let r = program::initialize_dex(&ctx, &params(), [4; 32], [5; 32], [6; 32]);
    assert_eq!(r, Err(ProgramError::AccountConstraint));
}

#[test]
fn configuration_changes() {
    let accounts = UpdateDexConfig { authority: account([1; 32]), dex_config: account([2; 32]) };
    let none = vec![];
    let ctx = Context {
        accounts: &accounts,
        remaining_accounts: &none,
        program_id: &PROGRAM,
        now: NOW,
    };
    let run = |fee: u16, share: u16| {
        update_dex_config::handler(&ctx, &params(), &config(), fee, share, [9; 32], false)
    };
    let (after, event) = run(1_000, 10_000).unwrap();
    assert_eq!(after.base_fee_bps, 1_000);
    assert_eq!(after.rebalancer, [9; 32]);
    assert!(!after.is_active);
    assert_eq!(after.authority, [1; 32]);
    assert_eq!(event.lp_fee_share_bps, 10_000);
    assert_eq!(run(1_001, 0), dex(DexError::InvalidFee));
    assert_eq!(run(0, 10_001), dex(DexError::InvalidFeeShare));
}

#[test]
fn fee_account_changes() {
    let none = vec![];
    let run = |new_account: AccountInfo| {
        let accounts = UpdateArealFeeDestination {
            authority: account([1; 32]),
            dex_config: account([2; 32]),
            new_areal_fee_account: new_account,
        };
        let ctx = Context {
            accounts: &accounts,
            remaining_accounts: &none,
            program_id: &PROGRAM,
            now: NOW,
        };
        update_areal_fee_destination::handler(&ctx, &params(), &config())
    };
    let (after, event) = run(token_account(7, RWT, [0; 32], 0)).unwrap();
    assert_eq!(after.areal_fee_destination, [7; 32]);
    assert_eq!(event.unwrap().old_destination, [0x0F; 32]);
    let (same, event) = run(token_account(0x0F, RWT, [0; 32], 0)).unwrap();
    assert_eq!(same, config());
    assert_eq!(event, None);
    let r = run(token_account(7, OT, [0; 32], 0));
    assert_eq!(r, dex(DexError::InvalidProtocolFeeDestination));
    let r = run(token_account(0, RWT, [0; 32], 0));
    assert_eq!(r, dex(DexError::InvalidFeeDestination));
    assert_eq!(run(account([7; 32])), Err(ProgramError::InvalidAccountData));
}

#[test]
fn creator_list_changes() {
    let accounts = UpdatePoolCreators {
        authority: account([1; 32]),
        dex_config: account([2; 32]),
        pool_creators: account([3; 32]),
    };
    let none = vec![];
    let ctx = Context {
        accounts: &accounts,
        remaining_accounts: &none,
        program_id: &PROGRAM,
        now: NOW,
    };
    let run = |list: &PoolCreators, wallet: [u8; 32], action: u8| {
        update_pool_creators::handler(&ctx, list, wallet, action)
    };
    let list = creators();
    assert_eq!(run(&list, [0; 32], ACTION_ADD), dex(DexError::ZeroAddress));
    assert_eq!(run(&list, [0xC0; 32], ACTION_ADD), dex(DexError::CreatorAlreadyExists));
    assert_eq!(run(&list, [1; 32], ACTION_REMOVE), dex(DexError::CreatorNotFound));
    assert_eq!(run(&list, [1; 32], 2), Err(ProgramError::InvalidArgument));
    let (two, event) = run(&list, [1; 32], ACTION_ADD).unwrap();
    assert_eq!(two.active_count, 2);
    assert_eq!(event.active_count, 2);
    let (one, _) = run(&two, [1; 32], ACTION_REMOVE).unwrap();
    assert_eq!(one, list);
    let (swapped, _) = run(&two, [0xC0; 32], ACTION_REMOVE).unwrap();
    assert_eq!(swapped.creators[0], [1; 32]);
    assert_eq!(swapped.creators[1], [0; 32]);
    let mut full = list;
    for i in 1..10u8 {
        full = run(&full, [i; 32], ACTION_ADD).unwrap().0;
    }
    assert_eq!(full.active_count, 10);
    assert_eq!(run(&full, [77; 32], ACTION_ADD), dex(DexError::WhitelistFull));
}

#[test]
fn pausing_and_resuming() {
    let none = vec![];
    let pause_accounts = |signer: u8| PausePool {
        pause_authority: account([signer; 32]),
        dex_config: account([2; 32]),
        pool_state: account([3; 32]),
    };
    let good = pause_accounts(2);
    let ctx = Context {
        accounts: &good,
        remaining_accounts: &none,
        program_id: &PROGRAM,
        now: NOW,
    };
    let (paused, event) = pause::pause_handler(&ctx, &config(), &ladder()).unwrap();
    assert!(!paused.is_active);
    assert_eq!(event.pool, [3; 32]);
    let unpause_accounts = UnpausePool {
        pause_authority: account([2; 32]),
        dex_config: account([2; 32]),
        pool_state: account([3; 32]),
    };
    let unpause_ctx = Context {
        accounts: &unpause_accounts,
        remaining_accounts: &none,
        program_id: &PROGRAM,
        now: NOW,
    };
    let (resumed, _) = pause::unpause_handler(&unpause_ctx, &config(), &paused).unwrap();
    assert_eq!(resumed, ladder());
    let bad = pause_accounts(1);
    let ctx = Context {
        accounts: &bad,
        remaining_accounts: &none,
        program_id: &PROGRAM,
        now: NOW,
    };
    let r = pause::pause_handler(&ctx, &config(), &ladder());
    assert_eq!(r, dex(DexError::UnauthorizedPause));
}

#[test]
fn authority_changes_hands_in_two_steps() {
    let none = vec![];
    let propose_accounts = ProposeAuthorityTransfer {
        authority: account([1; 32]),
        dex_config: account([2; 32]),
    };
    let ctx = Context {
        accounts: &propose_accounts,
        remaining_accounts: &none,
        program_id: &PROGRAM,
        now: NOW,
    };
    let propose = |to: [u8; 32]| authority_transfer::propose_handler(&ctx, &config(), to);
    assert_eq!(propose([0; 32]), dex(DexError::ZeroAddress));
    assert_eq!(propose([1; 32]), dex(DexError::SelfTransfer));
    let (proposed, _) = propose([8; 32]).unwrap();
    assert_eq!(proposed.authority, [1; 32]);
    let accept = |signer: u8, config: &DexConfig| {
        let accounts = AcceptAuthorityTransfer {
            new_authority: account([signer; 32]),
            dex_config: account([2; 32]),
            pool_creators: account([3; 32]),
        };
        let ctx = Context {
            accounts: &accounts,
            remaining_accounts: &none,
            program_id: &PROGRAM,
            now: NOW,
        };
        authority_transfer::accept_handler(&ctx, config, &creators())
    };
    assert_eq!(accept(8, &config()), dex(DexError::NoPendingAuthority));
    assert_eq!(accept(9, &proposed), dex(DexError::InvalidPendingAuthority));
    let o = accept(8, &proposed).unwrap();
    assert_eq!(o.config.authority, [8; 32]);
    assert_eq!(o.config.pending_authority, [0; 32]);
    assert!(!o.config.has_pending);
    assert_eq!(o.creators.authority, [8; 32]);
    assert_eq!(o.event.old_authority, [1; 32]);
}

#[test]
fn a_shift_activates_its_centre() {
    let before = empty_bin_array(0, 500);
    let o = shift(&shift_accounts(), &ladder(), &before, 550, 41).unwrap();
    let mut spread = before;
    spread.bins[550].liquidity_a = 7;
    spread.bins[549].liquidity_b = 9;
    let after = activate(&spread, &o.bins);
    assert_eq!(after.active_bin_id, 550);
    assert_eq!(after.active_bin_id, o.pool.active_bin_id);
    let mut want = spread;
    want.active_bin_id = 550;
    assert!(after == want);
    assert_eq!(spread.active_bin_id, 500);
}

#[test]
fn pools_are_made_before_they_are_written() {
    let o = create(&pool_accounts(RWT, OT), &vec![]).unwrap();
    let want = vec![
        Step::Create(o.create_pool),
        Step::Create(o.vaults.create_a),
        Step::Initialize(o.vaults.init_a),
        Step::Create(o.vaults.create_b),
        Step::Initialize(o.vaults.init_b),
        Step::Store(Record::Pool),
        Step::Report(Report::Outcome),
    ];
    assert_eq!(o.steps(), want);
    let o = create_ladder(&ladder_accounts(), &vec![], &params(), &config(), &creators(), 10, -7, 100)
        .unwrap();
    let want = vec![
        Step::Create(o.create_pool),
        Step::Create(o.create_bins),
        Step::Create(o.vaults.create_a),
        Step::Initialize(o.vaults.init_a),
        Step::Create(o.vaults.create_b),
        Step::Initialize(o.vaults.init_b),
        Step::Store(Record::Pool),
        Step::Store(Record::Bins),
        Step::Report(Report::Outcome),
    ];
    assert_eq!(o.steps(), want);
}

#[test]
fn rebalancing_writes_bins_before_the_pool() {
    let o = grow(&grow_accounts(), &ladder(), &nexus(), 600).unwrap();
    let want = vec![
        Step::Store(Record::Bins),
        Step::Transfer(o.transfer),
        Step::Store(Record::Pool),
        Step::Report(Report::Outcome),
    ];
    assert_eq!(o.steps(), want);
    let quiet = vec![
        Step::Store(Record::Bins),
        Step::Store(Record::Pool),
        Step::Report(Report::Outcome),
    ];
    let o = compress(&compress_accounts(), &ladder(), Ok(true), 480).unwrap();
    assert_eq!(o.steps(), quiet);
    let o = shift(&shift_accounts(), &ladder(), &empty_bin_array(0, 500), 550, 41).unwrap();
    assert_eq!(o.steps(), quiet);
}

#[test]
fn lists_and_ladders_have_limits() {
    let mut list = creators();
    list.active_count = 10;
    assert!(list.is_wf());
    list.active_count = 11;
    assert!(!list.is_wf());
    assert!(empty_bin_array(i32::MIN, 0).is_wf());
    assert!(empty_bin_array(i32::MAX - 999, 0).is_wf());
    assert!(!empty_bin_array(i32::MAX - 998, 0).is_wf());
}
