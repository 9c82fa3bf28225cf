//! Account layouts, seeds, program addresses and numbers in bytes.
use areal_contracts::account::{
    read_token_account_amount, read_token_account_mint, read_token_account_owner, AccountInfo,
};
use areal_contracts::address::{
    address_eq, address_lt, find_address_1, find_address_2, find_address_3, is_zero_address,
    zero_address,
};
use areal_contracts::bytes::{append_le, read_u16, read_u32, read_u64, unwrap_32, wrap_32, wrap_64};
use areal_contracts::calls::{claim_data, disc_yd_claim, AccountMeta, YdClaim};
use areal_contracts::error::ProgramError;
use areal_contracts::math::{mul_div_u64, mul_div_u64_round_up, sqrt_of_product};
use areal_contracts::native_dex::constants::{
    MAX_BINS, RWT_VAULT_DISC_LEN, RWT_VAULT_NAV_OFFSET,
};
use areal_contracts::native_dex::cpi::{disc_mint_rwt, MintRwt};
use areal_contracts::native_dex::layout::position_in;
use areal_contracts::native_dex::state::{
    Bin, BinArray, DexConfig, LiquidityNexus, LpPosition, PoolCreators, PoolState,
};
use areal_contracts::ownership_token::state::{
    OtConfig, OtGovernance, OtTreasury, RevenueAccount, RevenueConfig, RevenueDestination,
};
use areal_contracts::programs::{
    associated_token_program, ot_program_id, rwt_engine_program_id, spl_token_program,
    system_program, yd_program_id,
};
use areal_contracts::seeds::{
    bins_seed, dex_config_seed, liq_holding_seed, liquidity_nexus_seed, lp_seed, ot_config_seed,
    ot_governance_seed, ot_treasury_seed, pool_creators_seed, pool_seed, revenue_config_seed,
    revenue_seed, SignedBy,
};
use sha2::{Digest, Sha256};

fn disc(name: &str) -> [u8; 8] {
    let mut h = Sha256::new();
    h.update(name.as_bytes());
    let out = h.finalize();
    let mut buf = [0u8; 8];
    buf.copy_from_slice(&out[..8]);
    buf
}

fn account(address: u8, owner: [u8; 32], data: Vec<u8>) -> AccountInfo {
    AccountInfo {
        address: [address; 32],
        owner,
        is_signer: false,
        is_writable: false,
        lamports: 0,
        data,
    }
}

#[test]
fn liquidity_nexus_size_is_50_bytes() {
    let nexus = LiquidityNexus::decode(&vec![0u8; 50]).unwrap();
    assert_eq!(nexus.encode().len(), 50);
    assert_eq!(LiquidityNexus::SIZE, 50);
    assert_eq!(LiquidityNexus::SPACE, 58);
}

#[test]
fn liquidity_nexus_seed_is_singleton() {
    let seeds = SignedBy::Nexus { bump: 7 }.seeds();
    assert_eq!(seeds.len(), 2);
    assert_eq!(seeds[0], b"liquidity_nexus");
    assert_eq!(&liquidity_nexus_seed(), b"liquidity_nexus");
}

#[test]
fn liquidity_nexus_default_uninitialized() {
    let nexus = LiquidityNexus::decode(&vec![0u8; LiquidityNexus::SIZE]).unwrap();
    assert_eq!(nexus.manager, [0u8; 32]);
    assert_eq!(nexus.total_deposited_usdc, 0);
    assert_eq!(nexus.total_deposited_rwt, 0);
    assert!(!nexus.is_active);
    assert_eq!(nexus.bump, 0);
}

#[test]
fn pool_state_size_includes_lp_fee_accumulators() {
    let pool = PoolState::decode(&vec![0u8; 264]).unwrap();
    assert_eq!(pool.encode().len(), 264);
    assert_eq!(PoolState::SIZE, 264);
    assert_eq!(PoolState::SPACE, 272);
}

#[test]
fn pool_state_size_grew_by_20_bytes() {
    const BEFORE: usize = 244;
    const DELTA: usize = 20;
    let pool = PoolState::decode(&vec![0u8; 264]).unwrap();
    assert_eq!(pool.encode().len(), BEFORE + DELTA);
}

#[test]
fn pool_state_default_zeroes_monotonic_fields() {
    let pool = PoolState::decode(&vec![0u8; PoolState::SIZE]).unwrap();
    assert_eq!(pool.left_anchor_bin, 0i32);
    assert_eq!(pool.permanent_tail_floor_bin, 0i32);
    assert_eq!(pool.last_rebalance_nav_bin, 0i32);
    assert_eq!(pool.active_zone_lower, 0i32);
    assert_eq!(pool.permanent_tail_offset_bps, 0u16);
    assert_eq!(pool._pad_monotonic, [0u8; 2]);
}

#[test]
fn bin_array_size_matches_repr_c() {
    let bins = BinArray::decode(&vec![0u8; 16_043]).unwrap();
    assert_eq!(bins.encode().len(), 16_043);
    assert_eq!(BinArray::SIZE, 16_043);
    assert_eq!(BinArray::SPACE, 16_051);
}

#[test]
fn bin_array_max_bins_is_1000() {
    assert_eq!(MAX_BINS, 1000);
}

#[test]
fn pool_state_default_lp_fee_accumulators_zero() {
    let pool = PoolState::decode(&vec![0u8; PoolState::SIZE]).unwrap();
    assert_eq!(pool.cumulative_fees_per_share_a, 0u128);
    assert_eq!(pool.cumulative_fees_per_share_b, 0u128);
}

#[test]
fn lp_position_size_includes_fees_claimed_snapshots() {
    let position = LpPosition::decode(&vec![0u8; 121]).unwrap();
    assert_eq!(position.encode().len(), 121);
    assert_eq!(LpPosition::SIZE, 121);
    assert_eq!(LpPosition::SPACE, 129);
}

#[test]
fn lp_position_default_fees_claimed_zero() {
    let lp = LpPosition::decode(&vec![0u8; LpPosition::SIZE]).unwrap();
    assert_eq!(lp.fees_claimed_per_share_a, 0u128);
    assert_eq!(lp.fees_claimed_per_share_b, 0u128);
}

#[test]
fn initialize_nexus_uses_singleton_seed() {
    assert_eq!(&liquidity_nexus_seed(), b"liquidity_nexus");
}

#[test]
fn initialize_nexus_space_matches_pinned_layout() {
    assert_eq!(LiquidityNexus::SPACE, 58);
}

#[test]
fn disc_yd_claim_matches_sha256() {
    assert_eq!(disc_yd_claim(), disc("global:claim"));
}

#[test]
fn yd_program_id_matches_vanity() {
    let encoded = bs58::encode(&yd_program_id()).into_string();
    assert_eq!(encoded, "YLD9EBikcTmVCnVzdx6vuNajrDkp8tyCAgZrqTwmMXF");
}

#[test]
fn cpi_account_metas_match_rwt_engine_signature() {
    let call = MintRwt {
        user: [1; 32],
        rwt_vault: [2; 32],
        rwt_mint: [3; 32],
        user_deposit: [4; 32],
        user_rwt: [5; 32],
        capital_acc: [6; 32],
        dao_fee_account: [7; 32],
        token_program: [8; 32],
        rwt_engine_program: [9; 32],
        amount_in: 1,
        min_rwt_out: 2,
    };
    let expected: [(bool, bool); 8] = [
        (false, true),
        (true, false),
        (true, false),
        (true, false),
        (true, false),
        (true, false),
        (true, false),
        (false, false),
    ];
    let metas = call.metas();
    assert_eq!(metas.len(), 8);
    for (i, meta) in metas.iter().enumerate() {
        assert_eq!((meta.is_writable, meta.is_signer), expected[i]);
        assert_eq!(meta.address, [i as u8 + 1; 32]);
    }
    let signers: usize = metas.iter().filter(|m| m.is_signer).count();
    assert_eq!(signers, 1);
    let mut data = disc("global:mint_rwt").to_vec();
    data.extend_from_slice(&1u64.to_le_bytes());
    data.extend_from_slice(&2u64.to_le_bytes());
    assert_eq!(call.data(), data);
    assert_eq!(call.call().program, [9; 32]);
    assert_eq!(call.call().data, data);
    assert_eq!(disc_mint_rwt(), disc("global:mint_rwt"));
}

#[test]
fn nav_read_offset_correct() {
    const NAV: u64 = 1_005_000;
    let mut buf = vec![0u8; 40];
    buf[32..40].copy_from_slice(&NAV.to_le_bytes());
    assert_eq!(read_u64(&buf, RWT_VAULT_DISC_LEN + RWT_VAULT_NAV_OFFSET), NAV);
    assert_eq!(RWT_VAULT_DISC_LEN + RWT_VAULT_NAV_OFFSET, 32);
}

#[test]
fn claim_call_layout() {
    let claim = YdClaim {
        claimant: [1; 32],
        payer: [2; 32],
        config: [3; 32],
        ot_mint: [4; 32],
        distributor: [5; 32],
        claim_status: [6; 32],
        reward_vault: [7; 32],
        claimant_token: [8; 32],
        token_program: [9; 32],
        system_program: [10; 32],
        program: [11; 32],
        signed_by: SignedBy::OtTreasury { ot_mint: [12; 32], bump: 250 },
    };
    let flags = [
        (false, true),
        (true, true),
        (false, false),
        (false, false),
        (true, false),
        (true, false),
        (true, false),
        (true, false),
        (false, false),
        (false, false),
    ];
    let metas = claim.metas();
    assert_eq!(metas.len(), 10);
    for (i, flag) in flags.iter().enumerate() {
        let want = AccountMeta {
            address: [i as u8 + 1; 32],
            is_writable: flag.0,
            is_signer: flag.1,
        };
        assert_eq!(metas[i], want);
    }
    let data = claim_data(0x0102_0304, &vec![[7u8; 32], [9u8; 32]]);
    assert_eq!(data.len(), 8 + 8 + 4 + 64);
    assert_eq!(data[..8], disc("global:claim"));
    assert_eq!(data[8..16], [4, 3, 2, 1, 0, 0, 0, 0]);
    assert_eq!(data[16..20], [2, 0, 0, 0]);
    assert_eq!(data[20..52], [7u8; 32]);
    assert_eq!(data[52..], [9u8; 32]);
    assert_eq!(claim_data(0, &vec![]).len(), 20);
}

#[test]
fn seeds_spell_their_names() {
    assert_eq!(&pool_seed(), b"pool");
    assert_eq!(&lp_seed(), b"lp");
    assert_eq!(&bins_seed(), b"bins");
    assert_eq!(&dex_config_seed(), b"dex_config");
    assert_eq!(&pool_creators_seed(), b"pool_creators");
    assert_eq!(&liq_holding_seed(), b"liq_holding");
    assert_eq!(&ot_treasury_seed(), b"ot_treasury");
    assert_eq!(&ot_config_seed(), b"ot_config");
    assert_eq!(&revenue_seed(), b"revenue");
    assert_eq!(&revenue_config_seed(), b"revenue_config");
    assert_eq!(&ot_governance_seed(), b"ot_governance");
}

#[test]
fn signatures_present_their_seeds() {
    assert!(SignedBy::Transaction.seeds().is_empty());
    assert!(SignedBy::Transaction.is_transaction());
    let pool = SignedBy::Pool { token_a_mint: [1; 32], token_b_mint: [2; 32], bump: 3 };
    assert!(!pool.is_transaction());
    assert_eq!(pool.seeds(), vec![b"pool".to_vec(), vec![1; 32], vec![2; 32], vec![3]]);
    let position = SignedBy::Position { pool: [1; 32], provider: [2; 32], bump: 3 };
    assert_eq!(position.seeds(), vec![b"lp".to_vec(), vec![1; 32], vec![2; 32], vec![3]]);
    let bins = SignedBy::Bins { pool: [1; 32], bump: 3 };
    assert_eq!(bins.seeds(), vec![b"bins".to_vec(), vec![1; 32], vec![3]]);
    let revenue = SignedBy::Revenue { ot_mint: [1; 32], bump: 3 };
    assert_eq!(revenue.seeds(), vec![b"revenue".to_vec(), vec![1; 32], vec![3]]);
    let config = SignedBy::OtConfig { ot_mint: [1; 32], bump: 3 };
    assert_eq!(config.seeds(), vec![b"ot_config".to_vec(), vec![1; 32], vec![3]]);
    let treasury = SignedBy::OtTreasury { ot_mint: [1; 32], bump: 3 };
    assert_eq!(treasury.seeds(), vec![b"ot_treasury".to_vec(), vec![1; 32], vec![3]]);
}

#[test]
fn program_addresses_spell_their_names() {
    let text = |id: [u8; 32]| bs58::encode(&id).into_string();
    assert_eq!(text(spl_token_program()), "TokenkegQfeZyiNwAJbNbGKPFXCWuBvf9Ss623VQ5DA");
    assert_eq!(text(associated_token_program()), "ATokenGPvbdGVxr1b2hvZbsiqW5xWH25efTNsLJA8knL");
    assert_eq!(text(system_program()), "11111111111111111111111111111111");
    assert_eq!(text(ot_program_id()), "oWnqbNwmEdjNS5KVbxz8xeuGNjKMd1aiNF89d7qdARL");
    assert_ne!(rwt_engine_program_id(), ot_program_id());
}

/// An address derived by hand: the first bump, from the top, whose hash is no point of the curve.
/// The hash of a found address must be the hash of its seeds.
#[test]
fn derived_addresses_hash_their_seeds() {
    let program = yd_program_id();
    let check = |seeds: &[&[u8]], found: Option<([u8; 32], u8)>| {
        let (address, bump) = found.unwrap();
        let mut h = Sha256::new();
        for seed in seeds {
            h.update(seed);
        }
        h.update([bump]);
        h.update(program);
        h.update(b"ProgramDerivedAddress");
        let want: [u8; 32] = h.finalize().into();
        assert_eq!(address, want);
    };
    check(&[b"liq_holding"], find_address_1(b"liq_holding", &program));
    check(&[b"bins", &[5u8; 32]], find_address_2(b"bins", &[5u8; 32], &program));
    check(
        &[b"pool", &[1u8; 32], &[2u8; 32]],
        find_address_3(b"pool", &[1u8; 32], &[2u8; 32], &program),
    );
    assert_eq!(find_address_1(&[0u8; 33], &program), None);
    assert_ne!(find_address_1(b"a", &program), find_address_1(b"b", &program));
    assert_ne!(find_address_1(b"a", &program), find_address_1(b"a", &ot_program_id()));
}

#[test]
fn addresses_compare_bytewise() {
    let mut a = [7u8; 32];
    let b = [7u8; 32];
    assert!(address_eq(&a, &b));
    assert!(!address_lt(&a, &b));
    a[31] = 6;
    assert!(!address_eq(&a, &b));
    assert!(address_lt(&a, &b));
    assert!(!address_lt(&b, &a));
    a[0] = 8;
    assert!(address_lt(&b, &a));
    assert!(is_zero_address(&zero_address()));
    assert!(!is_zero_address(&a));
}

#[test]
fn numbers_survive_their_bytes() {
    let mut data = Vec::new();
    append_le(&mut data, 0x0102, 2);
    append_le(&mut data, 0x0304_0506, 4);
    append_le(&mut data, u64::MAX as u128, 8);
    assert_eq!(data[..6], [2, 1, 6, 5, 4, 3]);
    assert_eq!(read_u16(&data, 0), 0x0102);
    assert_eq!(read_u32(&data, 2), 0x0304_0506);
    assert_eq!(read_u64(&data, 6), u64::MAX);
    assert_eq!(wrap_32(-1), 0xffff_ffff);
    assert_eq!(wrap_64(i64::MIN), 0x8000_0000_0000_0000);
    assert_eq!(unwrap_32(0xffff_fffe), -2);
}

#[test]
fn token_account_fields() {
    let mut data = vec![0u8; 72];
    data[..32].copy_from_slice(&[3u8; 32]);
    data[32..64].copy_from_slice(&[4u8; 32]);
    data[64..72].copy_from_slice(&99u64.to_le_bytes());
    let full = account(1, [0; 32], data.clone());
    assert_eq!(read_token_account_mint(&full), Ok([3u8; 32]));
    assert_eq!(read_token_account_owner(&full), Ok([4u8; 32]));
    assert_eq!(read_token_account_amount(&full), Ok(99));
    let short = account(1, [0; 32], data[..31].to_vec());
    assert_eq!(read_token_account_mint(&short), Err(ProgramError::InvalidAccountData));
    let short = account(1, [0; 32], data[..63].to_vec());
    assert_eq!(read_token_account_mint(&short), Ok([3u8; 32]));
    assert_eq!(read_token_account_owner(&short), Err(ProgramError::InvalidAccountData));
    let short = account(1, [0; 32], data[..71].to_vec());
    assert_eq!(read_token_account_amount(&short), Err(ProgramError::InvalidAccountData));
}

#[test]
fn accounts_carry_a_marker() {
    let mut data = vec![1u8, 2, 3, 4, 5, 6, 7, 8];
    data.extend_from_slice(&[9, 10]);
    let marker = [1u8, 2, 3, 4, 5, 6, 7, 8];
    let good = account(1, [5; 32], data.clone());
    assert_eq!(good.fields(&[5; 32], &marker), Ok(vec![9, 10]));
    assert_eq!(good.fields(&[6; 32], &marker), Err(ProgramError::InvalidAccountData));
    assert_eq!(good.fields(&[5; 32], &[0; 8]), Err(ProgramError::InvalidAccountData));
    let short = account(1, [5; 32], data[..7].to_vec());
    assert_eq!(short.fields(&[5; 32], &marker), Err(ProgramError::InvalidAccountData));
}

#[test]
fn exchange_accounts_are_read_back() {
    let config = DexConfig {
        authority: [1; 32],
        pending_authority: [2; 32],
        has_pending: true,
        pause_authority: [3; 32],
        base_fee_bps: 0x0102,
        lp_fee_share_bps: 5_000,
        areal_fee_destination: [4; 32],
        rebalancer: [5; 32],
        is_active: true,
        bump: 254,
    };
    let data = config.encode();
    assert_eq!(data.len(), DexConfig::SIZE);
    assert_eq!(data[64], 1);
    assert_eq!(data[97..99], [2, 1]);
    assert_eq!(DexConfig::decode(&data), Ok(config));
    let mut pool = PoolState::decode(&vec![0u8; 264]).unwrap();
    pool.pool_type = 1;
    pool.reserve_a = 77;
    pool.total_lp_shares = u128::MAX - 1;
    pool.active_bin_id = -5;
    pool.left_anchor_bin = i32::MIN;
    pool.cumulative_fees_per_share_b = 1 << 100;
    pool._pad_monotonic = [8, 9];
    let data = pool.encode();
    assert_eq!(data[174..178], [0xfb, 0xff, 0xff, 0xff]);
    assert_eq!(PoolState::decode(&data), Ok(pool));
    let mut creators = PoolCreators::decode(&vec![0u8; PoolCreators::SIZE]).unwrap();
    creators.creators[3] = [6; 32];
    creators.active_count = 4;
    assert_eq!(creators.encode()[32 + 96..32 + 128], [6u8; 32]);
    assert_eq!(PoolCreators::decode(&creators.encode()), Ok(creators));
    let mut position = LpPosition::decode(&vec![0u8; LpPosition::SIZE]).unwrap();
    position.shares = 12;
    position.last_update_ts = -3;
    assert_eq!(LpPosition::decode(&position.encode()), Ok(position));
    let mut bins = BinArray::decode(&vec![0u8; BinArray::SIZE]).unwrap();
    bins.bins[999] = Bin { liquidity_a: 5, liquidity_b: 6 };
    bins.lower_bin_id = -70;
    let data = bins.encode();
    assert_eq!(data[32 + 999 * 16], 5);
    assert_eq!(data[32 + 999 * 16 + 8], 6);
    assert_eq!(BinArray::decode(&data), Ok(bins));
    let nexus = LiquidityNexus {
        manager: [7; 32],
        total_deposited_usdc: 1,
        total_deposited_rwt: 2,
        is_active: true,
        bump: 9,
    };
    assert_eq!(LiquidityNexus::decode(&nexus.encode()), Ok(nexus));
}

#[test]
fn damaged_accounts_are_not_read() {
    let short = DexConfig::decode(&vec![0u8; DexConfig::SIZE - 1]);
    assert_eq!(short, Err(ProgramError::InvalidAccountData));
    let mut data = vec![0u8; LiquidityNexus::SIZE];
    data[48] = 2;
    assert_eq!(LiquidityNexus::decode(&data), Err(ProgramError::InvalidAccountData));
    data[48] = 1;
    assert!(LiquidityNexus::decode(&data).unwrap().is_active);
}

#[test]
fn ownership_accounts_are_read_back() {
    let config = OtConfig {
        ot_mint: [1; 32],
        name: [2; 32],
        symbol: [3; 10],
        decimals: 6,
        total_minted: 1 << 40,
        uri: [4; 200],
        bump: 255,
    };
    assert_eq!(config.encode().len(), 284);
    assert_eq!(OtConfig::SPACE, 292);
    assert_eq!(OtConfig::decode(&config.encode()), Ok(config));
    let revenue = RevenueAccount {
        ot_mint: [1; 32],
        revenue_token_account: [2; 32],
        total_distributed: 3,
        distribution_count: 4,
        last_distribution_ts: -5,
        min_distribution_amount: 6,
        is_distributing: true,
        bump: 7,
    };
    assert_eq!(revenue.encode().len(), RevenueAccount::SIZE);
    assert_eq!(RevenueAccount::decode(&revenue.encode()), Ok(revenue));
    let mut list = RevenueConfig::decode(&vec![0u8; RevenueConfig::SIZE]).unwrap();
    list.destinations[9] = RevenueDestination {
        address: [5; 32],
        allocation_bps: 9_999,
        label: [6; 32],
    };
    list.active_count = 10;
    assert_eq!(list.encode().len(), 734);
    assert_eq!(RevenueConfig::decode(&list.encode()), Ok(list));
    let governance = OtGovernance {
        ot_mint: [1; 32],
        authority: [2; 32],
        pending_authority: [3; 32],
        has_pending: false,
        is_active: true,
        bump: 4,
    };
    assert_eq!(governance.encode().len(), 99);
    assert_eq!(OtGovernance::decode(&governance.encode()), Ok(governance));
    let treasury = OtTreasury { ot_mint: [1; 32], bump: 2 };
    assert_eq!(treasury.encode().len(), 33);
    assert_eq!(OtTreasury::decode(&treasury.encode()), Ok(treasury));
    assert_eq!(RevenueDestination::zeroed().allocation_bps, 0);
    assert_eq!(RevenueDestination::SIZE, 66);
}

#[test]
fn exact_division_and_roots() {
    assert_eq!(mul_div_u64(7, 3, 2), Some(10));
    assert_eq!(mul_div_u64_round_up(7, 3, 2), Some(11));
    assert_eq!(mul_div_u64(u64::MAX, u64::MAX, u64::MAX), Some(u64::MAX));
    assert_eq!(mul_div_u64(u64::MAX, 2, 1), None);
    assert_eq!(mul_div_u64(1, 1, 0), None);
    assert_eq!(mul_div_u64_round_up(1, 1, 0), None);
    assert_eq!(sqrt_of_product(10, 10), 10);
    assert_eq!(sqrt_of_product(10, 11), 10);
    assert_eq!(sqrt_of_product(u64::MAX, u64::MAX), u64::MAX);
    assert_eq!(sqrt_of_product(0, 5), 0);
}

#[test]
fn markers_hash_the_names() {
    assert_eq!(DexConfig::marker(), disc("account:DexConfig"));
    assert_eq!(PoolState::marker(), disc("account:PoolState"));
    assert_eq!(PoolCreators::marker(), disc("account:PoolCreators"));
    assert_eq!(LpPosition::marker(), disc("account:LpPosition"));
    assert_eq!(BinArray::marker(), disc("account:BinArray"));
    assert_eq!(LiquidityNexus::marker(), disc("account:LiquidityNexus"));
    assert_eq!(OtConfig::marker(), disc("account:OtConfig"));
    assert_eq!(RevenueAccount::marker(), disc("account:RevenueAccount"));
    assert_eq!(RevenueConfig::marker(), disc("account:RevenueConfig"));
    assert_eq!(OtGovernance::marker(), disc("account:OtGovernance"));
    assert_eq!(OtTreasury::marker(), disc("account:OtTreasury"));
}

#[test]
fn positions_are_loaded_or_yet_to_be_created() {
    let program = [5u8; 32];
    let mut position = LpPosition::decode(&vec![0u8; LpPosition::SIZE]).unwrap();
    position.shares = 12;
    let mut data = LpPosition::marker().to_vec();
    data.extend_from_slice(&position.encode());
    let refused = Err(ProgramError::InvalidAccountData);
    assert_eq!(position_in(&account(1, program, vec![]), &program), Ok(None));
    assert_eq!(position_in(&account(1, [6; 32], vec![]), &program), Ok(None));
    assert_eq!(position_in(&account(1, program, data.clone()), &program), Ok(Some(position)));
    assert_eq!(position_in(&account(1, [6; 32], data.clone()), &program), refused);
    assert_eq!(position_in(&account(1, program, data[..50].to_vec()), &program), refused);
    data[0] ^= 1;
    assert_eq!(position_in(&account(1, program, data), &program), refused);
}

#[test]
fn state_is_loaded_behind_its_marker() {
    let program = [5u8; 32];
    let treasury = OtTreasury { ot_mint: [1; 32], bump: 2 };
    let mut data = OtTreasury::marker().to_vec();
    data.extend_from_slice(&treasury.encode());
    let kept = account(1, program, data);
    assert_eq!(OtTreasury::load(&kept, &program), Ok(treasury));
    assert_eq!(OtTreasury::load(&kept, &[6; 32]), Err(ProgramError::InvalidAccountData));
    assert_eq!(LiquidityNexus::load(&kept, &program), Err(ProgramError::InvalidAccountData));
}
