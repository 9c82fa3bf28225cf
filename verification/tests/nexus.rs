//! The nexus: its creation, its manager, its deposits and its profit.
use areal_contracts::account::{AccountInfo, Context};
use areal_contracts::address::find_address_1;
use areal_contracts::error::{DexError, ProgramError};
use areal_contracts::native_dex::constants::{
    DexParams, NEXUS_DEPOSIT_SOURCE_DIRECT, NEXUS_DEPOSIT_SOURCE_LIQUIDITY_HOLDING,
    TOKEN_KIND_RWT, TOKEN_KIND_USDC,
};
use areal_contracts::native_dex::events::NexusDeposited;
use areal_contracts::native_dex::instructions::initialize_nexus;
use areal_contracts::native_dex::instructions::initialize_nexus::InitializeNexus;
use areal_contracts::native_dex::instructions::nexus_deposit;
use areal_contracts::native_dex::instructions::nexus_deposit::{NexusDeposit, NexusDepositOutcome};
use areal_contracts::native_dex::instructions::nexus_record_deposit;
use areal_contracts::native_dex::instructions::nexus_record_deposit::NexusRecordDeposit;
use areal_contracts::native_dex::instructions::nexus_withdraw_profits;
use areal_contracts::native_dex::instructions::nexus_withdraw_profits::{
    remaining_profit, NexusWithdrawProfits,
};
use areal_contracts::native_dex::instructions::update_nexus_manager;
use areal_contracts::native_dex::instructions::update_nexus_manager::UpdateNexusManager;
use areal_contracts::native_dex::nexus::{count_deposit, principal_floor};
use areal_contracts::native_dex::program;
use areal_contracts::native_dex::state::{DexConfig, LiquidityNexus};
use areal_contracts::native_dex::validation::assert_manager;
use areal_contracts::programs::{spl_token_program, system_program, yd_program_id};
use areal_contracts::seeds::{liq_holding_seed, SignedBy};
use areal_contracts::steps::{Record, Report, Step};

const RWT: [u8; 32] = [0xA6; 32];
const USDC: [u8; 32] = [0x11; 32];
const PROGRAM: [u8; 32] = [0xD0; 32];
const NOW: i64 = 1_700_000_000;

fn params() -> DexParams {
    DexParams {
        rwt_mint: RWT,
        usdc_mint: USDC,
        usdy_mint: [0x22; 32],
        rwt_vault_discriminator: [0; 8],
        min_liquidity: 1_000,
        ot_treasury_fee_bps: 20,
        default_base_fee_bps: 30,
        default_lp_fee_share_bps: 5_000,
        max_fee_bps: 1_000,
        max_bin_step_bps: 100,
        max_initial_active_bin: 100_000,
        max_shift_distance: 100,
    }
}

fn account(address: [u8; 32]) -> AccountInfo {
    AccountInfo {
        address,
        owner: spl_token_program(),
        is_signer: true,
        is_writable: true,
        lamports: 0,
        data: vec![],
    }
}

fn token_account(address: u8, mint: [u8; 32], owner: [u8; 32], amount: u64) -> AccountInfo {
    let mut data = mint.to_vec();
    data.extend_from_slice(&owner);
    data.extend_from_slice(&amount.to_le_bytes());
    AccountInfo { data, ..account([address; 32]) }
}

fn make_nexus(usdc: u64, rwt: u64) -> LiquidityNexus {
    LiquidityNexus {
        manager: [0; 32],
        total_deposited_usdc: usdc,
        total_deposited_rwt: rwt,
        is_active: true,
        bump: 0xFD,
    }
}

fn nexus_with_manager(manager: [u8; 32]) -> LiquidityNexus {
    LiquidityNexus {
        manager,
        total_deposited_usdc: 1_000,
        total_deposited_rwt: 2_000,
        is_active: true,
        bump: 0xFE,
    }
}

fn dex<T>(e: DexError) -> Result<T, ProgramError> {
    Err(ProgramError::Dex(e))
}

#[test]
fn assert_manager_happy_path() {
    let manager = [0x42u8; 32];
    assert!(assert_manager(&nexus_with_manager(manager), &account(manager)).is_ok());
}

#[test]
fn assert_manager_rejects_wrong_signer() {
    let nexus = nexus_with_manager([0x42u8; 32]);
    let err = assert_manager(&nexus, &account([0x99u8; 32])).unwrap_err();
    assert_eq!(err, ProgramError::Dex(DexError::InvalidNexusManager));
}

#[test]
fn assert_manager_kill_switch_fires_before_signer_check() {
    let nexus = nexus_with_manager([0u8; 32]);
    let err = assert_manager(&nexus, &account([0u8; 32])).unwrap_err();
    assert_eq!(err, ProgramError::Dex(DexError::NexusManagerDisabled));
}

#[test]
fn assert_manager_kill_switch_with_nonzero_signer() {
    let nexus = nexus_with_manager([0u8; 32]);
    let err = assert_manager(&nexus, &account([0x42u8; 32])).unwrap_err();
    assert_eq!(err, ProgramError::Dex(DexError::NexusManagerDisabled));
}

#[test]
fn assert_manager_rejects_off_by_one_byte() {
    let mut manager = [0u8; 32];
    manager[0] = 0x01;
    manager[31] = 0xFE;
    let mut signer = manager;
    signer[31] = 0xFF;
    let err = assert_manager(&nexus_with_manager(manager), &account(signer)).unwrap_err();
    assert_eq!(err, ProgramError::Dex(DexError::InvalidNexusManager));
}

fn initialize(manager: [u8; 32]) -> LiquidityNexus {
    let accounts = InitializeNexus {
        authority: account([1; 32]),
        dex_config: account([2; 32]),
        liquidity_nexus: account([3; 32]),
        system_program: account(system_program()),
    };
    let none = vec![];
    let ctx = Context {
        accounts: &accounts,
        remaining_accounts: &none,
        program_id: &PROGRAM,
        now: NOW,
    };
    let (nexus, event) = initialize_nexus::handler(&ctx, manager).unwrap();
    assert_eq!(event.manager, manager);
    assert_eq!(event.timestamp, NOW);
    nexus
}

#[test]
fn initialize_nexus_post_state_matches_spec() {
    let manager = [0xABu8; 32];
    let nexus = initialize(manager);
    assert_eq!(nexus.manager, manager);
    assert_eq!(nexus.total_deposited_usdc, 0);
    assert_eq!(nexus.total_deposited_rwt, 0);
    assert!(nexus.is_active);
    let (_, bump) = find_address_1(b"liquidity_nexus", &PROGRAM).unwrap();
    assert_eq!(nexus.bump, bump);
    assert_eq!(initialize([0; 32]).manager, [0; 32]);
}

#[test]
fn nexus_is_created_once() {
    let (config_address, _) = find_address_1(b"dex_config", &PROGRAM).unwrap();
    let (nexus_address, _) = find_address_1(b"liquidity_nexus", &PROGRAM).unwrap();
    let mut config = DexConfig::decode(&vec![0u8; DexConfig::SIZE]).unwrap();
    config.authority = [1; 32];
    let mut accounts = InitializeNexus {
        authority: account([1; 32]),
        dex_config: account(config_address),
        liquidity_nexus: account(nexus_address),
        system_program: account(system_program()),
    };
    let none = vec![];
    let call = |accounts: &InitializeNexus| {
        let ctx = Context {
            accounts,
            remaining_accounts: &none,
            program_id: &PROGRAM,
            now: NOW,
        };
        program::initialize_nexus(&ctx, &config, [7; 32])
    };
    assert!(call(&accounts).is_ok());
    accounts.liquidity_nexus.data = vec![0; 58];
    assert_eq!(call(&accounts), Err(ProgramError::AccountConstraint));
    accounts.liquidity_nexus.data = vec![];
    accounts.authority.address = [2; 32];
    assert_eq!(call(&accounts), Err(ProgramError::AccountConstraint));
}

fn rotate(nexus: &LiquidityNexus, new_manager: [u8; 32]) -> (LiquidityNexus, [u8; 32], [u8; 32]) {
    let accounts = UpdateNexusManager {
        authority: account([1; 32]),
        dex_config: account([2; 32]),
        liquidity_nexus: account([3; 32]),
    };
    let none = vec![];
    let ctx = Context {
        accounts: &accounts,
        remaining_accounts: &none,
        program_id: &PROGRAM,
        now: NOW,
    };
    let (after, event) = update_nexus_manager::handler(&ctx, nexus, new_manager).unwrap();
    (after, event.old_manager, event.new_manager)
}

#[test]
fn update_nexus_manager_rotates_non_kill_switch() {
    let old = [0x11u8; 32];
    let new = [0x22u8; 32];
    let (nexus, captured_old, captured_new) = rotate(&nexus_with_manager(old), new);
    assert_eq!(nexus.manager, new);
    assert_eq!(captured_old, old);
    assert_eq!(captured_new, new);
    assert_eq!(nexus.total_deposited_usdc, 1_000);
    assert_eq!(nexus.total_deposited_rwt, 2_000);
    assert!(nexus.is_active);
    assert_eq!(nexus.bump, 0xFE);
}

#[test]
fn update_nexus_manager_kill_switch_allowed() {
    let old = [0x33u8; 32];
    let (nexus, captured_old, _) = rotate(&nexus_with_manager(old), [0u8; 32]);
    assert_eq!(nexus.manager, [0u8; 32]);
    assert_eq!(captured_old, old);
    assert_eq!(nexus.total_deposited_usdc, 1_000);
    assert_eq!(nexus.total_deposited_rwt, 2_000);
    assert!(nexus.is_active);
}

#[test]
fn update_nexus_manager_same_key_is_noop_rotation() {
    let key = [0x44u8; 32];
    let (nexus, captured_old, _) = rotate(&nexus_with_manager(key), key);
    assert_eq!(nexus.manager, key);
    assert_eq!(captured_old, key);
    assert_eq!(nexus.total_deposited_usdc, 1_000);
    assert!(nexus.is_active);
}

fn deposit(
    nexus: &LiquidityNexus,
    receiver: AccountInfo,
    amount: u64,
    kind: u8,
) -> Result<NexusDepositOutcome, ProgramError> {
    let accounts = NexusDeposit {
        depositor: account([1; 32]),
        liquidity_nexus: account([0x4E; 32]),
        depositor_token_ata: account([2; 32]),
        nexus_token_ata: receiver,
    };
    let none = vec![];
    let ctx = Context {
        accounts: &accounts,
        remaining_accounts: &none,
        program_id: &PROGRAM,
        now: NOW,
    };
    nexus_deposit::handler(&ctx, &params(), nexus, amount, kind)
}

#[test]
fn nexus_deposit_increments_counter_usdc() {
    let nexus = make_nexus(100, 50);
    let receiver = token_account(3, USDC, [0x4E; 32], 0);
    let o = deposit(&nexus, receiver, 250, TOKEN_KIND_USDC).unwrap();
    assert_eq!(o.nexus.total_deposited_usdc, 350);
    assert_eq!(o.nexus.total_deposited_rwt, 50);
    assert_eq!(o.transfer.amount, 250);
    assert_eq!(o.transfer.from, [2; 32]);
    assert_eq!(o.transfer.to, [3; 32]);
    assert_eq!(o.transfer.signed_by, SignedBy::Transaction);
    let want = NexusDeposited {
        token_mint: USDC,
        amount: 250,
        new_total_deposited: 350,
        source_kind: NEXUS_DEPOSIT_SOURCE_DIRECT,
        timestamp: NOW,
    };
    assert_eq!(o.event, want);
}

#[test]
fn nexus_deposit_increments_counter_rwt() {
    let nexus = make_nexus(100, 50);
    let receiver = token_account(3, RWT, [0x4E; 32], 0);
    let o = deposit(&nexus, receiver, 999, TOKEN_KIND_RWT).unwrap();
    assert_eq!(o.nexus.total_deposited_usdc, 100);
    assert_eq!(o.nexus.total_deposited_rwt, 1_049);
}

#[test]
fn nexus_deposit_overflow_returns_math_overflow() {
    let nexus = make_nexus(u64::MAX, 0);
    let receiver = token_account(3, USDC, [0x4E; 32], 0);
    let r = deposit(&nexus, receiver, 1, TOKEN_KIND_USDC);
    assert_eq!(r, dex(DexError::MathOverflow));
}

#[test]
fn nexus_deposit_refusals() {
    let nexus = make_nexus(0, 0);
    let good = || token_account(3, USDC, [0x4E; 32], 0);
    assert_eq!(deposit(&nexus, good(), 0, TOKEN_KIND_USDC), dex(DexError::ZeroAmount));
    assert_eq!(deposit(&nexus, good(), 1, 7), dex(DexError::InvalidNexusToken));
    assert_eq!(deposit(&nexus, good(), 1, TOKEN_KIND_RWT), dex(DexError::InvalidNexusToken));
    let foreign = token_account(3, USDC, [0x4F; 32], 0);
    assert_eq!(deposit(&nexus, foreign, 1, TOKEN_KIND_USDC), dex(DexError::InvalidTokenAccount));
    let short = account([3; 32]);
    let r = deposit(&nexus, short, 1, TOKEN_KIND_USDC);
    assert_eq!(r, Err(ProgramError::InvalidAccountData));
    let off = LiquidityNexus { is_active: false, ..nexus };
    assert_eq!(deposit(&off, good(), 1, TOKEN_KIND_USDC), dex(DexError::NexusNotActive));
}

fn holding() -> AccountInfo {
    let (address, _) = find_address_1(&liq_holding_seed(), &yd_program_id()).unwrap();
    AccountInfo { owner: yd_program_id(), ..account(address) }
}

fn record(
    nexus: &LiquidityNexus,
    liquidity_holding: AccountInfo,
    amount: u64,
    kind: u8,
) -> Result<(LiquidityNexus, NexusDeposited), ProgramError> {
    let accounts = NexusRecordDeposit {
        liquidity_holding,
        liquidity_nexus: account([0x4E; 32]),
    };
    let none = vec![];
    let ctx = Context {
        accounts: &accounts,
        remaining_accounts: &none,
        program_id: &PROGRAM,
        now: NOW,
    };
    nexus_record_deposit::handler(&ctx, &params(), nexus, amount, kind)
}

#[test]
fn nexus_record_deposit_only_yd_program_can_call() {
    let nexus = make_nexus(0, 0);
    assert!(record(&nexus, holding(), 1, TOKEN_KIND_RWT).is_ok());
    let foreign = AccountInfo { owner: [0xFFu8; 32], ..holding() };
    let r = record(&nexus, foreign, 1, TOKEN_KIND_RWT);
    assert_eq!(r, dex(DexError::NexusRecordDepositOnlyFromYd));
    let unsigned = AccountInfo { is_signer: false, ..holding() };
    let r = record(&nexus, unsigned, 1, TOKEN_KIND_RWT);
    assert_eq!(r, dex(DexError::NexusRecordDepositOnlyFromYd));
}

#[test]
fn nexus_record_deposit_pda_seeds_validation() {
    assert_eq!(&liq_holding_seed(), b"liq_holding");
    assert_eq!(liq_holding_seed().len(), 11);
    let elsewhere = AccountInfo { address: [9; 32], ..holding() };
    let r = record(&make_nexus(0, 0), elsewhere, 1, TOKEN_KIND_RWT);
    assert_eq!(r, dex(DexError::InvalidLiquidityHoldingPda));
}

#[test]
fn nexus_record_deposit_increments_counter() {
    let nexus = make_nexus(0, 1_000);
    let (after, event) = record(&nexus, holding(), 500, TOKEN_KIND_RWT).unwrap();
    assert_eq!(after.total_deposited_rwt, 1_500);
    assert_eq!(after.total_deposited_usdc, 0);
    assert_eq!(event.source_kind, NEXUS_DEPOSIT_SOURCE_LIQUIDITY_HOLDING);
    assert_eq!(NEXUS_DEPOSIT_SOURCE_LIQUIDITY_HOLDING, 1);
    assert_ne!(NEXUS_DEPOSIT_SOURCE_LIQUIDITY_HOLDING, NEXUS_DEPOSIT_SOURCE_DIRECT);
}

#[test]
fn nexus_record_deposit_refusals() {
    let nexus = make_nexus(0, u64::MAX);
    assert_eq!(record(&nexus, holding(), 0, TOKEN_KIND_RWT), dex(DexError::ZeroAmount));
    assert_eq!(record(&nexus, holding(), 1, 9), dex(DexError::InvalidNexusToken));
    assert_eq!(record(&nexus, holding(), 1, TOKEN_KIND_RWT), dex(DexError::MathOverflow));
    let off = LiquidityNexus { is_active: false, ..nexus };
    assert_eq!(record(&off, holding(), 1, TOKEN_KIND_USDC), dex(DexError::NexusNotActive));
}

#[test]
fn nexus_withdraw_profits_above_floor_succeeds() {
    assert_eq!(remaining_profit(150, 100, 30), Ok(20));
    assert_eq!(remaining_profit(150, 100, 50), Ok(0));
    assert_eq!(remaining_profit(101, 100, 1), Ok(0));
}

#[test]
fn nexus_withdraw_profits_below_floor_reverts() {
    assert_eq!(remaining_profit(80, 100, 1), dex(DexError::InsufficientNexusProfit));
    assert_eq!(remaining_profit(100, 100, 1), dex(DexError::InsufficientNexusProfit));
    assert_eq!(remaining_profit(105, 100, 6), dex(DexError::InsufficientNexusProfit));
}

fn withdraw_accounts(balance: u64) -> NexusWithdrawProfits {
    NexusWithdrawProfits {
        authority: account([1; 32]),
        dex_config: account([2; 32]),
        liquidity_nexus: account([0x4E; 32]),
        nexus_token_ata: token_account(3, USDC, [0x4E; 32], balance),
        recipient_token_ata: token_account(4, USDC, [5; 32], 0),
    }
}

#[test]
fn nexus_withdraw_profits_counter_not_decremented() {
    let nexus = make_nexus(1_000, 0);
    let none = vec![];
    let withdraw = |balance: u64, amount: u64| {
        let accounts = withdraw_accounts(balance);
        let ctx = Context {
            accounts: &accounts,
            remaining_accounts: &none,
            program_id: &PROGRAM,
            now: NOW,
        };
        nexus_withdraw_profits::handler(&ctx, &params(), &nexus, amount, TOKEN_KIND_USDC)
    };
    let (transfer, event) = withdraw(1_500, 200).unwrap();
    assert_eq!(transfer.amount, 200);
    assert_eq!(transfer.from, [3; 32]);
    assert_eq!(transfer.to, [4; 32]);
    assert_eq!(transfer.signed_by, SignedBy::Nexus { bump: 0xFD });
    assert_eq!(event.remaining_profit, 300);
    assert_eq!(event.treasury_destination, [4; 32]);
    assert_eq!(nexus.total_deposited_usdc, 1_000);
    assert!(withdraw(1_300, 100).is_ok());
    assert_eq!(principal_floor(&nexus, TOKEN_KIND_USDC), 1_000);
    assert_eq!(withdraw(1_300, 301), dex(DexError::InsufficientNexusProfit));
}

#[test]
fn nexus_withdraw_refusals() {
    let nexus = make_nexus(0, 0);
    let none = vec![];
    let run = |accounts: &NexusWithdrawProfits, nexus: &LiquidityNexus, amount: u64, kind: u8| {
        let ctx = Context {
            accounts,
            remaining_accounts: &none,
            program_id: &PROGRAM,
            now: NOW,
        };
        nexus_withdraw_profits::handler(&ctx, &params(), nexus, amount, kind)
    };
    let good = withdraw_accounts(10);
    assert_eq!(run(&good, &nexus, 0, TOKEN_KIND_USDC), dex(DexError::ZeroAmount));
    assert_eq!(run(&good, &nexus, 1, 3), dex(DexError::InvalidNexusToken));
    assert_eq!(run(&good, &nexus, 1, TOKEN_KIND_RWT), dex(DexError::InvalidNexusToken));
    let mut other = withdraw_accounts(10);
    other.recipient_token_ata = token_account(4, RWT, [5; 32], 0);
    assert_eq!(run(&other, &nexus, 1, TOKEN_KIND_USDC), dex(DexError::InvalidNexusToken));
    let mut foreign = withdraw_accounts(10);
    foreign.nexus_token_ata = token_account(3, USDC, [9; 32], 10);
    assert_eq!(run(&foreign, &nexus, 1, TOKEN_KIND_USDC), dex(DexError::InvalidTokenAccount));
    let off = LiquidityNexus { is_active: false, ..nexus };
    assert_eq!(run(&good, &off, 1, TOKEN_KIND_USDC), dex(DexError::NexusNotActive));
    let mut short = withdraw_accounts(10);
    short.nexus_token_ata.data.pop();
    let r = run(&short, &nexus, 1, TOKEN_KIND_USDC);
    assert_eq!(r, Err(ProgramError::InvalidAccountData));
}

#[test]
fn deposit_counters_only_grow() {
    let nexus = make_nexus(5, 6);
    let after = count_deposit(&nexus, TOKEN_KIND_USDC, 10).unwrap();
    let after = count_deposit(&after, TOKEN_KIND_RWT, 20).unwrap();
    assert_eq!(after.total_deposited_usdc, 15);
    assert_eq!(after.total_deposited_rwt, 26);
    assert_eq!(after.manager, nexus.manager);
}

#[test]
fn nexus_deposits_are_counted_before_they_come_in() {
    let receiver = token_account(3, USDC, [0x4E; 32], 0);
    let o = deposit(&make_nexus(100, 50), receiver, 250, TOKEN_KIND_USDC).unwrap();
    let want = vec![
        Step::Store(Record::Nexus),
        Step::Transfer(o.transfer),
        Step::Report(Report::Outcome),
    ];
    assert_eq!(o.steps(), want);
}
