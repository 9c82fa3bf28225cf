//! The ownership token: registration, minting, revenue, treasury and governance.
use areal_contracts::account::{AccountInfo, Context};
use areal_contracts::address::find_address_2;
use areal_contracts::error::{OtError, ProgramError};
use areal_contracts::ownership_token::constants::{
    mpl_token_metadata_program, rent_sysvar, AREAL_PROTOCOL_FEE_BPS, DISTRIBUTION_COOLDOWN,
    MIN_DISTRIBUTION_AMOUNT,
};
use areal_contracts::ownership_token::instructions::authority_transfer;
use areal_contracts::ownership_token::instructions::authority_transfer::{
    AcceptAuthorityTransfer, ProposeAuthorityTransfer,
};
use areal_contracts::ownership_token::instructions::batch_update_destinations;
use areal_contracts::ownership_token::instructions::batch_update_destinations::BatchUpdateDestinations;
use areal_contracts::ownership_token::instructions::claim_yd_for_treasury;
use areal_contracts::ownership_token::instructions::claim_yd_for_treasury::ClaimYdForTreasury;
use areal_contracts::ownership_token::instructions::create_ot_metadata;
use areal_contracts::ownership_token::instructions::create_ot_metadata::CreateOtMetadata;
use areal_contracts::ownership_token::instructions::distribute_revenue;
use areal_contracts::ownership_token::instructions::distribute_revenue::{
    DistributeOutcome, DistributeRevenue,
};
use areal_contracts::ownership_token::instructions::initialize_ot;
use areal_contracts::ownership_token::instructions::initialize_ot::{
    InitializeOt, InitializeOtOutcome,
};
use areal_contracts::ownership_token::instructions::mint_ot;
use areal_contracts::ownership_token::instructions::mint_ot::MintOt;
use areal_contracts::ownership_token::instructions::spend_treasury;
use areal_contracts::ownership_token::instructions::spend_treasury::SpendTreasury;
use areal_contracts::ownership_token::program;
use areal_contracts::ownership_token::state::{
    BatchDestination, OtConfig, OtGovernance, OtTreasury, RevenueAccount, RevenueConfig,
};
use areal_contracts::programs::{
    associated_token_program, spl_token_program, system_program, yd_program_id,
};
use areal_contracts::seeds::SignedBy;
use areal_contracts::steps::{Record, Report, Step};

const PROGRAM: [u8; 32] = [0xD1; 32];
const MINT: [u8; 32] = [0x07; 32];
const USDC: [u8; 32] = [0x11; 32];
const RWT: [u8; 32] = [0xA6; 32];
const NOW: i64 = 1_700_000_000;

fn account(address: [u8; 32]) -> AccountInfo {
    AccountInfo {
        address,
        owner: spl_token_program(),
        is_signer: true,
        is_writable: true,
        lamports: 0,
        data: vec![],
    }
}

fn token_account(address: u8, mint: [u8; 32], owner: [u8; 32], amount: u64) -> AccountInfo {
    let mut data = mint.to_vec();
    data.extend_from_slice(&owner);
    data.extend_from_slice(&amount.to_le_bytes());
    AccountInfo { data, ..account([address; 32]) }
}

fn governance() -> OtGovernance {
    OtGovernance {
        ot_mint: MINT,
        authority: [1; 32],
        pending_authority: [0; 32],
        has_pending: false,
        is_active: true,
        bump: 250,
    }
}

fn ot_config() -> OtConfig {
    OtConfig {
        ot_mint: MINT,
        name: [b'n'; 32],
        symbol: [b's'; 10],
        decimals: 6,
        total_minted: 100,
        uri: [b'u'; 200],
        bump: 251,
    }
}

fn ot<T>(e: OtError) -> Result<T, ProgramError> {
    Err(ProgramError::Ot(e))
}

fn mint_data(supply: u64, decimals: u8, authority: Option<[u8; 32]>, freeze: u32) -> Vec<u8> {
    let mut data = vec![];
    match authority {
        Some(key) => {
            data.extend_from_slice(&1u32.to_le_bytes());
            data.extend_from_slice(&key);
        }
        None => data.extend_from_slice(&[0u8; 36]),
    }
    data.extend_from_slice(&supply.to_le_bytes());
    data.push(decimals);
    data.push(1);
    data.extend_from_slice(&freeze.to_le_bytes());
    data.extend_from_slice(&[0u8; 32]);
    data
}

fn init_accounts(data: Vec<u8>) -> InitializeOt {
    let derived = |seed: &[u8]| account(find_address_2(seed, &MINT, &PROGRAM).unwrap().0);
    InitializeOt {
        deployer: account([1; 32]),
        ot_mint: AccountInfo { data, ..account(MINT) },
        usdc_mint: account(USDC),
        ot_config: derived(b"ot_config"),
        revenue_account: derived(b"revenue"),
        revenue_token_account: account([3; 32]),
        revenue_config: derived(b"revenue_config"),
        ot_governance: derived(b"ot_governance"),
        ot_treasury: derived(b"ot_treasury"),
        areal_fee_destination_account: account([4; 32]),
        token_program: account(spl_token_program()),
        system_program: account(system_program()),
        ata_program: account(associated_token_program()),
    }
}

fn initialize(
    accounts: &InitializeOt,
    name: [u8; 32],
    symbol: [u8; 10],
    authority: [u8; 32],
) -> Result<InitializeOtOutcome, ProgramError> {
    let none = vec![];
    let ctx = Context {
        accounts,
        remaining_accounts: &none,
        program_id: &PROGRAM,
        now: NOW,
    };
    program::initialize_ot(&ctx, name, symbol, [b'u'; 200], authority)
}

#[test]
fn registration() {
    let a = init_accounts(mint_data(0, 6, Some([1; 32]), 0));
    let o = initialize(&a, [b'n'; 32], [b's'; 10], [9; 32]).unwrap();
    assert_eq!(o.config.ot_mint, MINT);
    assert_eq!(o.config.decimals, 6);
    assert_eq!(o.config.total_minted, 0);
    assert_eq!(o.revenue.revenue_token_account, [3; 32]);
    assert_eq!(o.revenue.min_distribution_amount, MIN_DISTRIBUTION_AMOUNT);
    assert_eq!(o.revenue.min_distribution_amount, 100_000_000);
    assert_eq!(o.revenue.last_distribution_ts, 0);
    assert_eq!(o.revenue_config.active_count, 0);
    assert_eq!(o.revenue_config.areal_fee_destination, [4; 32]);
    assert_eq!(o.governance.authority, [9; 32]);
    assert!(o.governance.is_active);
    assert_eq!(o.treasury.ot_mint, MINT);
    assert_eq!(o.set_mint_authority.authority, [1; 32]);
    assert_eq!(o.set_mint_authority.new_authority, a.ot_config.address);
    assert_eq!(o.create_revenue_token_account.wallet, a.revenue_account.address);
    assert_eq!(o.create_revenue_token_account.mint, USDC);
    assert!(!o.create_revenue_token_account.keep_existing);
    let (_, bump) = find_address_2(b"ot_treasury", &MINT, &PROGRAM).unwrap();
    assert_eq!(o.treasury.bump, bump);
    assert_eq!(o.event.authority, [9; 32]);
}

#[test]
fn registration_refusals() {
    let run = |data: Vec<u8>| initialize(&init_accounts(data), [1; 32], [1; 10], [9; 32]);
    let me = Some([1; 32]);
    assert_eq!(run(vec![0; 81]), Err(ProgramError::InvalidAccountData));
    assert_eq!(run(mint_data(1, 6, me, 0)), ot(OtError::InvalidMintSupply));
    assert_eq!(run(mint_data(0, 0, me, 0)), ot(OtError::InvalidDecimals));
    assert_eq!(run(mint_data(0, 10, me, 0)), ot(OtError::InvalidDecimals));
    assert!(run(mint_data(0, 9, me, 0)).is_ok());
    assert_eq!(run(mint_data(0, 6, None, 0)), ot(OtError::InvalidMintAuthority));
    assert_eq!(run(mint_data(0, 6, Some([2; 32]), 0)), ot(OtError::InvalidMintAuthority));
    assert_eq!(run(mint_data(0, 6, me, 1)), ot(OtError::FreezeAuthoritySet));
    let a = init_accounts(mint_data(0, 6, me, 0));
    assert_eq!(initialize(&a, [0; 32], [1; 10], [9; 32]), ot(OtError::InvalidName));
    assert_eq!(initialize(&a, [1; 32], [0; 10], [9; 32]), ot(OtError::InvalidSymbol));
    assert_eq!(initialize(&a, [1; 32], [1; 10], [0; 32]), ot(OtError::InvalidInitialAuthority));
    let mut twice = init_accounts(mint_data(0, 6, me, 0));
    twice.ot_config.data = vec![0; OtConfig::SPACE];
    let r = initialize(&twice, [1; 32], [1; 10], [9; 32]);
    assert_eq!(r, Err(ProgramError::AccountConstraint));
    let none = vec![];
    let ctx = Context {
        accounts: &a,
        remaining_accounts: &none,
        program_id: &PROGRAM,
        now: NOW,
    };
    assert!(initialize_ot::handler(&ctx, [1; 32], [1; 10], [1; 200], [9; 32]).is_ok());
}

#[test]
fn minting() {
    let accounts = MintOt {
        authority: account([1; 32]),
        ot_governance: account([2; 32]),
        ot_config: account([3; 32]),
        ot_mint: account(MINT),
        recipient_token_account: account([4; 32]),
        recipient: account([5; 32]),
        payer: account([6; 32]),
        token_program: account(spl_token_program()),
        system_program: account(system_program()),
        ata_program: account(associated_token_program()),
    };
    let none = vec![];
    let ctx = Context {
        accounts: &accounts,
        remaining_accounts: &none,
        program_id: &PROGRAM,
        now: NOW,
    };
    let o = mint_ot::handler(&ctx, &governance(), &ot_config(), 50).unwrap();
    assert_eq!(o.config.total_minted, 150);
    assert_eq!(o.mint.amount, 50);
    assert_eq!(o.mint.mint_authority, [3; 32]);
    assert_eq!(o.mint.signed_by, SignedBy::OtConfig { ot_mint: MINT, bump: 251 });
    assert!(o.create.keep_existing);
    assert_eq!(o.create.wallet, [5; 32]);
    assert_eq!(o.event.new_total_minted, 150);
    let want = vec![
        Step::Store(Record::OtConfig),
        Step::CreateAssociated(o.create),
        Step::Mint(o.mint),
        Step::Report(Report::Outcome),
    ];
    assert_eq!(o.steps(), want);
    let again = mint_ot::handler(&ctx, &governance(), &o.config, 7).unwrap();
    assert_eq!(again.config.total_minted, 157);
    let r = mint_ot::handler(&ctx, &governance(), &ot_config(), 0);
    assert_eq!(r, ot(OtError::ZeroAmount));
    let off = OtGovernance { is_active: false, ..governance() };
    let r = mint_ot::handler(&ctx, &off, &ot_config(), 1);
    assert_eq!(r, ot(OtError::GovernanceInactive));
    let r = mint_ot::handler(&ctx, &governance(), &ot_config(), u64::MAX);
    assert_eq!(r, ot(OtError::MathOverflow));
}

fn destination(address: u8, allocation_bps: u16) -> BatchDestination {
    BatchDestination { address: [address; 32], allocation_bps, label: [b'l'; 32] }
}

fn revenue_config() -> RevenueConfig {
    let mut config = RevenueConfig::decode(&vec![0u8; RevenueConfig::SIZE]).unwrap();
    config.ot_mint = MINT;
    config.areal_fee_destination = [0x0F; 32];
    config.config_version = 3;
    config
}

fn replace(
    governance: &OtGovernance,
    config: &RevenueConfig,
    list: Vec<BatchDestination>,
) -> Result<RevenueConfig, ProgramError> {
    let accounts = BatchUpdateDestinations {
        authority: account([1; 32]),
        ot_mint: account(MINT),
        ot_governance: account([2; 32]),
        revenue_config: account([3; 32]),
    };
    let none = vec![];
    let ctx = Context {
        accounts: &accounts,
        remaining_accounts: &none,
        program_id: &PROGRAM,
        now: NOW,
    };
    let (after, event) = batch_update_destinations::handler(&ctx, governance, config, &list)?;
    assert_eq!(event.active_count as usize, list.len());
    assert_eq!(event.config_version, after.config_version);
    Ok(after)
}

#[test]
fn destinations_are_replaced_whole() {
    let g = governance();
    let three = vec![destination(1, 5_000), destination(2, 3_000), destination(3, 2_000)];
    let after = replace(&g, &revenue_config(), three).unwrap();
    assert_eq!(after.active_count, 3);
    assert_eq!(after.config_version, 4);
    assert_eq!(after.destinations[1].address, [2; 32]);
    assert_eq!(after.destinations[1].allocation_bps, 3_000);
    assert_eq!(after.destinations[1].label, [b'l'; 32]);
    let one = replace(&g, &after, vec![destination(9, 10_000)]).unwrap();
    assert_eq!(one.active_count, 1);
    assert_eq!(one.destinations[1].address, [0; 32]);
    assert_eq!(one.destinations[2].allocation_bps, 0);
    assert_eq!(one.config_version, 5);
}

#[test]
fn destination_refusals() {
    let g = governance();
    let c = revenue_config();
    assert_eq!(replace(&g, &c, vec![]), ot(OtError::EmptyDestinationList));
    let eleven: Vec<BatchDestination> = (1..12u8).map(|i| destination(i, 909)).collect();
    assert_eq!(replace(&g, &c, eleven), ot(OtError::TooManyDestinations));
    let r = replace(&g, &c, vec![destination(0, 10_000)]);
    assert_eq!(r, ot(OtError::ZeroDestinationAddress));
    let r = replace(&g, &c, vec![destination(1, 10_000), destination(2, 0)]);
    assert_eq!(r, ot(OtError::InvalidAllocationBps));
    let r = replace(&g, &c, vec![destination(1, 10_001)]);
    assert_eq!(r, ot(OtError::InvalidAllocationBps));
    let r = replace(&g, &c, vec![destination(0x0F, 10_000)]);
    assert_eq!(r, ot(OtError::FeeDestinationCollision));
    let r = replace(&g, &c, vec![destination(1, 5_000), destination(1, 5_000)]);
    assert_eq!(r, ot(OtError::DuplicateDestination));
    let r = replace(&g, &c, vec![destination(1, 5_000), destination(2, 4_999)]);
    assert_eq!(r, ot(OtError::InvalidBpsTotal));
    let off = OtGovernance { is_active: false, ..g };
    let r = replace(&off, &c, vec![destination(1, 10_000)]);
    assert_eq!(r, ot(OtError::GovernanceInactive));
    let last = RevenueConfig { config_version: u64::MAX, ..c };
    let r = replace(&g, &last, vec![destination(1, 10_000)]);
    assert_eq!(r, ot(OtError::MathOverflow));
}

#[test]
fn destinations_are_read_from_bytes() {
    let mut data = vec![0xEE];
    data.extend_from_slice(&[5; 32]);
    data.extend_from_slice(&1_234u16.to_le_bytes());
    data.extend_from_slice(&[6; 32]);
    let (read, next) = BatchDestination::deserialize(&data, 1).unwrap();
    assert_eq!(read.address, [5; 32]);
    assert_eq!(read.allocation_bps, 1_234);
    assert_eq!(read.label, [6; 32]);
    assert_eq!(next, 67);
    let r = BatchDestination::deserialize(&data, 2);
    assert_eq!(r, Err(ProgramError::InvalidInstructionData));
    let r = BatchDestination::deserialize(&data, usize::MAX);
    assert_eq!(r, Err(ProgramError::InvalidInstructionData));
}

fn revenue() -> RevenueAccount {
    RevenueAccount {
        ot_mint: MINT,
        revenue_token_account: [3; 32],
        total_distributed: 10,
        distribution_count: 1,
        last_distribution_ts: 0,
        min_distribution_amount: MIN_DISTRIBUTION_AMOUNT,
        is_distributing: false,
        bump: 249,
    }
}

fn distribute_accounts(balance: u64) -> DistributeRevenue {
    DistributeRevenue {
        crank: account([1; 32]),
        ot_mint: account(MINT),
        revenue_account: account([2; 32]),
        revenue_token_account: token_account(3, USDC, [2; 32], balance),
        revenue_config: account([4; 32]),
        areal_fee_account: token_account(0x0F, USDC, [9; 32], 0),
        token_program: account(spl_token_program()),
    }
}

fn distribute(
    accounts: &DistributeRevenue,
    remaining: &Vec<AccountInfo>,
    revenue: &RevenueAccount,
    config: &RevenueConfig,
    now: i64,
) -> Result<DistributeOutcome, ProgramError> {
    let ctx = Context {
        accounts,
        remaining_accounts: remaining,
        program_id: &PROGRAM,
        now,
    };
    distribute_revenue::handler(&ctx, revenue, config)
}

fn three_way() -> RevenueConfig {
    let list = vec![destination(0x21, 3_333), destination(0x22, 3_333), destination(0x23, 3_334)];
    replace(&governance(), &revenue_config(), list).unwrap()
}

fn receivers() -> Vec<AccountInfo> {
    (0x21..0x24u8).map(|i| token_account(i, USDC, [8; 32], 0)).collect()
}

#[test]
fn revenue_is_distributed_to_the_last_unit() {
    let balance = 100_000_001u64;
    let o = distribute(&distribute_accounts(balance), &receivers(), &revenue(), &three_way(), NOW)
        .unwrap();
    let fee = o.fee.unwrap();
    assert_eq!(AREAL_PROTOCOL_FEE_BPS, 25);
    assert_eq!(fee.amount, 250_001);
    assert_eq!(fee.to, [0x0F; 32]);
    assert_eq!(fee.signed_by, SignedBy::Revenue { ot_mint: MINT, bump: 249 });
    let post = balance - fee.amount;
    assert_eq!(post, 99_750_000);
    let paid: Vec<u64> = o.payouts.iter().map(|p| p.unwrap().amount).collect();
    assert_eq!(paid, vec![33_246_675, 33_246_675, 33_256_650]);
    assert_eq!(fee.amount + paid.iter().sum::<u64>(), balance);
    assert_eq!(o.payouts[2].unwrap().to, [0x23; 32]);
    assert_eq!(o.payouts[2].unwrap().from, [3; 32]);
    assert_eq!(o.revenue.total_distributed, 10 + balance);
    assert_eq!(o.revenue.distribution_count, 2);
    assert_eq!(o.revenue.last_distribution_ts, NOW);
    assert!(!o.revenue.is_distributing);
    assert_eq!(o.event.protocol_fee, 250_001);
    assert_eq!(o.event.num_destinations, 3);
}

#[test]
fn distributions_wait_seven_days() {
    let a = distribute_accounts(100_000_000);
    let r = receivers();
    let c = three_way();
    let first = distribute(&a, &r, &revenue(), &c, NOW).unwrap();
    assert_eq!(DISTRIBUTION_COOLDOWN, 604_800);
    let early = distribute(&a, &r, &first.revenue, &c, NOW + 604_799);
    assert_eq!(early, ot(OtError::DistributionCooldown));
    assert!(distribute(&a, &r, &first.revenue, &c, NOW + 604_800).is_ok());
    assert!(distribute(&a, &r, &first.revenue, &c, i64::MAX).is_ok());
    let past = RevenueAccount { last_distribution_ts: i64::MIN, ..revenue() };
    assert!(distribute(&a, &r, &past, &c, i64::MAX).is_ok());
    let future = RevenueAccount { last_distribution_ts: i64::MAX, ..revenue() };
    assert_eq!(distribute(&a, &r, &future, &c, i64::MIN), ot(OtError::DistributionCooldown));
}

#[test]
fn distribution_refusals() {
    let good = distribute_accounts(100_000_000);
    let r = receivers();
    let v = revenue();
    let c = three_way();
    let moved = RevenueAccount { revenue_token_account: [9; 32], ..v };
    assert_eq!(distribute(&good, &r, &moved, &c, NOW), ot(OtError::InvalidTokenAccountOwner));
    let busy = RevenueAccount { is_distributing: true, ..v };
    assert_eq!(distribute(&good, &r, &busy, &c, NOW), ot(OtError::DistributionInProgress));
    let mut short = distribute_accounts(100_000_000);
    short.revenue_token_account.data.pop();
    assert_eq!(distribute(&short, &r, &v, &c, NOW), Err(ProgramError::InvalidAccountData));
    let mut foreign = distribute_accounts(100_000_000);
    foreign.revenue_token_account = token_account(3, USDC, [9; 32], 100_000_000);
    assert_eq!(distribute(&foreign, &r, &v, &c, NOW), ot(OtError::InvalidTokenAccountOwner));
    let little = distribute_accounts(99_999_999);
    assert_eq!(distribute(&little, &r, &v, &c, NOW), ot(OtError::BelowMinDistribution));
    assert_eq!(
        distribute(&good, &r, &v, &revenue_config(), NOW),
        ot(OtError::ActiveBpsSumMismatch)
    );
    let mut uneven = c;
    uneven.destinations[0].allocation_bps = 1;
    assert_eq!(distribute(&good, &r, &v, &uneven, NOW), ot(OtError::ActiveBpsSumMismatch));
    let mut fee = distribute_accounts(100_000_000);
    fee.areal_fee_account.address = [1; 32];
    assert_eq!(distribute(&fee, &r, &v, &c, NOW), ot(OtError::InvalidFeeAccount));
    let mut fee = distribute_accounts(100_000_000);
    fee.areal_fee_account.data.truncate(31);
    assert_eq!(distribute(&fee, &r, &v, &c, NOW), Err(ProgramError::InvalidAccountData));
    let mut fee = distribute_accounts(100_000_000);
    fee.areal_fee_account = token_account(0x0F, RWT, [9; 32], 0);
    assert_eq!(distribute(&fee, &r, &v, &c, NOW), ot(OtError::TokenMintMismatch));
    let mut two = receivers();
    two.pop();
    assert_eq!(distribute(&good, &two, &v, &c, NOW), ot(OtError::InsufficientRemainingAccounts));
    let mut other = receivers();
    other[1].address = [1; 32];
    assert_eq!(distribute(&good, &other, &v, &c, NOW), ot(OtError::DestinationAccountMismatch));
    let mut other = receivers();
    other[1].owner = [1; 32];
    assert_eq!(distribute(&good, &other, &v, &c, NOW), ot(OtError::InvalidTokenAccountOwner));
    let mut other = receivers();
    other[2].data.truncate(31);
    assert_eq!(distribute(&good, &other, &v, &c, NOW), ot(OtError::TokenMintMismatch));
    let full = RevenueAccount { total_distributed: u64::MAX, ..v };
    assert_eq!(distribute(&good, &r, &full, &c, NOW), ot(OtError::MathOverflow));
    let full = RevenueAccount { distribution_count: u64::MAX, ..v };
    assert_eq!(distribute(&good, &r, &full, &c, NOW), ot(OtError::MathOverflow));
}

#[test]
fn zero_shares_move_nothing() {
    let list = vec![destination(0x21, 1), destination(0x22, 1), destination(0x23, 9_998)];
    let c = replace(&governance(), &revenue_config(), list).unwrap();
    let v = RevenueAccount { min_distribution_amount: 0, ..revenue() };
    let o = distribute(&distribute_accounts(100), &receivers(), &v, &c, NOW).unwrap();
    assert_eq!(o.fee.unwrap().amount, 1);
    assert_eq!(o.payouts[0], None);
    assert_eq!(o.payouts[1], None);
    assert_eq!(o.payouts[2].unwrap().amount, 99);
    let o = distribute(&distribute_accounts(0), &receivers(), &v, &c, NOW).unwrap();
    assert_eq!(o.fee, None);
    assert_eq!(o.payouts[2], None);
}

fn spend_accounts() -> SpendTreasury {
    SpendTreasury {
        authority: account([1; 32]),
        ot_mint: account(MINT),
        ot_governance: account([2; 32]),
        ot_treasury: account([3; 32]),
        treasury_token_account: token_account(4, USDC, [3; 32], 50),
        destination_token_account: token_account(5, USDC, [6; 32], 0),
        token_mint: account(USDC),
        token_program: account(spl_token_program()),
    }
}

#[test]
fn treasury_spending() {
    let none = vec![];
    let treasury = OtTreasury { ot_mint: MINT, bump: 248 };
    let run = |accounts: &SpendTreasury, governance: &OtGovernance, amount: u64| {
        let ctx = Context {
            accounts,
            remaining_accounts: &none,
            program_id: &PROGRAM,
            now: NOW,
        };
        spend_treasury::handler(&ctx, governance, &treasury, amount)
    };
    let g = governance();
    let (transfer, event) = run(&spend_accounts(), &g, 30).unwrap();
    assert_eq!(transfer.amount, 30);
    assert_eq!(transfer.from, [4; 32]);
    assert_eq!(transfer.to, [5; 32]);
    assert_eq!(transfer.authority, [3; 32]);
    assert_eq!(transfer.signed_by, SignedBy::OtTreasury { ot_mint: MINT, bump: 248 });
    assert_eq!(event.destination, [5; 32]);
    assert_eq!(event.token_mint, USDC);
    assert_eq!(run(&spend_accounts(), &g, 0), ot(OtError::ZeroAmount));
    let off = OtGovernance { is_active: false, ..g };
    assert_eq!(run(&spend_accounts(), &off, 1), ot(OtError::GovernanceInactive));
    let mut a = spend_accounts();
    a.treasury_token_account.data.truncate(63);
    assert_eq!(run(&a, &g, 1), Err(ProgramError::InvalidAccountData));
    let mut a = spend_accounts();
    a.treasury_token_account = token_account(4, RWT, [3; 32], 50);
    assert_eq!(run(&a, &g, 1), ot(OtError::TokenMintMismatch));
    let mut a = spend_accounts();
    a.treasury_token_account = token_account(4, USDC, [9; 32], 50);
    assert_eq!(run(&a, &g, 1), ot(OtError::InvalidTokenAccountOwner));
    let mut a = spend_accounts();
    a.destination_token_account.data.truncate(31);
    assert_eq!(run(&a, &g, 1), Err(ProgramError::InvalidAccountData));
    let mut a = spend_accounts();
    a.destination_token_account = token_account(5, RWT, [6; 32], 0);
    assert_eq!(run(&a, &g, 1), ot(OtError::TokenMintMismatch));
}

fn claim_accounts() -> ClaimYdForTreasury {
    let (treasury, _) = find_address_2(b"ot_treasury", &MINT, &PROGRAM).unwrap();
    ClaimYdForTreasury {
        crank: account([1; 32]),
        ot_mint: account(MINT),
        ot_treasury: account(treasury),
        treasury_rwt_ata: token_account(4, RWT, treasury, 500),
        yd_config: account([5; 32]),
        yd_ot_mint: account([6; 32]),
        yd_distributor: account([7; 32]),
        yd_claim_status: account([8; 32]),
        yd_reward_vault: account([9; 32]),
        yd_program: account(yd_program_id()),
        token_program: account(spl_token_program()),
        system_program: account(system_program()),
    }
}

#[test]
fn treasury_claims() {
    let none = vec![];
    let run = |accounts: &ClaimYdForTreasury| {
        let ctx = Context {
            accounts,
            remaining_accounts: &none,
            program_id: &PROGRAM,
            now: NOW,
        };
        program::claim_yd_for_treasury(&ctx, &RWT, 77, &vec![[3; 32]])
    };
    let a = claim_accounts();
    let (plan, call) = run(&a).unwrap();
    assert_eq!(plan.before, 500);
    assert_eq!(plan.claim.ot_mint, [6; 32]);
    assert_eq!(plan.ot_mint, MINT);
    assert_eq!(call.data[8..16], 77u64.to_le_bytes());
    assert_eq!(call.accounts[0].address, a.ot_treasury.address);
    let (_, bump) = find_address_2(b"ot_treasury", &MINT, &PROGRAM).unwrap();
    assert_eq!(plan.claim.signed_by, SignedBy::OtTreasury { ot_mint: MINT, bump });
    let ata = |amount: u64| token_account(4, RWT, [0; 32], amount);
    let event = claim_yd_for_treasury::finish(&plan, &ata(540), NOW).unwrap().unwrap();
    assert_eq!(event.amount, 40);
    assert_eq!(event.ot_mint, MINT);
    assert_eq!(event.yd_ot_mint, [6; 32]);
    assert_eq!(claim_yd_for_treasury::finish(&plan, &ata(500), NOW), Ok(None));
    let r = claim_yd_for_treasury::finish(&plan, &ata(499), NOW);
    assert_eq!(r, ot(OtError::MathOverflow));
    let r = claim_yd_for_treasury::finish(&plan, &account([1; 32]), NOW);
    assert_eq!(r, Err(ProgramError::InvalidAccountData));
    let mut x = claim_accounts();
    x.yd_program.address = [1; 32];
    assert_eq!(run(&x), ot(OtError::InvalidYdProgram));
    let mut x = claim_accounts();
    x.treasury_rwt_ata.data.pop();
    assert_eq!(run(&x), Err(ProgramError::InvalidAccountData));
    let mut x = claim_accounts();
    x.treasury_rwt_ata.data[0] = 0;
    assert_eq!(run(&x), ot(OtError::InvalidTreasuryAtaMint));
    let mut x = claim_accounts();
    x.treasury_rwt_ata = token_account(4, RWT, [1; 32], 5);
    assert_eq!(run(&x), ot(OtError::InvalidTreasuryAtaOwner));
    let mut x = claim_accounts();
    x.ot_treasury.address = [1; 32];
    assert_eq!(run(&x), Err(ProgramError::AccountConstraint));
    let ctx = Context {
        accounts: &x,
        remaining_accounts: &none,
        program_id: &PROGRAM,
        now: NOW,
    };
    let r = claim_yd_for_treasury::handler(&ctx, &RWT, 77, &vec![]);
    assert_eq!(r, ot(OtError::InvalidOtTreasuryPda));
}

#[test]
fn metadata_call() {
    let accounts = || CreateOtMetadata {
        authority: account([1; 32]),
        ot_governance: account([2; 32]),
        ot_config: account([3; 32]),
        ot_mint: account(MINT),
        metadata_account: account([4; 32]),
        payer: account([5; 32]),
        mpl_token_metadata_program: account(mpl_token_metadata_program()),
        system_program: account(system_program()),
        rent: account(rent_sysvar()),
    };
    let none = vec![];
    let run = |accounts: &CreateOtMetadata, governance: &OtGovernance, n: u8, s: u8, u: u8| {
        let ctx = Context {
            accounts,
            remaining_accounts: &none,
            program_id: &PROGRAM,
            now: NOW,
        };
        create_ot_metadata::handler(
            &ctx,
            governance,
            &ot_config(),
            [b'n'; 32],
            n,
            [b's'; 10],
            s,
            [b'u'; 200],
            u,
        )
    };
    let g = governance();
    let (call, data) = run(&accounts(), &g, 2, 1, 3).unwrap();
    let want = vec![
        33, 2, 0, 0, 0, b'n', b'n', 1, 0, 0, 0, b's', 3, 0, 0, 0, b'u', b'u', b'u', 0, 0, 0, 0, 0,
        1, 0,
    ];
    assert_eq!(data, want);
    let flags: Vec<(bool, bool)> =
        call.metas().iter().map(|m| (m.is_writable, m.is_signer)).collect();
    let expected = vec![
        (true, false),
        (false, false),
        (false, true),
        (true, true),
        (false, false),
        (false, false),
        (false, false),
    ];
    assert_eq!(flags, expected);
    assert_eq!(call.metas()[4].address, [3; 32]);
    assert_eq!(call.signed_by, SignedBy::OtConfig { ot_mint: MINT, bump: 251 });
    let (_, longest) = run(&accounts(), &g, 32, 10, 200).unwrap();
    assert_eq!(longest.len(), 262);
    assert_eq!(run(&accounts(), &g, 33, 10, 200), ot(OtError::InvalidName));
    assert_eq!(run(&accounts(), &g, 32, 11, 200), ot(OtError::InvalidName));
    assert_eq!(run(&accounts(), &g, 32, 10, 201), ot(OtError::InvalidName));
    let off = OtGovernance { is_active: false, ..g };
    assert_eq!(run(&accounts(), &off, 1, 1, 1), ot(OtError::GovernanceInactive));
    let mut a = accounts();
    a.ot_mint.address = [9; 32];
    assert_eq!(run(&a, &g, 1, 1, 1), ot(OtError::TokenMintMismatch));
    let mut a = accounts();
    a.rent.address = [9; 32];
    assert_eq!(run(&a, &g, 1, 1, 1), ot(OtError::Unauthorized));
    let mut a = accounts();
    a.mpl_token_metadata_program.address = [9; 32];
    assert_eq!(run(&a, &g, 1, 1, 1), ot(OtError::Unauthorized));
    let text = |id: [u8; 32]| bs58::encode(&id).into_string();
    assert_eq!(text(mpl_token_metadata_program()), "metaqbxxUerdq28cj1RbAWkYQm3ybzjb6a8bt518x1s");
    assert_eq!(text(rent_sysvar()), "SysvarRent111111111111111111111111111111111");
}

#[test]
fn governance_changes_hands_in_two_steps() {
    let none = vec![];
    let propose_accounts = ProposeAuthorityTransfer {
        authority: account([1; 32]),
        ot_mint: account(MINT),
        ot_governance: account([2; 32]),
    };
    let ctx = Context {
        accounts: &propose_accounts,
        remaining_accounts: &none,
        program_id: &PROGRAM,
        now: NOW,
    };
    let off = OtGovernance { is_active: false, ..governance() };
    let propose = |to: [u8; 32]| authority_transfer::propose_handler(&ctx, &off, to);
    assert_eq!(propose([0; 32]), ot(OtError::ZeroAuthority));
    assert_eq!(propose([1; 32]), ot(OtError::AuthorityTransferToSelf));
    let (proposed, event) = propose([8; 32]).unwrap();
    assert_eq!(proposed.authority, [1; 32]);
    assert_eq!(event.pending_authority, [8; 32]);
    let accept = |signer: u8, governance: &OtGovernance| {
        let accounts = AcceptAuthorityTransfer {
            new_authority: account([signer; 32]),
            ot_mint: account(MINT),
            ot_governance: account([2; 32]),
        };
        let ctx = Context {
            accounts: &accounts,
            remaining_accounts: &none,
            program_id: &PROGRAM,
            now: NOW,
        };
        authority_transfer::accept_handler(&ctx, governance)
    };
    assert_eq!(accept(8, &governance()), ot(OtError::NoPendingAuthority));
    assert_eq!(accept(9, &proposed), ot(OtError::InvalidPendingAuthority));
    let (accepted, event) = accept(8, &proposed).unwrap();
    assert_eq!(accepted.authority, [8; 32]);
    assert_eq!(accepted.pending_authority, [0; 32]);
    assert!(!accepted.has_pending);
    assert_eq!(event.old_authority, [1; 32]);
    assert_eq!(accept(8, &accepted), ot(OtError::NoPendingAuthority));
}

#[test]
fn registration_hands_the_mint_over_last() {
    let a = init_accounts(mint_data(0, 6, Some([1; 32]), 0));
    let o = initialize(&a, [b'n'; 32], [b's'; 10], [9; 32]).unwrap();
    let want = vec![
        Step::Store(Record::OtConfig),
        Step::Store(Record::Revenue),
        Step::Store(Record::RevenueConfig),
        Step::Store(Record::Governance),
        Step::Store(Record::Treasury),
        Step::CreateAssociated(o.create_revenue_token_account),
        Step::SetMintAuthority(o.set_mint_authority),
        Step::Report(Report::Outcome),
    ];
    assert_eq!(o.steps(), want);
}

#[test]
fn distributions_are_marked_while_they_pay() {
    let a = distribute_accounts(100_000_001);
    let c = three_way();
    let o = distribute(&a, &receivers(), &revenue(), &c, NOW).unwrap();
    assert_eq!(o.in_progress, RevenueAccount { is_distributing: true, ..o.revenue });
    assert!(!o.revenue.is_distributing);
    let want = vec![
        Step::Store(Record::RevenueInProgress),
        Step::Transfer(o.fee.unwrap()),
        Step::Transfer(o.payouts[0].unwrap()),
        Step::Transfer(o.payouts[1].unwrap()),
        Step::Transfer(o.payouts[2].unwrap()),
        Step::Store(Record::Revenue),
        Step::Report(Report::Outcome),
    ];
    assert_eq!(o.steps(), want);
    let nested = distribute(&a, &receivers(), &o.in_progress, &c, NOW + 604_800);
    assert_eq!(nested, ot(OtError::DistributionInProgress));
    assert!(distribute(&a, &receivers(), &o.revenue, &c, NOW + 604_800).is_ok());
}

#[test]
fn destination_lists_have_limits() {
    assert!(RevenueConfig { active_count: 10, ..revenue_config() }.is_wf());
    assert!(!RevenueConfig { active_count: 11, ..revenue_config() }.is_wf());
}
