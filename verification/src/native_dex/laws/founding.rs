//! What a new exchange, pool or ladder starts with, in the terms of the inputs.
use vstd::prelude::*;

use crate::account::AccountInfo;
use crate::actions::{CreateAccount, InitializeTokenAccount};
use crate::address::{address_before, derived_address, zero_address, Address};
use crate::error::{DexError, ProgramError};
use crate::native_dex::constants::DexParams;
use crate::native_dex::instructions::create_concentrated_pool::{
    create_ladder_result, CreateConcentratedPool, CreateConcentratedPoolOutcome,
};
use crate::native_dex::instructions::create_pool::{
    create_pool_result, CreatePool, CreatePoolOutcome,
};
use crate::native_dex::instructions::initialize_dex::{initialize_bumps, new_config};
use crate::native_dex::instructions::initialize_nexus::initialize_nexus_result;
use crate::native_dex::state::{DexConfig, PoolCreators};
use crate::programs::{associated_token_program, ot_program_id, spl_token_program};
use crate::seeds::{
    bins_seed, dex_config_seed, liquidity_nexus_seed, ot_treasury_seed, pool_creators_seed,
    pool_seed, SignedBy,
};

verus! {

/// A new exchange belongs to its deployer, runs, has the deployment's fees, the named roles, and no
/// successor in waiting.
pub proof fn new_exchange_belongs_to_its_deployer(
    params: DexParams,
    deployer: Address,
    areal_fee_destination: Address,
    pause_authority: Address,
    rebalancer: Address,
    bump: u8,
)
    ensures
        ({
            let config = new_config(
                params,
                deployer,
                areal_fee_destination,
                pause_authority,
                rebalancer,
                bump,
            );
            &&& config.authority == deployer
            &&& config.pending_authority == zero_address()
            &&& !config.has_pending
            &&& config.pause_authority == pause_authority
            &&& config.base_fee_bps == params.default_base_fee_bps
            &&& config.lp_fee_share_bps == params.default_lp_fee_share_bps
            &&& config.areal_fee_destination == areal_fee_destination
            &&& config.rebalancer == rebalancer
            &&& config.is_active
            &&& config.bump == bump
        }),
{
}

/// When an exchange may be created: with a pause authority and a fee account that are not the zero
/// address, and two derivable accounts. The rebalancer may be anyone.
pub proof fn exchange_is_owed(
    program_id: Address,
    areal_fee_destination: Address,
    pause_authority: Address,
)
    ensures
        ({
            let r = initialize_bumps(program_id, areal_fee_destination, pause_authority);
            let config = derived_address(seq![dex_config_seed()@], program_id@);
            let creators = derived_address(seq![pool_creators_seed()@], program_id@);
            let named = pause_authority != zero_address() && areal_fee_destination
                != zero_address();
            &&& pause_authority == zero_address() ==> r == Err::<(u8, u8), ProgramError>(
                ProgramError::Dex(DexError::InvalidPauseAuthority),
            )
            &&& pause_authority != zero_address() && areal_fee_destination == zero_address() ==> r
                == Err::<(u8, u8), ProgramError>(ProgramError::Dex(DexError::InvalidFeeDestination))
            &&& named ==> (r is Ok <==> config is Some && creators is Some)
            &&& r matches Ok((config_bump, creators_bump)) ==> (config->0).1 == config_bump
                && (creators->0).1 == creators_bump
        }),
{
}

/// A new nexus runs, has the named manager, whoever that is, and no deposits.
pub proof fn new_nexus_is_empty(program_id: Address, manager: Address, now: i64)
    ensures
        ({
            let r = initialize_nexus_result(program_id, manager, now);
            let at = derived_address(seq![liquidity_nexus_seed()@], program_id@);
            &&& r is Ok <==> at is Some
            &&& r is Err ==> r->Err_0 == ProgramError::InvalidSeeds
            &&& r matches Ok((nexus, event)) ==> {
                &&& nexus.manager == manager
                &&& nexus.total_deposited_usdc == 0
                &&& nexus.total_deposited_rwt == 0
                &&& nexus.is_active
                &&& nexus.bump == (at->0).1
                &&& event.manager == manager
                &&& event.timestamp == now
            }
        }),
{
}

/// A new pool is empty, runs, pairs the two mints in the order given, has the exchange's present
/// base fee for good, the passed vaults under its own control, and a treasury fee account where two
/// accounts came along: the reward-token account of the treasury of the mint that is not the reward
/// token.
pub proof fn new_pool_is_empty(
    params: DexParams,
    accounts: CreatePool,
    remaining: Seq<AccountInfo>,
    program_id: Address,
    config: DexConfig,
    creators: PoolCreators,
    now: i64,
)
    ensures
        create_pool_result(
            params,
            accounts,
            remaining,
            program_id,
            config,
            creators,
            now,
        ) matches Ok(o) ==> {
            let p = o.pool;
            let key = accounts.pool_state.address;
            let mint_a = accounts.token_a_mint.address;
            let mint_b = accounts.token_b_mint.address;
            let other = if mint_a == params.rwt_mint { mint_b } else { mint_a };
            let treasury = derived_address(seq![ot_treasury_seed()@, other@], ot_program_id()@);
            &&& p.pool_type == 0
            &&& p.token_a_mint == mint_a
            &&& p.token_b_mint == mint_b
            &&& p.vault_a == accounts.vault_a.address
            &&& p.vault_b == accounts.vault_b.address
            &&& p.reserve_a == 0
            &&& p.reserve_b == 0
            &&& p.total_lp_shares == 0
            &&& p.total_fees_accumulated == 0
            &&& p.cumulative_fees_per_share_a == 0
            &&& p.cumulative_fees_per_share_b == 0
            &&& p.fee_bps == config.base_fee_bps
            &&& p.is_active
            &&& p.bin_step_bps == 0
            &&& p.active_bin_id == 0
            &&& p.left_anchor_bin == 0
            &&& p.permanent_tail_floor_bin == 0
            &&& p.last_rebalance_nav_bin == 0
            &&& p.active_zone_lower == 0
            &&& p.permanent_tail_offset_bps == 0
            &&& derived_address(seq![pool_seed()@, mint_a@, mint_b@], program_id@) == Some(
                (key, p.bump),
            )
            &&& p.has_ot_treasury <==> remaining.len() >= 2
            &&& !p.has_ot_treasury ==> p.ot_treasury_fee_destination == zero_address()
            &&& p.has_ot_treasury ==> {
                &&& treasury is Some
                &&& remaining[0].address == (treasury->0).0
                &&& remaining[0].owner == ot_program_id()
                &&& remaining[1].address == p.ot_treasury_fee_destination
                &&& derived_address(
                    seq![(treasury->0).0@, spl_token_program()@, params.rwt_mint@],
                    associated_token_program()@,
                ) matches Some(at)
                &&& at.0 == p.ot_treasury_fee_destination
            }
            &&& o.create_pool == (CreateAccount {
                payer: accounts.creator.address,
                account: key,
                space: 272,
                owner: program_id,
                signed_by: SignedBy::Pool {
                    token_a_mint: mint_a,
                    token_b_mint: mint_b,
                    bump: p.bump,
                },
            })
            &&& o.vaults.create_a == (CreateAccount {
                payer: accounts.creator.address,
                account: p.vault_a,
                space: 165,
                owner: spl_token_program(),
                signed_by: SignedBy::Transaction,
            })
            &&& o.vaults.create_b == (CreateAccount {
                payer: accounts.creator.address,
                account: p.vault_b,
                space: 165,
                owner: spl_token_program(),
                signed_by: SignedBy::Transaction,
            })
            &&& o.vaults.init_a == (InitializeTokenAccount {
                account: p.vault_a,
                mint: mint_a,
                owner: key,
            })
            &&& o.vaults.init_b == (InitializeTokenAccount {
                account: p.vault_b,
                mint: mint_b,
                owner: key,
            })
            &&& o.event.pool == key
            &&& o.event.token_a_mint == mint_a
            &&& o.event.token_b_mint == mint_b
            &&& o.event.pool_type == 0
            &&& o.event.creator == accounts.creator.address
            &&& o.event.ot_treasury_fee_destination == p.ot_treasury_fee_destination
            &&& o.event.timestamp == now
        },
{
}

/// When a pool without a treasury is owed, and how it is refused: to a listed creator of a running
/// exchange, for two different mints in the order of their bytes, one of them the reward token, at
/// the derived address.
pub proof fn pool_is_owed(
    params: DexParams,
    accounts: CreatePool,
    remaining: Seq<AccountInfo>,
    program_id: Address,
    config: DexConfig,
    creators: PoolCreators,
    now: i64,
)
    ensures
        ({
            let r = create_pool_result(
                params,
                accounts,
                remaining,
                program_id,
                config,
                creators,
                now,
            );
            let told = |e: DexError| r == Err::<CreatePoolOutcome, ProgramError>(
                ProgramError::Dex(e),
            );
            let mint_a = accounts.token_a_mint.address;
            let mint_b = accounts.token_b_mint.address;
            let listed = creators.creators@.take(creators.active_count as int).contains(
                accounts.creator.address,
            );
            let may = config.is_active && listed;
            let ordered = address_before(mint_a, mint_b);
            let paired = mint_a == params.rwt_mint || mint_b == params.rwt_mint;
            let found = derived_address(seq![pool_seed()@, mint_a@, mint_b@], program_id@);
            let placed = found matches Some(at) && at.0 == accounts.pool_state.address;
            let sound = may && mint_a != mint_b && ordered && paired;
            let other = if mint_a == params.rwt_mint { mint_b } else { mint_a };
            let treasury = derived_address(seq![ot_treasury_seed()@, other@], ot_program_id()@);
            let ata = derived_address(
                seq![(treasury->0).0@, spl_token_program()@, params.rwt_mint@],
                associated_token_program()@,
            );
            let proved = {
                &&& treasury is Some
                &&& remaining[0].address == (treasury->0).0
                &&& remaining[0].owner == ot_program_id()
                &&& ata is Some
                &&& remaining[1].address == (ata->0).0
            };
            &&& r is Ok <==> sound && placed && (remaining.len() >= 2 ==> proved)
            &&& told(DexError::DexPaused) <==> !config.is_active
            &&& told(DexError::CreatorNotWhitelisted) <==> config.is_active && !listed
            &&& told(DexError::IdenticalMints) <==> may && mint_a == mint_b
            &&& told(DexError::InvalidMintOrder) <==> may && mint_a != mint_b && !ordered
            &&& told(DexError::MissingRwtMint) <==> may && mint_a != mint_b && ordered && !paired
            &&& sound && !placed ==> r == Err::<CreatePoolOutcome, ProgramError>(
                ProgramError::InvalidSeeds,
            )
            &&& told(DexError::InvalidOtTreasuryDestination) ==> sound && placed && remaining.len()
                >= 2 && !proved
        }),
{
}

/// A new ladder pool is empty, runs, has the exchange's present base fee, no treasury, and its
/// anchors below the first active bin: the left one the tail's offset in whole steps below it, the
/// tail's floor 70 bins further down, where the bins start. The bid zone is empty. The bins are the
/// pool's own, share its step and active bin, and hold nothing.
pub proof fn new_ladder_is_empty(
    params: DexParams,
    accounts: CreateConcentratedPool,
    remaining: Seq<AccountInfo>,
    program_id: Address,
    config: DexConfig,
    creators: PoolCreators,
    bin_step_bps: u16,
    initial_active_bin: i32,
    permanent_tail_offset_bps: i32,
    now: i64,
)
    requires
        initial_active_bin > i32::MIN + 200,
    ensures
        create_ladder_result(
            params,
            accounts,
            remaining,
            program_id,
            config,
            creators,
            bin_step_bps,
            initial_active_bin,
            permanent_tail_offset_bps,
            now,
        ) matches Ok(o) ==> {
            let p = o.pool;
            let key = accounts.pool_state.address;
            let mint_a = accounts.token_a_mint.address;
            let mint_b = accounts.token_b_mint.address;
            &&& p.pool_type == 1
            &&& p.token_a_mint == mint_a
            &&& p.token_b_mint == mint_b
            &&& p.vault_a == accounts.vault_a.address
            &&& p.vault_b == accounts.vault_b.address
            &&& p.reserve_a == 0
            &&& p.reserve_b == 0
            &&& p.total_lp_shares == 0
            &&& p.total_fees_accumulated == 0
            &&& p.cumulative_fees_per_share_a == 0
            &&& p.cumulative_fees_per_share_b == 0
            &&& p.fee_bps == config.base_fee_bps
            &&& p.is_active
            &&& p.bin_step_bps == bin_step_bps
            &&& p.active_bin_id == initial_active_bin
            &&& !p.has_ot_treasury
            &&& p.ot_treasury_fee_destination == zero_address()
            &&& p.left_anchor_bin == initial_active_bin - permanent_tail_offset_bps as int
                / bin_step_bps as int
            &&& p.permanent_tail_floor_bin == p.left_anchor_bin - 70
            &&& p.last_rebalance_nav_bin == initial_active_bin
            &&& p.active_zone_lower == initial_active_bin
            &&& p.permanent_tail_offset_bps == permanent_tail_offset_bps
            &&& derived_address(seq![pool_seed()@, mint_a@, mint_b@], program_id@) == Some(
                (key, p.bump),
            )
            &&& o.bins.pool == key
            &&& o.bins.lower_bin_id == p.permanent_tail_floor_bin
            &&& o.bins.bin_step_bps == bin_step_bps
            &&& o.bins.active_bin_id == initial_active_bin
            &&& forall|i: int|
                0 <= i < 1000 ==> (#[trigger] o.bins.bins[i]).liquidity_a == 0
                    && o.bins.bins[i].liquidity_b == 0
            &&& derived_address(seq![bins_seed()@, key@], program_id@) == Some(
                (accounts.bin_array.address, o.bins.bump),
            )
            &&& o.create_pool == (CreateAccount {
                payer: accounts.creator.address,
                account: key,
                space: 272,
                owner: program_id,
                signed_by: SignedBy::Pool {
                    token_a_mint: mint_a,
                    token_b_mint: mint_b,
                    bump: p.bump,
                },
            })
            &&& o.create_bins == (CreateAccount {
                payer: accounts.creator.address,
                account: accounts.bin_array.address,
                space: 16_051,
                owner: program_id,
                signed_by: SignedBy::Bins { pool: key, bump: o.bins.bump },
            })
            &&& o.vaults.create_a == (CreateAccount {
                payer: accounts.creator.address,
                account: p.vault_a,
                space: 165,
                owner: spl_token_program(),
                signed_by: SignedBy::Transaction,
            })
            &&& o.vaults.create_b == (CreateAccount {
                payer: accounts.creator.address,
                account: p.vault_b,
                space: 165,
                owner: spl_token_program(),
                signed_by: SignedBy::Transaction,
            })
            &&& o.vaults.init_a == (InitializeTokenAccount {
                account: p.vault_a,
                mint: mint_a,
                owner: key,
            })
            &&& o.vaults.init_b == (InitializeTokenAccount {
                account: p.vault_b,
                mint: mint_b,
                owner: key,
            })
            &&& o.event.pool == key
            &&& o.event.token_a_mint == mint_a
            &&& o.event.token_b_mint == mint_b
            &&& o.event.pool_type == 1
            &&& o.event.creator == accounts.creator.address
            &&& o.event.ot_treasury_fee_destination == zero_address()
            &&& o.event.timestamp == now
        },
{
    if bin_step_bps > 0 && 0 < permanent_tail_offset_bps <= 100 {
        let n = permanent_tail_offset_bps as int;
        let d = bin_step_bps as int;
        assert(0 <= n / d <= n) by (nonlinear_arith)
            requires
                n > 0,
                d > 0,
        ;
    }
}

/// When a ladder pool is owed, and how it is refused: to a listed creator of a running exchange,
/// with a step and a first bin within the deployment's limits, a tail offset between 30 and 100
/// basis points, two different mints in the order of their bytes, one of them the reward token and
/// the other a dollar that the deployment pins, where it pins any; with nothing passed besides, and
/// both accounts at their derived addresses.
pub proof fn ladder_is_owed(
    params: DexParams,
    accounts: CreateConcentratedPool,
    remaining: Seq<AccountInfo>,
    program_id: Address,
    config: DexConfig,
    creators: PoolCreators,
    bin_step_bps: u16,
    initial_active_bin: i32,
    permanent_tail_offset_bps: i32,
    now: i64,
)
    ensures
        ({
            let r = create_ladder_result(
                params,
                accounts,
                remaining,
                program_id,
                config,
                creators,
                bin_step_bps,
                initial_active_bin,
                permanent_tail_offset_bps,
                now,
            );
            let told = |e: DexError| r == Err::<CreateConcentratedPoolOutcome, ProgramError>(
                ProgramError::Dex(e),
            );
            let mint_a = accounts.token_a_mint.address;
            let mint_b = accounts.token_b_mint.address;
            let other = if mint_a == params.rwt_mint { mint_b } else { mint_a };
            let stepped = 0 < bin_step_bps <= params.max_bin_step_bps;
            let near = initial_active_bin <= params.max_initial_active_bin && -initial_active_bin
                <= params.max_initial_active_bin;
            let tailed = 30 <= permanent_tail_offset_bps <= 100;
            let listed = creators.creators@.take(creators.active_count as int).contains(
                accounts.creator.address,
            );
            let ordered = address_before(mint_a, mint_b);
            let paired = mint_a == params.rwt_mint || mint_b == params.rwt_mint;
            let pins_usdc = params.usdc_mint != zero_address();
            let pins_usdy = params.usdy_mint != zero_address();
            let dollar = (!pins_usdc && !pins_usdy) || (pins_usdc && other == params.usdc_mint) || (
            pins_usdy && other == params.usdy_mint);
            let shaped = config.is_active && stepped && near && tailed;
            let sound = shaped && listed && mint_a != mint_b && ordered && paired;
            let pool_at = derived_address(seq![pool_seed()@, mint_a@, mint_b@], program_id@);
            let bins_at = derived_address(
                seq![bins_seed()@, accounts.pool_state.address@],
                program_id@,
            );
            let placed = (pool_at matches Some(at) && at.0 == accounts.pool_state.address) && (
            bins_at matches Some(at) && at.0 == accounts.bin_array.address);
            &&& r is Ok <==> sound && dollar && remaining.len() == 0 && placed
            &&& told(DexError::DexPaused) <==> !config.is_active
            &&& told(DexError::InvalidBinStep) <==> config.is_active && !stepped
            &&& told(DexError::InvalidBinRange) <==> config.is_active && stepped && !near
            &&& told(DexError::InvalidPermanentTailOffset) <==> config.is_active && stepped && near
                && !tailed
            &&& told(DexError::CreatorNotWhitelisted) <==> shaped && !listed
            &&& told(DexError::IdenticalMints) <==> shaped && listed && mint_a == mint_b
            &&& told(DexError::InvalidMintOrder) <==> shaped && listed && mint_a != mint_b
                && !ordered
            &&& told(DexError::MissingRwtMint) <==> shaped && listed && mint_a != mint_b && ordered
                && !paired
            &&& told(DexError::InvalidMintPair) <==> sound && !dollar
            &&& told(DexError::OtTreasuryNotAllowedOnMasterPool) <==> sound && dollar
                && remaining.len() > 0
        }),
{
}

} // verus!
