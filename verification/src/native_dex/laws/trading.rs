//! What a trade gives, costs and changes, in the terms of its inputs.
use vstd::prelude::*;

use crate::account::AccountInfo;
use crate::actions::{moved, TokenTransfer};
use crate::address::Address;
use crate::error::{DexError, ProgramError};
use crate::native_dex::amm::curve_output_bound;
use crate::native_dex::constants::DexParams;
use crate::native_dex::cpi::{vault_nav, MintRwt};
use crate::native_dex::events::{SwapExecuted, SwapRoutedToMint};
use crate::native_dex::instructions::swap::{
    bins_question, swap_checks, swap_result, BinLedgerReply, SwapAccountsView, SwapOutcome,
};
use crate::native_dex::state::{DexConfig, PoolState};
use crate::programs::rwt_engine_program_id;
use crate::seeds::{bins_seed, SignedBy};

verus! {

/// A trade is priced by the curve, or by the walk through the bins of a ladder pool, and pays three
/// fees on its reward-token amount: what a seller of reward tokens brings, what the pool gives a
/// buyer before fees. The providers' and the protocol's fee together are the pool's own rate of
/// that amount, the providers' part is the exchange's share of the two, and a pool with an
/// ownership-token treasury pays the treasury's rate besides. A seller pays the fees on top; a
/// buyer gets what they leave.
pub proof fn trade_prices_and_fees(
    params: DexParams,
    accounts: SwapAccountsView<'_>,
    remaining: Seq<AccountInfo>,
    program_id: Address,
    config: DexConfig,
    pool: PoolState,
    ledger: BinLedgerReply,
    amount_in: u64,
    min_amount_out: u64,
    a_to_b: bool,
    signed_by: SignedBy,
    now: i64,
)
    ensures
        swap_result(
            params,
            accounts,
            remaining,
            program_id,
            config,
            pool,
            ledger,
            amount_in,
            min_amount_out,
            a_to_b,
            signed_by,
            now,
        ) matches Ok(SwapOutcome::Traded(t)) ==> {
            let sells_rwt = (if a_to_b { pool.token_a_mint } else { pool.token_b_mint })
                == params.rwt_mint;
            let reserve_in: int = if a_to_b {
                pool.reserve_a as int
            } else {
                pool.reserve_b as int
            };
            let reserve_out: int = if a_to_b {
                pool.reserve_b as int
            } else {
                pool.reserve_a as int
            };
            let lp = t.event.fee_lp as int;
            let protocol = t.event.fee_protocol as int;
            let treasury = t.event.fee_ot_treasury as int;
            let fees = lp + protocol + treasury;
            let received = t.transfer_out.amount as int;
            let gross = received + if sells_rwt { 0 } else { fees };
            let base: int = if sells_rwt { amount_in as int } else { gross };
            &&& pool.pool_type != 1 ==> gross == reserve_out * amount_in / (reserve_in + amount_in)
            &&& pool.pool_type == 1 ==> (ledger.walk matches Ok(walk) && gross == walk.amount_out)
            &&& lp + protocol == base * pool.fee_bps / 10_000
            &&& lp == (lp + protocol) * config.lp_fee_share_bps / 10_000
            &&& treasury == if pool.has_ot_treasury {
                base * params.ot_treasury_fee_bps / 10_000
            } else {
                0
            }
            &&& t.transfer_in.amount == amount_in + if sells_rwt { fees } else { 0 }
            &&& moved(t.protocol_fee) == protocol
            &&& moved(t.ot_treasury_fee) == treasury
            &&& received > 0
            &&& received >= min_amount_out
        },
{
    let reserve_in: int = if a_to_b { pool.reserve_a as int } else { pool.reserve_b as int };
    let reserve_out: int = if a_to_b { pool.reserve_b as int } else { pool.reserve_a as int };
    if amount_in > 0 {
        crate::native_dex::amm::curve_output_bound(reserve_in, reserve_out, amount_in as int);
    }
}

/// What a trade changes of the pool: the brought amount joins the reserve on its side, what the
/// pool gives before fees leaves the other one, the providers' fee is spread over the shares of
/// the reward-token side, all three fees are counted, and the active bin is where a walk ended.
/// Nothing else of the pool changes.
pub proof fn trade_changes_the_pool(
    params: DexParams,
    accounts: SwapAccountsView<'_>,
    remaining: Seq<AccountInfo>,
    program_id: Address,
    config: DexConfig,
    pool: PoolState,
    ledger: BinLedgerReply,
    amount_in: u64,
    min_amount_out: u64,
    a_to_b: bool,
    signed_by: SignedBy,
    now: i64,
)
    ensures
        swap_result(
            params,
            accounts,
            remaining,
            program_id,
            config,
            pool,
            ledger,
            amount_in,
            min_amount_out,
            a_to_b,
            signed_by,
            now,
        ) matches Ok(SwapOutcome::Traded(t)) ==> {
            let sells_rwt = (if a_to_b { pool.token_a_mint } else { pool.token_b_mint })
                == params.rwt_mint;
            let lp = t.event.fee_lp as int;
            let fees = lp + t.event.fee_protocol + t.event.fee_ot_treasury;
            let gross = t.transfer_out.amount + if sells_rwt { 0 } else { fees };
            let rwt_is_a = a_to_b == sells_rwt;
            let per_share: int = if lp == 0 || pool.total_lp_shares == 0 {
                0
            } else {
                lp * 0x1_0000_0000_0000_0000 / pool.total_lp_shares as int
            };
            let ended: int = match ledger.walk {
                Ok(walk) if pool.pool_type == 1 => walk.active_bin_id as int,
                _ => pool.active_bin_id as int,
            };
            &&& t.pool.reserve_a == pool.reserve_a + if a_to_b { amount_in as int } else { -gross }
            &&& t.pool.reserve_b == pool.reserve_b + if a_to_b { -gross } else { amount_in as int }
            &&& t.pool.cumulative_fees_per_share_a == pool.cumulative_fees_per_share_a + (
            if rwt_is_a { per_share } else { 0 })
            &&& t.pool.cumulative_fees_per_share_b == pool.cumulative_fees_per_share_b + (
            if rwt_is_a { 0 } else { per_share })
            &&& t.pool.total_fees_accumulated == pool.total_fees_accumulated + fees
            &&& t.pool.active_bin_id == ended
            &&& t.pool == (PoolState {
                reserve_a: t.pool.reserve_a,
                reserve_b: t.pool.reserve_b,
                cumulative_fees_per_share_a: t.pool.cumulative_fees_per_share_a,
                cumulative_fees_per_share_b: t.pool.cumulative_fees_per_share_b,
                total_fees_accumulated: t.pool.total_fees_accumulated,
                active_bin_id: t.pool.active_bin_id,
                ..pool
            })
        },
{
}

/// Whose tokens a trade moves, and where to: the trader pays into the pool's vault of the brought
/// token and is paid out of the other one; both fees leave the vault that holds reward tokens, the
/// protocol's for the exchange's fee account, the treasury's for the pool's treasury. The pool
/// signs all that leaves it. The report names the same parties and amounts.
pub proof fn trade_moves_tokens(
    params: DexParams,
    accounts: SwapAccountsView<'_>,
    remaining: Seq<AccountInfo>,
    program_id: Address,
    config: DexConfig,
    pool: PoolState,
    ledger: BinLedgerReply,
    amount_in: u64,
    min_amount_out: u64,
    a_to_b: bool,
    signed_by: SignedBy,
    now: i64,
)
    ensures
        swap_result(
            params,
            accounts,
            remaining,
            program_id,
            config,
            pool,
            ledger,
            amount_in,
            min_amount_out,
            a_to_b,
            signed_by,
            now,
        ) matches Ok(SwapOutcome::Traded(t)) ==> {
            let sells_rwt = (if a_to_b { pool.token_a_mint } else { pool.token_b_mint })
                == params.rwt_mint;
            let of_pool = SignedBy::Pool {
                token_a_mint: pool.token_a_mint,
                token_b_mint: pool.token_b_mint,
                bump: pool.bump,
            };
            let rwt_vault = if sells_rwt == a_to_b { pool.vault_a } else { pool.vault_b };
            &&& t.transfer_in == (TokenTransfer {
                from: accounts.user_token_in.address,
                to: if a_to_b { pool.vault_a } else { pool.vault_b },
                authority: accounts.authority.address,
                amount: t.transfer_in.amount,
                signed_by,
            })
            &&& t.transfer_out == (TokenTransfer {
                from: if a_to_b { pool.vault_b } else { pool.vault_a },
                to: accounts.user_token_out.address,
                authority: accounts.pool_state.address,
                amount: t.transfer_out.amount,
                signed_by: of_pool,
            })
            &&& t.protocol_fee is Some <==> t.event.fee_protocol > 0
            &&& t.protocol_fee matches Some(p) ==> p == (TokenTransfer {
                from: rwt_vault,
                to: config.areal_fee_destination,
                authority: accounts.pool_state.address,
                amount: t.event.fee_protocol,
                signed_by: of_pool,
            })
            &&& t.ot_treasury_fee is Some <==> t.event.fee_ot_treasury > 0
            &&& t.ot_treasury_fee matches Some(p) ==> p == (TokenTransfer {
                from: rwt_vault,
                to: pool.ot_treasury_fee_destination,
                authority: accounts.pool_state.address,
                amount: t.event.fee_ot_treasury,
                signed_by: of_pool,
            })
            &&& t.event == (SwapExecuted {
                pool: accounts.pool_state.address,
                user: accounts.authority.address,
                a_to_b,
                amount_in,
                amount_out: t.transfer_out.amount,
                fee_lp: t.event.fee_lp,
                fee_protocol: t.event.fee_protocol,
                fee_ot_treasury: t.event.fee_ot_treasury,
                timestamp: now,
            })
        },
{
}

/// The exchange's base fee is for pools yet to be created: a change of it, or of who governs the
/// exchange, pauses pools or rebalances, changes no trade.
pub proof fn base_fee_leaves_trades_alone(
    params: DexParams,
    accounts: SwapAccountsView<'_>,
    remaining: Seq<AccountInfo>,
    program_id: Address,
    config: DexConfig,
    pool: PoolState,
    ledger: BinLedgerReply,
    amount_in: u64,
    min_amount_out: u64,
    a_to_b: bool,
    signed_by: SignedBy,
    now: i64,
    other: DexConfig,
)
    requires
        other.lp_fee_share_bps == config.lp_fee_share_bps,
        other.areal_fee_destination == config.areal_fee_destination,
        other.is_active == config.is_active,
    ensures
        swap_result(
            params,
            accounts,
            remaining,
            program_id,
            other,
            pool,
            ledger,
            amount_in,
            min_amount_out,
            a_to_b,
            signed_by,
            now,
        ) == swap_result(
            params,
            accounts,
            remaining,
            program_id,
            config,
            pool,
            ledger,
            amount_in,
            min_amount_out,
            a_to_b,
            signed_by,
            now,
        ),
{
}

/// When a trade against a constant-product pool is owed: the exchange and the pool run, both
/// reserves hold something, the vaults, the fee account and the treasury's account are the recorded
/// ones, the fee account takes reward tokens, the trader gets something and no less than asked for,
/// and no number outgrows its field.
pub proof fn curve_trade_is_owed(
    params: DexParams,
    accounts: SwapAccountsView<'_>,
    remaining: Seq<AccountInfo>,
    program_id: Address,
    config: DexConfig,
    pool: PoolState,
    ledger: BinLedgerReply,
    amount_in: u64,
    min_amount_out: u64,
    a_to_b: bool,
    signed_by: SignedBy,
    now: i64,
)
    requires
        pool.pool_type == 0,
    ensures
        ({
            let sells_rwt = (if a_to_b { pool.token_a_mint } else { pool.token_b_mint })
                == params.rwt_mint;
            let reserve_in: int = if a_to_b {
                pool.reserve_a as int
            } else {
                pool.reserve_b as int
            };
            let reserve_out: int = if a_to_b {
                pool.reserve_b as int
            } else {
                pool.reserve_a as int
            };
            let gross = reserve_out * amount_in / (reserve_in + amount_in);
            let base: int = if sells_rwt { amount_in as int } else { gross };
            let shared = base * pool.fee_bps / 10_000;
            let lp = shared * config.lp_fee_share_bps / 10_000;
            let treasury: int = if pool.has_ot_treasury {
                base * params.ot_treasury_fee_bps / 10_000
            } else {
                0
            };
            let received = gross - if sells_rwt { 0 } else { shared + treasury };
            let debit = amount_in + if sells_rwt { shared + treasury } else { 0 };
            let per_share: int = if lp == 0 || pool.total_lp_shares == 0 {
                0
            } else {
                lp * 0x1_0000_0000_0000_0000 / pool.total_lp_shares as int
            };
            let accumulator: int = if a_to_b == sells_rwt {
                pool.cumulative_fees_per_share_a as int
            } else {
                pool.cumulative_fees_per_share_b as int
            };
            let accepted = {
                &&& config.is_active
                &&& pool.is_active
                &&& amount_in > 0
                &&& pool.reserve_a > 0
                &&& pool.reserve_b > 0
                &&& accounts.vault_in.address == if a_to_b { pool.vault_a } else { pool.vault_b }
                &&& accounts.vault_out.address == if a_to_b { pool.vault_b } else { pool.vault_a }
                &&& accounts.areal_fee_account.address == config.areal_fee_destination
                &&& accounts.areal_fee_account.token_mint() == Ok::<Address, ProgramError>(
                    params.rwt_mint,
                )
                &&& pool.has_ot_treasury ==> remaining.len() > 0 && remaining[0].address
                    == pool.ot_treasury_fee_destination
                &&& received > 0
                &&& received >= min_amount_out
                &&& lp <= shared
                &&& shared <= u64::MAX
                &&& treasury <= u64::MAX
                &&& reserve_in + amount_in <= u64::MAX
                &&& accumulator + per_share <= u128::MAX
                &&& pool.total_fees_accumulated + shared + treasury <= u64::MAX
                &&& debit <= u64::MAX
            };
            swap_result(
                params,
                accounts,
                remaining,
                program_id,
                config,
                pool,
                ledger,
                amount_in,
                min_amount_out,
                a_to_b,
                signed_by,
                now,
            ) is Ok <==> accepted
        }),
{
    let reserve_in: int = if a_to_b { pool.reserve_a as int } else { pool.reserve_b as int };
    let reserve_out: int = if a_to_b { pool.reserve_b as int } else { pool.reserve_a as int };
    if reserve_in > 0 && reserve_out > 0 {
        crate::native_dex::amm::curve_output_bound(reserve_in, reserve_out, amount_in as int);
    }
}

/// When a sale of reward tokens to a ladder pool is owed, given what its bins answer: as for any
/// pool, with the pool's own bins among the passed accounts, readable, and walked to an end.
pub proof fn ladder_sale_is_owed(
    params: DexParams,
    accounts: SwapAccountsView<'_>,
    remaining: Seq<AccountInfo>,
    program_id: Address,
    config: DexConfig,
    pool: PoolState,
    ledger: BinLedgerReply,
    amount_in: u64,
    min_amount_out: u64,
    a_to_b: bool,
    signed_by: SignedBy,
    now: i64,
)
    requires
        pool.pool_type == 1,
        (if a_to_b { pool.token_a_mint } else { pool.token_b_mint }) == params.rwt_mint,
    ensures
        ({
            let reserve_in: int = if a_to_b {
                pool.reserve_a as int
            } else {
                pool.reserve_b as int
            };
            let reserve_out: int = if a_to_b {
                pool.reserve_b as int
            } else {
                pool.reserve_a as int
            };
            let shared = amount_in * pool.fee_bps / 10_000;
            let lp = shared * config.lp_fee_share_bps / 10_000;
            let treasury: int = if pool.has_ot_treasury {
                amount_in * params.ot_treasury_fee_bps / 10_000
            } else {
                0
            };
            let per_share: int = if lp == 0 || pool.total_lp_shares == 0 {
                0
            } else {
                lp * 0x1_0000_0000_0000_0000 / pool.total_lp_shares as int
            };
            let accumulator: int = if a_to_b {
                pool.cumulative_fees_per_share_a as int
            } else {
                pool.cumulative_fees_per_share_b as int
            };
            let place: int = if pool.has_ot_treasury { 1 } else { 0 };
            let accepted = {
                &&& config.is_active
                &&& pool.is_active
                &&& amount_in > 0
                &&& accounts.vault_in.address == if a_to_b { pool.vault_a } else { pool.vault_b }
                &&& accounts.vault_out.address == if a_to_b { pool.vault_b } else { pool.vault_a }
                &&& accounts.areal_fee_account.address == config.areal_fee_destination
                &&& accounts.areal_fee_account.token_mint() == Ok::<Address, ProgramError>(
                    params.rwt_mint,
                )
                &&& pool.has_ot_treasury ==> remaining.len() > 0 && remaining[0].address
                    == pool.ot_treasury_fee_destination
                &&& remaining.len() > place
                &&& remaining[place].derives_from_2(
                    bins_seed()@,
                    accounts.pool_state.address@,
                    program_id,
                )
                &&& ledger.unreadable is None
                &&& (ledger.walk matches Ok(walk) && walk.amount_out > 0 && walk.amount_out
                    >= min_amount_out && walk.amount_out <= reserve_out)
                &&& lp <= shared
                &&& shared <= u64::MAX
                &&& treasury <= u64::MAX
                &&& reserve_in + amount_in <= u64::MAX
                &&& accumulator + per_share <= u128::MAX
                &&& pool.total_fees_accumulated + shared + treasury <= u64::MAX
                &&& amount_in + shared + treasury <= u64::MAX
            };
            swap_result(
                params,
                accounts,
                remaining,
                program_id,
                config,
                pool,
                ledger,
                amount_in,
                min_amount_out,
                a_to_b,
                signed_by,
                now,
            ) is Ok <==> accepted
        }),
{
}

/// A purchase of reward tokens with dollars from a ladder pool: handed to the engine where no bin
/// has any to sell, or the best one sells them more than half a percent above net asset value, and
/// traded otherwise. What is handed over carries the trader's own accounts, amount and bound.
pub proof fn purchases_are_routed_by_price(
    params: DexParams,
    accounts: SwapAccountsView<'_>,
    remaining: Seq<AccountInfo>,
    program_id: Address,
    config: DexConfig,
    pool: PoolState,
    ledger: BinLedgerReply,
    amount_in: u64,
    min_amount_out: u64,
    a_to_b: bool,
    signed_by: SignedBy,
    now: i64,
)
    requires
        pool.pool_type == 1,
        (if a_to_b { pool.token_a_mint } else { pool.token_b_mint }) != params.rwt_mint,
        (if a_to_b { pool.token_a_mint } else { pool.token_b_mint }) == params.usdc_mint || (
        if a_to_b { pool.token_a_mint } else { pool.token_b_mint }) == params.usdy_mint,
        remaining.len() >= 6,
    ensures
        ({
            let nav = vault_nav(remaining[1], params);
            // One reward token at net asset value, in bin-price units; a half percent more is the
            // highest price that is traded.
            let dear = ledger.best_ask_price_q matches Some(price) && nav matches Ok(nav) && price
                > nav * 1_000_000 * 10_050 / 10_000;
            match swap_result(
                params,
                accounts,
                remaining,
                program_id,
                config,
                pool,
                ledger,
                amount_in,
                min_amount_out,
                a_to_b,
                signed_by,
                now,
            ) {
                Ok(SwapOutcome::RoutedToMint(m)) => {
                    &&& !ledger.has_organic_ask || dear
                    &&& m.mint == (MintRwt {
                        user: accounts.authority.address,
                        rwt_vault: remaining[1].address,
                        rwt_mint: remaining[2].address,
                        user_deposit: accounts.user_token_in.address,
                        user_rwt: accounts.user_token_out.address,
                        capital_acc: remaining[3].address,
                        dao_fee_account: remaining[4].address,
                        token_program: accounts.token_program.address,
                        rwt_engine_program: rwt_engine_program_id(),
                        amount_in,
                        min_rwt_out: min_amount_out,
                    })
                    &&& nav == Ok::<u64, ProgramError>(m.event.nav_at_route)
                    &&& ledger.best_ask_price_q == Some(m.event.best_ask_price_q)
                    &&& m.event == (SwapRoutedToMint {
                        pool: accounts.pool_state.address,
                        user: accounts.authority.address,
                        amount_in,
                        nav_at_route: m.event.nav_at_route,
                        best_ask_price_q: m.event.best_ask_price_q,
                        timestamp: now,
                    })
                    &&& accounts.user_token_out.token_mint() == Ok::<Address, ProgramError>(
                        params.rwt_mint,
                    )
                    &&& signed_by is Transaction
                },
                Ok(SwapOutcome::Traded(_)) => ledger.has_organic_ask && !dear && nav is Ok
                    && ledger.best_ask_price_q is Some,
                Err(_) => true,
            }
        }),
{
}

/// When a purchase is handed to the engine: with the checks of every trade met, the pool's bins
/// first among the passed accounts and readable, a priced bin, a readable vault of the engine's, a
/// receiving account for reward tokens, and the trader's own signature.
pub proof fn routed_purchase_is_owed(
    params: DexParams,
    accounts: SwapAccountsView<'_>,
    remaining: Seq<AccountInfo>,
    program_id: Address,
    config: DexConfig,
    pool: PoolState,
    ledger: BinLedgerReply,
    amount_in: u64,
    min_amount_out: u64,
    a_to_b: bool,
    signed_by: SignedBy,
    now: i64,
)
    requires
        pool.pool_type == 1,
        !pool.has_ot_treasury,
        (if a_to_b { pool.token_a_mint } else { pool.token_b_mint }) != params.rwt_mint,
        (if a_to_b { pool.token_a_mint } else { pool.token_b_mint }) == params.usdc_mint || (
        if a_to_b { pool.token_a_mint } else { pool.token_b_mint }) == params.usdy_mint,
        config.is_active,
        pool.is_active,
        amount_in > 0,
        accounts.vault_in.address == if a_to_b { pool.vault_a } else { pool.vault_b },
        accounts.vault_out.address == if a_to_b { pool.vault_b } else { pool.vault_a },
        accounts.areal_fee_account.address == config.areal_fee_destination,
        accounts.areal_fee_account.token_mint() == Ok::<Address, ProgramError>(params.rwt_mint),
        remaining.len() >= 6,
        remaining[0].derives_from_2(bins_seed()@, accounts.pool_state.address@, program_id),
        ledger.unreadable is None,
        ledger.best_ask_price_q is Some,
        vault_nav(remaining[1], params) is Ok,
        accounts.user_token_out.token_mint() == Ok::<Address, ProgramError>(params.rwt_mint),
        remaining[5].address == rwt_engine_program_id(),
        signed_by is Transaction,
        !ledger.has_organic_ask || ledger.best_ask_price_q->0 > vault_nav(remaining[1], params)->Ok_0
            * 1_000_000 * 10_050 / 10_000,
    ensures
        swap_result(
            params,
            accounts,
            remaining,
            program_id,
            config,
            pool,
            ledger,
            amount_in,
            min_amount_out,
            a_to_b,
            signed_by,
            now,
        ) matches Ok(SwapOutcome::RoutedToMint(_)),
{
}

/// What a trade asks of the price bins: the pool's own step and active bin, the next bin up for the
/// best ask, and a walk of the whole amount in the trade's direction. The bins' account follows the
/// treasury's where the pool has one. A constant-product pool asks nothing.
pub proof fn bins_are_asked_for_the_trade(pool: PoolState, amount_in: u64, a_to_b: bool)
    ensures
        bins_question(pool, amount_in, a_to_b) is Some <==> pool.pool_type == 1,
        bins_question(pool, amount_in, a_to_b) matches Some(q) ==> {
            &&& q.amount_in == amount_in
            &&& q.a_to_b == a_to_b
            &&& q.bin_step_bps == pool.bin_step_bps
            &&& q.active_bin_id == pool.active_bin_id
            &&& pool.active_bin_id < i32::MAX ==> q.next_bin_id == pool.active_bin_id + 1
            &&& pool.active_bin_id == i32::MAX ==> q.next_bin_id == pool.active_bin_id
            &&& q.bins_index == if pool.has_ot_treasury { 1int } else { 0int }
        },
{
}

/// When a purchase from a ladder pool is traded: the conditions of any trade hold; the bins are the
/// pool's and answer; a purchase with dollars comes with the six accounts of the engine's call, and
/// the bins sell at no more than half a percent above the net asset value; what the bins give
/// covers the fees on it and what was asked for; and every sum fits.
pub proof fn ladder_purchase_is_owed(
    params: DexParams,
    accounts: SwapAccountsView<'_>,
    remaining: Seq<AccountInfo>,
    program_id: Address,
    config: DexConfig,
    pool: PoolState,
    ledger: BinLedgerReply,
    amount_in: u64,
    min_amount_out: u64,
    a_to_b: bool,
    signed_by: SignedBy,
    now: i64,
)
    requires
        pool.pool_type == 1,
        (if a_to_b { pool.token_a_mint } else { pool.token_b_mint }) != params.rwt_mint,
    ensures
        ({
            let mint = if a_to_b { pool.token_a_mint } else { pool.token_b_mint };
            let reserve_in: int = if a_to_b {
                pool.reserve_a as int
            } else {
                pool.reserve_b as int
            };
            let reserve_out: int = if a_to_b {
                pool.reserve_b as int
            } else {
                pool.reserve_a as int
            };
            let gross = ledger.walk->Ok_0.amount_out as int;
            let shared = gross * pool.fee_bps / 10_000;
            let lp = shared * config.lp_fee_share_bps / 10_000;
            let treasury: int = if pool.has_ot_treasury {
                gross * params.ot_treasury_fee_bps / 10_000
            } else {
                0
            };
            let received = gross - shared - treasury;
            let per_share: int = if lp == 0 || pool.total_lp_shares == 0 {
                0
            } else {
                lp * 0x1_0000_0000_0000_0000 / pool.total_lp_shares as int
            };
            let accumulator: int = if a_to_b {
                pool.cumulative_fees_per_share_b as int
            } else {
                pool.cumulative_fees_per_share_a as int
            };
            let place: int = if pool.has_ot_treasury { 1 } else { 0 };
            let nav = vault_nav(remaining[1], params);
            let cheap = {
                &&& remaining[0].derives_from_2(
                    bins_seed()@,
                    accounts.pool_state.address@,
                    program_id,
                )
                &&& remaining.len() >= 6
                &&& ledger.has_organic_ask
                &&& ledger.best_ask_price_q is Some
                &&& nav is Ok
                &&& ledger.best_ask_price_q->0 <= nav->Ok_0 * 1_000_000 * 10_050 / 10_000
            };
            let accepted = {
                &&& config.is_active
                &&& pool.is_active
                &&& amount_in > 0
                &&& accounts.vault_in.address == if a_to_b { pool.vault_a } else { pool.vault_b }
                &&& accounts.vault_out.address == if a_to_b { pool.vault_b } else { pool.vault_a }
                &&& accounts.areal_fee_account.address == config.areal_fee_destination
                &&& accounts.areal_fee_account.token_mint() == Ok::<Address, ProgramError>(
                    params.rwt_mint,
                )
                &&& pool.has_ot_treasury ==> remaining.len() > 0 && remaining[0].address
                    == pool.ot_treasury_fee_destination
                &&& remaining.len() > place
                &&& remaining[place].derives_from_2(
                    bins_seed()@,
                    accounts.pool_state.address@,
                    program_id,
                )
                &&& ledger.unreadable is None
                &&& ledger.walk is Ok
                &&& mint == params.usdc_mint || mint == params.usdy_mint ==> cheap
                &&& received > 0
                &&& received >= min_amount_out
                &&& gross <= reserve_out
                &&& lp <= shared
                &&& shared <= u64::MAX
                &&& treasury <= u64::MAX
                &&& reserve_in + amount_in <= u64::MAX
                &&& accumulator + per_share <= u128::MAX
                &&& pool.total_fees_accumulated + shared + treasury <= u64::MAX
            };
            (swap_result(
                params,
                accounts,
                remaining,
                program_id,
                config,
                pool,
                ledger,
                amount_in,
                min_amount_out,
                a_to_b,
                signed_by,
                now,
            ) matches Ok(SwapOutcome::Traded(_))) <==> accepted
        }),
{
}

/// Why a trade whose accounts are right is refused: a ladder pool's bins are missing or not its
/// own, or tell so themselves; the bins have no price, or the accounts of the engine's call are
/// missing, for a purchase with dollars; nothing would be received; or a sum does not fit.
pub proof fn failed_trades_are_told(
    params: DexParams,
    accounts: SwapAccountsView<'_>,
    remaining: Seq<AccountInfo>,
    program_id: Address,
    config: DexConfig,
    pool: PoolState,
    ledger: BinLedgerReply,
    amount_in: u64,
    min_amount_out: u64,
    a_to_b: bool,
    signed_by: SignedBy,
    now: i64,
)
    requires
        swap_checks(params, accounts, remaining, config, pool, amount_in, a_to_b) is Ok,
    ensures
        ({
            let r = swap_result(
                params,
                accounts,
                remaining,
                program_id,
                config,
                pool,
                ledger,
                amount_in,
                min_amount_out,
                a_to_b,
                signed_by,
                now,
            );
            let told = |e: DexError| r == Err::<SwapOutcome, ProgramError>(ProgramError::Dex(e));
            let mint = if a_to_b { pool.token_a_mint } else { pool.token_b_mint };
            let sells_rwt = mint == params.rwt_mint;
            let ladder = pool.pool_type == 1;
            let dollars = ladder && !sells_rwt && (mint == params.usdc_mint || mint
                == params.usdy_mint);
            let place: int = if pool.has_ot_treasury && !dollars { 1 } else { 0 };
            let there = ladder && remaining.len() > place;
            let own = there && remaining[place].derives_from_2(
                bins_seed()@,
                accounts.pool_state.address@,
                program_id,
            );
            let answers = own && dollars && ledger.unreadable is None;
            let priced = answers && ledger.best_ask_price_q is Some;
            let listed = priced && remaining.len() >= 6;
            let nav = vault_nav(remaining[1], params);
            let dear = listed && nav is Ok && (!ledger.has_organic_ask
                || ledger.best_ask_price_q->0 > nav->Ok_0 * 1_000_000 * 10_050 / 10_000);
            let receiver = accounts.user_token_out.token_mint();
            let reserve_in: int = if a_to_b {
                pool.reserve_a as int
            } else {
                pool.reserve_b as int
            };
            let reserve_out: int = if a_to_b {
                pool.reserve_b as int
            } else {
                pool.reserve_a as int
            };
            let gross = reserve_out * amount_in / (reserve_in + amount_in);
            // The fees of a sale come first: where they do not fit, that is told.
            let fees_fit = sells_rwt ==> amount_in * pool.fee_bps / 10_000 <= u64::MAX && amount_in
                * params.ot_treasury_fee_bps / 10_000 <= u64::MAX && config.lp_fee_share_bps
                <= 10_000;
            &&& ladder && fees_fit && !there ==> told(DexError::InvalidBinRange)
            &&& ladder && fees_fit && there && !own ==> r == Err::<SwapOutcome, ProgramError>(
                ProgramError::InvalidSeeds,
            )
            &&& own && fees_fit && ledger.unreadable is Some ==> r == Err::<
                SwapOutcome,
                ProgramError,
            >(ledger.unreadable->0)
            &&& own && fees_fit && !dollars && ledger.unreadable is None && ledger.walk is Err
                ==> r == Err::<SwapOutcome, ProgramError>(ledger.walk->Err_0)
            &&& answers && !priced ==> told(DexError::PriceOverflow)
            &&& priced && !listed ==> told(DexError::MissingMintRouteAccounts)
            &&& listed && nav is Err ==> told(DexError::InvalidRwtVault)
            &&& dear && receiver is Ok && receiver->Ok_0 != params.rwt_mint ==> told(
                DexError::InvalidRwtMint,
            )
            &&& dear && receiver == Ok::<Address, ProgramError>(params.rwt_mint) && (
            remaining[5].address != rwt_engine_program_id() || signed_by !is Transaction) ==> told(
                DexError::InvalidRwtVault,
            )
            &&& !ladder && fees_fit && reserve_in + amount_in > 0 && gross == 0 ==> told(
                DexError::ZeroOutput,
            )
            &&& !ladder && r is Err ==> told(DexError::ZeroOutput) || told(
                DexError::SlippageExceeded,
            ) || told(DexError::MathOverflow)
            &&& !ladder && told(DexError::ZeroOutput) ==> gross - (if sells_rwt {
                0
            } else {
                gross * pool.fee_bps / 10_000 + (if pool.has_ot_treasury {
                    gross * params.ot_treasury_fee_bps / 10_000
                } else {
                    0
                })
            }) == 0
        }),
{
    let reserve_in: int = if a_to_b { pool.reserve_a as int } else { pool.reserve_b as int };
    let reserve_out: int = if a_to_b { pool.reserve_b as int } else { pool.reserve_a as int };
    curve_output_bound(reserve_in, reserve_out, amount_in as int);
    let gross = reserve_out * amount_in / (reserve_in + amount_in);
    if gross == 0 {
        let fee = pool.fee_bps as int;
        let part = config.lp_fee_share_bps as int;
        let treasury = params.ot_treasury_fee_bps as int;
        assert(gross * fee == 0 && gross * part == 0 && gross * treasury == 0) by (nonlinear_arith)
            requires
                gross == 0,
        ;
    }
    let total = amount_in * pool.fee_bps / 10_000;
    let share = config.lp_fee_share_bps as int;
    if share <= 10_000 {
        assert(total * share / 10_000 <= total) by (nonlinear_arith)
            requires
                0 <= total,
                0 <= share <= 10_000,
        ;
    }
}

/// A trade that would be accepted whatever it gives is accepted, with the same outcome, where it
/// gives as much as was asked for, and is refused for the shortfall otherwise.
pub proof fn asked_output_bounds_a_trade(
    params: DexParams,
    accounts: SwapAccountsView<'_>,
    remaining: Seq<AccountInfo>,
    program_id: Address,
    config: DexConfig,
    pool: PoolState,
    ledger: BinLedgerReply,
    amount_in: u64,
    min_amount_out: u64,
    a_to_b: bool,
    signed_by: SignedBy,
    now: i64,
)
    ensures
        swap_result(
            params,
            accounts,
            remaining,
            program_id,
            config,
            pool,
            ledger,
            amount_in,
            0,
            a_to_b,
            signed_by,
            now,
        ) matches Ok(SwapOutcome::Traded(o)) ==> {
            let r = swap_result(
                params,
                accounts,
                remaining,
                program_id,
                config,
                pool,
                ledger,
                amount_in,
                min_amount_out,
                a_to_b,
                signed_by,
                now,
            );
            &&& min_amount_out <= o.event.amount_out ==> r == Ok::<SwapOutcome, ProgramError>(
                SwapOutcome::Traded(o),
            )
            &&& min_amount_out > o.event.amount_out ==> r == Err::<SwapOutcome, ProgramError>(
                ProgramError::Dex(DexError::SlippageExceeded),
            )
        },
{
}

/// The refusals of every trade, each with the first condition that fails.
pub proof fn trade_refusals_are_told(
    params: DexParams,
    accounts: SwapAccountsView<'_>,
    remaining: Seq<AccountInfo>,
    program_id: Address,
    config: DexConfig,
    pool: PoolState,
    ledger: BinLedgerReply,
    amount_in: u64,
    min_amount_out: u64,
    a_to_b: bool,
    signed_by: SignedBy,
    now: i64,
)
    ensures
        ({
            let r = swap_result(
                params,
                accounts,
                remaining,
                program_id,
                config,
                pool,
                ledger,
                amount_in,
                min_amount_out,
                a_to_b,
                signed_by,
                now,
            );
            let told = |e: DexError| r == Err::<SwapOutcome, ProgramError>(ProgramError::Dex(e));
            let runs = config.is_active && pool.is_active;
            let deep = pool.pool_type != 0 || (pool.reserve_a > 0 && pool.reserve_b > 0);
            let vaults = accounts.vault_in.address == (if a_to_b { pool.vault_a } else {
                pool.vault_b
            }) && accounts.vault_out.address == (if a_to_b { pool.vault_b } else { pool.vault_a });
            let paid_to = accounts.areal_fee_account.address == config.areal_fee_destination;
            &&& !config.is_active ==> told(DexError::DexPaused)
            &&& config.is_active && !pool.is_active ==> told(DexError::PoolNotActive)
            &&& runs && amount_in == 0 ==> told(DexError::ZeroAmount)
            &&& runs && amount_in > 0 && !deep ==> told(DexError::EmptyReserves)
            &&& runs && amount_in > 0 && deep && !vaults ==> told(DexError::InvalidVault)
            &&& runs && amount_in > 0 && deep && vaults && !paid_to ==> told(
                DexError::InvalidTokenAccount,
            )
            &&& runs && amount_in > 0 && deep && vaults && paid_to && pool.has_ot_treasury
                && remaining.len() == 0 ==> told(DexError::MissingOtTreasuryAccount)
            &&& runs && amount_in > 0 && deep && vaults && paid_to && pool.has_ot_treasury
                && remaining.len() > 0 && remaining[0].address != pool.ot_treasury_fee_destination
                ==> told(DexError::OtTreasuryAccountMismatch)
            &&& runs && amount_in > 0 && deep && vaults && paid_to && (pool.has_ot_treasury
                ==> remaining.len() > 0 && remaining[0].address == pool.ot_treasury_fee_destination)
                && (accounts.areal_fee_account.token_mint() matches Ok(mint) && mint
                != params.rwt_mint) ==> told(DexError::InvalidProtocolFeeDestination)
            &&& pool.pool_type == 0 && told(DexError::SlippageExceeded) ==> min_amount_out > 1
        }),
{
}

} // verus!
