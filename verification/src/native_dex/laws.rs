//! What holds of the exchange as a whole.
pub mod acting;
pub mod admitting;
pub mod carrying;
pub mod compounding;
pub mod founding;
pub mod governing;
pub mod keeping;
pub mod providing;
pub mod rebalancing;
pub mod stewarding;
pub mod trading;
pub mod zapping;

use vstd::prelude::*;

use crate::account::AccountInfo;
use crate::actions::moved;
use crate::address::Address;
use crate::error::ProgramError;
use crate::native_dex::amm::{
    curve_output, curve_output_bound, deposit_never_dilutes, product_never_falls, remove_amount,
    remove_is_covered,
};
use crate::native_dex::constants::{DexParams, POOL_TYPE_CONCENTRATED, Q64};
use crate::native_dex::instructions::add_liquidity::{
    add_result, balanced_is_part_of_the_offer, AddLiquidityAccountsView,
};
use crate::native_dex::instructions::claim_lp_fees::{
    claim_result, claimable, pending_fees, ClaimLpFeesAccountsView,
};
use crate::native_dex::instructions::nexus_swap::{nexus_swap_result, NexusSwap};
use crate::native_dex::instructions::remove_liquidity::{remove_result, RemoveLiquidityAccountsView};
use crate::native_dex::instructions::swap::{
    fee_per_share, input_is_rwt, is_master_purchase, route_threshold, swap_result, BinLedgerReply,
    SwapAccountsView, SwapOutcome, SwapTrade,
};
use crate::native_dex::instructions::zap_liquidity::{
    zap_deposit, zap_plan, zap_result, ZapLiquidityAccountsView,
};
use crate::native_dex::state::{DexConfig, LiquidityNexus, LpPosition, PoolState};
use crate::seeds::SignedBy;

verus! {

/// What a trade adds to the vault that takes tokens in, fees that leave it deducted.
pub open spec fn vault_in_change(trade: SwapTrade, rwt_in: bool) -> int {
    trade.transfer_in.amount - if rwt_in {
        moved(trade.protocol_fee) + moved(trade.ot_treasury_fee)
    } else {
        0
    }
}

/// What a trade adds to the vault that pays out; negative.
pub open spec fn vault_out_change(trade: SwapTrade, rwt_in: bool) -> int {
    -(trade.transfer_out.amount + if rwt_in {
        0
    } else {
        moved(trade.protocol_fee) + moved(trade.ot_treasury_fee)
    })
}

/// A trade keeps the vaults and the reserves in step: each vault changes as its reserve does, and
/// the reward-token vault keeps the providers' fee besides, so accrued fees are always backed.
pub proof fn trade_is_backed(
    params: DexParams,
    accounts: SwapAccountsView<'_>,
    remaining: Seq<AccountInfo>,
    program_id: Address,
    config: DexConfig,
    pool: PoolState,
    ledger: BinLedgerReply,
    amount_in: u64,
    min_amount_out: u64,
    a_to_b: bool,
    signed_by: SignedBy,
    now: i64,
)
    ensures
        swap_result(
            params,
            accounts,
            remaining,
            program_id,
            config,
            pool,
            ledger,
            amount_in,
            min_amount_out,
            a_to_b,
            signed_by,
            now,
        ) matches Ok(SwapOutcome::Traded(t)) ==> {
            let rwt_in = input_is_rwt(params, pool, a_to_b);
            let kept: int = t.event.fee_lp as int;
            let change_a = t.pool.reserve_a - pool.reserve_a;
            let change_b = t.pool.reserve_b - pool.reserve_b;
            &&& vault_in_change(t, rwt_in) == (if a_to_b { change_a } else { change_b }) + if rwt_in {
                kept
            } else {
                0
            }
            &&& vault_out_change(t, rwt_in) == (if a_to_b { change_b } else { change_a })
                + if rwt_in {
                0
            } else {
                kept
            }
        },
{
}

/// A trader never receives less than asked for, and never nothing. A purchase that is handed to
/// the reward-token engine carries the same bound and the whole amount.
pub proof fn slippage_is_respected(
    params: DexParams,
    accounts: SwapAccountsView<'_>,
    remaining: Seq<AccountInfo>,
    program_id: Address,
    config: DexConfig,
    pool: PoolState,
    ledger: BinLedgerReply,
    amount_in: u64,
    min_amount_out: u64,
    a_to_b: bool,
    signed_by: SignedBy,
    now: i64,
)
    ensures
        match swap_result(
            params,
            accounts,
            remaining,
            program_id,
            config,
            pool,
            ledger,
            amount_in,
            min_amount_out,
            a_to_b,
            signed_by,
            now,
        ) {
            Ok(SwapOutcome::Traded(t)) => t.transfer_out.amount >= min_amount_out
                && t.transfer_out.amount > 0 && t.transfer_in.amount >= amount_in,
            Ok(SwapOutcome::RoutedToMint(m)) => m.mint.min_rwt_out == min_amount_out
                && m.mint.amount_in == amount_in,
            Err(_) => true,
        },
{
}

/// A trade never lowers the product of a constant-product pool's reserves.
pub proof fn trade_keeps_the_product(
    params: DexParams,
    accounts: SwapAccountsView<'_>,
    remaining: Seq<AccountInfo>,
    program_id: Address,
    config: DexConfig,
    pool: PoolState,
    ledger: BinLedgerReply,
    amount_in: u64,
    min_amount_out: u64,
    a_to_b: bool,
    signed_by: SignedBy,
    now: i64,
)
    requires
        pool.pool_type != POOL_TYPE_CONCENTRATED,
    ensures
        swap_result(
            params,
            accounts,
            remaining,
            program_id,
            config,
            pool,
            ledger,
            amount_in,
            min_amount_out,
            a_to_b,
            signed_by,
            now,
        ) matches Ok(SwapOutcome::Traded(t)) ==> t.pool.reserve_a * t.pool.reserve_b
            >= pool.reserve_a * pool.reserve_b,
{
    let result = swap_result(
        params,
        accounts,
        remaining,
        program_id,
        config,
        pool,
        ledger,
        amount_in,
        min_amount_out,
        a_to_b,
        signed_by,
        now,
    );
    if let Ok(SwapOutcome::Traded(t)) = result {
        let reserve_in = if a_to_b { pool.reserve_a as int } else { pool.reserve_b as int };
        let reserve_out = if a_to_b { pool.reserve_b as int } else { pool.reserve_a as int };
        let gross = curve_output(reserve_in, reserve_out, amount_in as int);
        curve_output_bound(reserve_in, reserve_out, amount_in as int);
        product_never_falls(reserve_in, reserve_out, amount_in as int);
        let after_in = if a_to_b { t.pool.reserve_a as int } else { t.pool.reserve_b as int };
        let after_out = if a_to_b { t.pool.reserve_b as int } else { t.pool.reserve_a as int };
        assert(after_in == reserve_in + amount_in);
        assert(after_out == reserve_out - gross);
        assert(after_in * after_out >= reserve_in * reserve_out);
        vstd::arithmetic::mul::lemma_mul_is_commutative(after_in, after_out);
        vstd::arithmetic::mul::lemma_mul_is_commutative(reserve_in, reserve_out);
    }
}

/// Fees accrue on the reward-token side alone, and never shrink: of a pool with the reward token
/// on one side, a trade leaves the other side's accumulator as it is. Shares, mints, vaults and
/// rates stay.
pub proof fn fees_accrue_on_one_side(
    params: DexParams,
    accounts: SwapAccountsView<'_>,
    remaining: Seq<AccountInfo>,
    program_id: Address,
    config: DexConfig,
    pool: PoolState,
    ledger: BinLedgerReply,
    amount_in: u64,
    min_amount_out: u64,
    a_to_b: bool,
    signed_by: SignedBy,
    now: i64,
)
    requires
        (pool.token_a_mint == params.rwt_mint) != (pool.token_b_mint == params.rwt_mint),
    ensures
        swap_result(
            params,
            accounts,
            remaining,
            program_id,
            config,
            pool,
            ledger,
            amount_in,
            min_amount_out,
            a_to_b,
            signed_by,
            now,
        ) matches Ok(SwapOutcome::Traded(t)) ==> {
            let gain = fee_per_share(t.event.fee_lp, pool.total_lp_shares);
            let rwt_a = pool.token_a_mint == params.rwt_mint;
            &&& gain >= 0
            &&& t.pool.cumulative_fees_per_share_a == pool.cumulative_fees_per_share_a + if rwt_a {
                gain
            } else {
                0
            }
            &&& t.pool.cumulative_fees_per_share_b == pool.cumulative_fees_per_share_b + if rwt_a {
                0
            } else {
                gain
            }
            &&& t.pool.total_lp_shares == pool.total_lp_shares
            &&& t.pool.total_fees_accumulated == pool.total_fees_accumulated + t.event.fee_lp
                + t.event.fee_protocol + t.event.fee_ot_treasury
            &&& t.pool.fee_bps == pool.fee_bps
            &&& t.pool.token_a_mint == pool.token_a_mint
            &&& t.pool.token_b_mint == pool.token_b_mint
            &&& t.pool.vault_a == pool.vault_a
            &&& t.pool.vault_b == pool.vault_b
        },
{
    assert forall|fee: u64| #[trigger] fee_per_share(fee, pool.total_lp_shares) >= 0 by {
        if pool.total_lp_shares > 0 {
            assert(fee * Q64 / pool.total_lp_shares as int >= 0) by (nonlinear_arith)
                requires
                    fee >= 0,
                    Q64 > 0,
                    pool.total_lp_shares > 0,
            ;
        }
    }
}

/// Only a purchase of reward tokens with dollars from a ladder pool, signed by the transaction
/// itself, is ever handed to the reward-token engine; and only where the pool has nothing to sell
/// or sells above the threshold.
pub proof fn routing_is_narrow(
    params: DexParams,
    accounts: SwapAccountsView<'_>,
    remaining: Seq<AccountInfo>,
    program_id: Address,
    config: DexConfig,
    pool: PoolState,
    ledger: BinLedgerReply,
    amount_in: u64,
    min_amount_out: u64,
    a_to_b: bool,
    signed_by: SignedBy,
    now: i64,
)
    ensures
        swap_result(
            params,
            accounts,
            remaining,
            program_id,
            config,
            pool,
            ledger,
            amount_in,
            min_amount_out,
            a_to_b,
            signed_by,
            now,
        ) matches Ok(SwapOutcome::RoutedToMint(m)) ==> {
            &&& is_master_purchase(params, pool, a_to_b)
            &&& !input_is_rwt(params, pool, a_to_b)
            &&& pool.pool_type == POOL_TYPE_CONCENTRATED
            &&& signed_by is Transaction
            &&& m.mint.user == accounts.authority.address
            &&& !ledger.has_organic_ask || m.event.best_ask_price_q > route_threshold(
                m.event.nav_at_route,
            )
        },
{
}

/// A trade of the nexus is never handed to the reward-token engine.
pub proof fn nexus_is_never_routed(
    params: DexParams,
    accounts: NexusSwap,
    remaining: Seq<AccountInfo>,
    program_id: Address,
    nexus: LiquidityNexus,
    config: DexConfig,
    pool: PoolState,
    ledger: BinLedgerReply,
    amount_in: u64,
    min_amount_out: u64,
    a_to_b: bool,
    now: i64,
)
    ensures
        !(nexus_swap_result(
            params,
            accounts,
            remaining,
            program_id,
            nexus,
            config,
            pool,
            ledger,
            amount_in,
            min_amount_out,
            a_to_b,
            now,
        ) matches Ok(SwapOutcome::RoutedToMint(_))),
{
}

/// A paused pool takes no trades and no deposits.
pub proof fn pause_stops_inflow(
    params: DexParams,
    swap: SwapAccountsView<'_>,
    add: AddLiquidityAccountsView<'_>,
    zap: ZapLiquidityAccountsView<'_>,
    remaining: Seq<AccountInfo>,
    program_id: Address,
    config: DexConfig,
    pool: PoolState,
    ledger: BinLedgerReply,
    existing: Option<LpPosition>,
    amount_a: u64,
    amount_b: u64,
    min: u64,
    a_to_b: bool,
    signed_by: SignedBy,
    now: i64,
)
    requires
        !pool.is_active || !config.is_active,
    ensures
        swap_result(
            params,
            swap,
            remaining,
            program_id,
            config,
            pool,
            ledger,
            amount_a,
            min,
            a_to_b,
            signed_by,
            now,
        ) is Err,
        add_result(
            params,
            add,
            program_id,
            config,
            pool,
            existing,
            amount_a,
            amount_b,
            min as u128,
            signed_by,
            now,
        ) is Err,
        zap_result(
            params,
            zap,
            remaining,
            program_id,
            config,
            pool,
            existing,
            amount_a,
            amount_b,
            min as u128,
            signed_by,
            now,
        ) is Err,
{
}

/// Pausing never locks providers in: a withdrawal and a payout of fees do what they would do if
/// the pool were not paused.
pub proof fn pause_keeps_the_exit_open(
    remove: RemoveLiquidityAccountsView<'_>,
    claim: ClaimLpFeesAccountsView<'_>,
    remaining: Seq<AccountInfo>,
    program_id: Address,
    pool: PoolState,
    position: LpPosition,
    shares_to_burn: u128,
    now: i64,
)
    ensures
        ({
            let paused = PoolState { is_active: false, ..pool };
            &&& claim_result(claim, paused, position, now) == claim_result(
                claim,
                pool,
                position,
                now,
            )
            &&& match (
                remove_result(remove, remaining, program_id, paused, position, shares_to_burn, now),
                remove_result(remove, remaining, program_id, pool, position, shares_to_burn, now),
            ) {
                (Ok(p), Ok(q)) => p.transfer_a == q.transfer_a && p.transfer_b == q.transfer_b
                    && p.claims == q.claims && p.position == q.position && p.close == q.close
                    && p.pool == (PoolState { is_active: false, ..q.pool }),
                (Err(d), Err(e)) => d == e,
                _ => false,
            }
        }),
{
}

/// Only the owner of a position is paid, and only from the position's own pool.
pub proof fn only_the_owner_is_paid(
    remove: RemoveLiquidityAccountsView<'_>,
    claim: ClaimLpFeesAccountsView<'_>,
    remaining: Seq<AccountInfo>,
    program_id: Address,
    pool: PoolState,
    position: LpPosition,
    shares_to_burn: u128,
    now: i64,
)
    ensures
        claim_result(claim, pool, position, now) is Ok ==> position.owner == claim.authority.address
            && position.pool == claim.pool_state.address,
        remove_result(remove, remaining, program_id, pool, position, shares_to_burn, now) is Ok
            ==> position.owner == remove.authority.address && position.pool
            == remove.pool_state.address && shares_to_burn <= position.shares,
{
}

/// A position that has just been settled has nothing to collect.
proof fn settled_has_nothing(pool: PoolState, position: LpPosition)
    requires
        position.fees_claimed_per_share_a == pool.cumulative_fees_per_share_a,
        position.fees_claimed_per_share_b == pool.cumulative_fees_per_share_b,
    ensures
        pending_fees(pool, position) == Ok::<(u64, u64), ProgramError>((0u64, 0u64)),
{
    assert(0 * position.shares == 0);
}

/// Fees are paid once: a second claim with no trade in between pays nothing.
pub proof fn second_claim_pays_nothing(
    accounts: ClaimLpFeesAccountsView<'_>,
    pool: PoolState,
    position: LpPosition,
    now: i64,
    later: i64,
)
    ensures
        claim_result(accounts, pool, position, now) matches Ok(first) ==> {
            &&& claim_result(accounts, pool, first.position, later) matches Ok(second)
            &&& second.transfer_a is None
            &&& second.transfer_b is None
            &&& second.position.shares == position.shares
        },
{
    if let Ok(first) = claim_result(accounts, pool, position, now) {
        settled_has_nothing(pool, first.position);
    }
}

/// A deposit earns nothing of the past: right after it the position has nothing to collect,
/// whether it is new or was there before.
pub proof fn deposit_earns_no_past_fees(
    params: DexParams,
    accounts: AddLiquidityAccountsView<'_>,
    program_id: Address,
    config: DexConfig,
    pool: PoolState,
    existing: Option<LpPosition>,
    amount_a: u64,
    amount_b: u64,
    min_shares: u128,
    signed_by: SignedBy,
    now: i64,
)
    ensures
        add_result(
            params,
            accounts,
            program_id,
            config,
            pool,
            existing,
            amount_a,
            amount_b,
            min_shares,
            signed_by,
            now,
        ) matches Ok(o) ==> pending_fees(o.pool, o.position) == Ok::<(u64, u64), ProgramError>(
            (0u64, 0u64),
        ),
{
    if let Ok(o) = add_result(
        params,
        accounts,
        program_id,
        config,
        pool,
        existing,
        amount_a,
        amount_b,
        min_shares,
        signed_by,
        now,
    ) {
        settled_has_nothing(o.pool, o.position);
    }
}

/// A withdrawal forfeits nothing: what the position had accrued on all its shares is paid along,
/// and the rest of the position starts afresh.
pub proof fn withdrawal_pays_accrued_fees(
    accounts: RemoveLiquidityAccountsView<'_>,
    remaining: Seq<AccountInfo>,
    program_id: Address,
    pool: PoolState,
    position: LpPosition,
    shares_to_burn: u128,
    now: i64,
)
    ensures
        remove_result(
            accounts,
            remaining,
            program_id,
            pool,
            position,
            shares_to_burn,
            now,
        ) matches Ok(o) ==> {
            &&& pending_fees(pool, position) matches Ok((claim_a, claim_b))
            &&& moved(o.claims.transfer_a) == claim_a
            &&& moved(o.claims.transfer_b) == claim_b
            &&& pending_fees(o.pool, o.position) == Ok::<(u64, u64), ProgramError>((0u64, 0u64))
            &&& o.position.shares == position.shares - shares_to_burn
            &&& o.pool.total_lp_shares == pool.total_lp_shares - shares_to_burn
            &&& o.close is Some <==> o.position.shares == 0
        },
{
    if let Ok(o) = remove_result(
        accounts,
        remaining,
        program_id,
        pool,
        position,
        shares_to_burn,
        now,
    ) {
        settled_has_nothing(o.pool, o.position);
    }
}

/// Sum of shares.
pub open spec fn total_of(shares: Seq<u128>) -> int
    decreases shares.len(),
{
    if shares.len() == 0 {
        0
    } else {
        total_of(shares.drop_last()) + shares.last()
    }
}

/// What positions with the given shares can collect of a growth of the fees per share.
pub open spec fn collectable(delta: int, shares: Seq<u128>) -> int
    decreases shares.len(),
{
    if shares.len() == 0 {
        0
    } else {
        collectable(delta, shares.drop_last()) + delta * shares.last() / Q64 as int
    }
}

/// The parts of a growth stay within it.
proof fn collectable_bound(delta: int, shares: Seq<u128>)
    requires
        delta >= 0,
    ensures
        collectable(delta, shares) * Q64 <= delta * total_of(shares),
        0 <= total_of(shares),
    decreases shares.len(),
{
    if shares.len() > 0 {
        collectable_bound(delta, shares.drop_last());
        let rest = total_of(shares.drop_last());
        let last = shares.last() as int;
        let part = (delta * last) / (Q64 as int);
        assert(delta * (rest + last) == delta * rest + delta * last) by (nonlinear_arith);
        assert(part * Q64 <= delta * last) by (nonlinear_arith)
            requires
                part == (delta * last) / (Q64 as int),
                Q64 > 0,
        ;
        let before = collectable(delta, shares.drop_last());
        assert((before + part) * Q64 == before * Q64 + part * Q64) by (nonlinear_arith);
    } else {
        assert(delta * 0 == 0);
    }
}

/// All positions together never collect more than the fee that was paid: of one fee, positions
/// whose shares are part of all shares collect at most the fee.
pub proof fn claims_never_exceed_the_fee(fee_lp: u64, total_lp_shares: u128, shares: Seq<u128>)
    requires
        total_of(shares) <= total_lp_shares,
    ensures
        collectable(fee_per_share(fee_lp, total_lp_shares), shares) <= fee_lp,
{
    let delta = fee_per_share(fee_lp, total_lp_shares);
    let t = total_lp_shares as int;
    if fee_lp == 0 || t == 0 {
        assert(delta == 0);
        collectable_bound(0, shares);
        assert(0 * total_of(shares) == 0);
        assert(collectable(0, shares) <= 0) by (nonlinear_arith)
            requires
                collectable(0, shares) * Q64 <= 0,
                Q64 > 0,
        ;
    } else {
        let p = fee_lp * Q64;
        assert(p >= 0) by (nonlinear_arith)
            requires
                p == fee_lp * Q64,
                fee_lp >= 0,
                Q64 > 0,
        ;
        assert(delta >= 0 && delta * t <= p) by (nonlinear_arith)
            requires
                delta == p / t,
                p >= 0,
                t > 0,
        ;
        collectable_bound(delta, shares);
        let s = total_of(shares);
        let c = collectable(delta, shares);
        assert(delta * s <= delta * t) by (nonlinear_arith)
            requires
                delta >= 0,
                s <= t,
        ;
        assert(c <= fee_lp) by (nonlinear_arith)
            requires
                c * Q64 <= fee_lp * Q64,
                Q64 > 0,
        ;
    }
}

/// What one position collects is its part of that sum.
pub proof fn claim_is_its_part(delta: int, shares: u128)
    requires
        0 <= delta,
        delta * shares <= u128::MAX,
    ensures
        claimable(delta, shares as int) matches Ok(amount) && amount == collectable(
            delta,
            seq![shares],
        ),
{
    assert(seq![shares].drop_last() =~= Seq::<u128>::empty());
    assert(collectable(delta, seq![shares].drop_last()) == 0);
    let p = delta * shares;
    assert(p >= 0) by (nonlinear_arith)
        requires
            p == delta * shares,
            delta >= 0,
            shares >= 0,
    ;
    assert(p / (Q64 as int) <= u64::MAX) by (nonlinear_arith)
        requires
            0 <= p <= u128::MAX,
            Q64 == 0x1_0000_0000_0000_0000,
    ;
    assert(0 <= p / (Q64 as int)) by (nonlinear_arith)
        requires
            0 <= p,
            Q64 > 0,
    ;
}

/// A deposit takes no more than was offered, and each reserve grows by exactly what comes in.
/// The new shares go to the position.
pub proof fn deposit_is_backed(
    params: DexParams,
    accounts: AddLiquidityAccountsView<'_>,
    program_id: Address,
    config: DexConfig,
    pool: PoolState,
    existing: Option<LpPosition>,
    amount_a: u64,
    amount_b: u64,
    min_shares: u128,
    signed_by: SignedBy,
    now: i64,
)
    ensures
        add_result(
            params,
            accounts,
            program_id,
            config,
            pool,
            existing,
            amount_a,
            amount_b,
            min_shares,
            signed_by,
            now,
        ) matches Ok(o) ==> {
            &&& moved(o.transfer_a) <= amount_a
            &&& moved(o.transfer_b) <= amount_b
            &&& o.pool.reserve_a == pool.reserve_a + moved(o.transfer_a)
            &&& o.pool.reserve_b == pool.reserve_b + moved(o.transfer_b)
            &&& o.event.shares_minted > 0
            &&& o.event.shares_minted >= min_shares
            &&& o.position.shares == o.event.shares_minted + match existing {
                Some(position) => position.shares,
                None => 0,
            }
        },
{
    balanced_is_part_of_the_offer(amount_a, amount_b, pool.reserve_a, pool.reserve_b);
}

/// A deposit after the first never lowers what a share is worth on either side.
pub proof fn deposit_keeps_share_value(
    params: DexParams,
    accounts: AddLiquidityAccountsView<'_>,
    program_id: Address,
    config: DexConfig,
    pool: PoolState,
    existing: Option<LpPosition>,
    amount_a: u64,
    amount_b: u64,
    min_shares: u128,
    signed_by: SignedBy,
    now: i64,
)
    requires
        pool.total_lp_shares > 0,
    ensures
        add_result(
            params,
            accounts,
            program_id,
            config,
            pool,
            existing,
            amount_a,
            amount_b,
            min_shares,
            signed_by,
            now,
        ) matches Ok(o) ==> {
            &&& o.pool.reserve_a * pool.total_lp_shares >= pool.reserve_a * o.pool.total_lp_shares
            &&& o.pool.reserve_b * pool.total_lp_shares >= pool.reserve_b * o.pool.total_lp_shares
        },
{
    if let Ok(o) = add_result(
        params,
        accounts,
        program_id,
        config,
        pool,
        existing,
        amount_a,
        amount_b,
        min_shares,
        signed_by,
        now,
    ) {
        let t = pool.total_lp_shares as int;
        let shares = o.event.shares_minted as int;
        deposit_never_dilutes(
            o.event.amount_a,
            o.event.amount_b,
            pool.reserve_a,
            pool.reserve_b,
            pool.total_lp_shares,
            params.min_liquidity,
        );
        share_value_after_deposit(pool.reserve_a as int, o.event.amount_a as int, t, shares);
        share_value_after_deposit(pool.reserve_b as int, o.event.amount_b as int, t, shares);
    }
}

/// Shares that claim no more than was deposited leave the value of a share as it was, or raise it.
proof fn share_value_after_deposit(reserve: int, deposit: int, total: int, shares: int)
    requires
        shares * reserve <= deposit * total,
    ensures
        (reserve + deposit) * total >= reserve * (total + shares),
{
    assert((reserve + deposit) * total == reserve * total + deposit * total) by (nonlinear_arith);
    assert(reserve * (total + shares) == reserve * total + shares * reserve) by (nonlinear_arith);
}

/// A payout of no more than the burned shares claim leaves the value of a share as it was, or
/// raises it.
proof fn share_value_after_withdrawal(reserve: int, payout: int, total: int, burned: int)
    requires
        payout * total <= burned * reserve,
    ensures
        (reserve - payout) * total >= reserve * (total - burned),
{
    assert((reserve - payout) * total == reserve * total - payout * total) by (nonlinear_arith);
    assert(reserve * (total - burned) == reserve * total - burned * reserve) by (nonlinear_arith);
}

/// A withdrawal never lowers what the remaining shares are worth on either side, and each reserve
/// falls by exactly what goes out besides accrued fees.
pub proof fn withdrawal_keeps_share_value(
    accounts: RemoveLiquidityAccountsView<'_>,
    remaining: Seq<AccountInfo>,
    program_id: Address,
    pool: PoolState,
    position: LpPosition,
    shares_to_burn: u128,
    now: i64,
)
    ensures
        remove_result(
            accounts,
            remaining,
            program_id,
            pool,
            position,
            shares_to_burn,
            now,
        ) matches Ok(o) ==> {
            &&& o.pool.reserve_a == pool.reserve_a - moved(o.transfer_a)
            &&& o.pool.reserve_b == pool.reserve_b - moved(o.transfer_b)
            &&& o.pool.reserve_a * pool.total_lp_shares >= pool.reserve_a * o.pool.total_lp_shares
            &&& o.pool.reserve_b * pool.total_lp_shares >= pool.reserve_b * o.pool.total_lp_shares
        },
{
    if let Ok(o) = remove_result(
        accounts,
        remaining,
        program_id,
        pool,
        position,
        shares_to_burn,
        now,
    ) {
        let t = pool.total_lp_shares as int;
        let burned = shares_to_burn as int;
        remove_is_covered(shares_to_burn, pool.reserve_a, pool.total_lp_shares);
        remove_is_covered(shares_to_burn, pool.reserve_b, pool.total_lp_shares);
        share_value_after_withdrawal(pool.reserve_a as int, moved(o.transfer_a), t, burned);
        share_value_after_withdrawal(pool.reserve_b as int, moved(o.transfer_b), t, burned);
    }
}

/// Depositing and withdrawing at once never pays: the shares of a deposit are worth no more than
/// it put in. A pool without shares but with reserves is left out.
pub proof fn round_trip_never_profits(
    params: DexParams,
    accounts: AddLiquidityAccountsView<'_>,
    program_id: Address,
    config: DexConfig,
    pool: PoolState,
    existing: Option<LpPosition>,
    amount_a: u64,
    amount_b: u64,
    min_shares: u128,
    signed_by: SignedBy,
    now: i64,
)
    requires
        pool.total_lp_shares == 0 ==> pool.reserve_a == 0 && pool.reserve_b == 0,
    ensures
        add_result(
            params,
            accounts,
            program_id,
            config,
            pool,
            existing,
            amount_a,
            amount_b,
            min_shares,
            signed_by,
            now,
        ) matches Ok(o) ==> {
            let shares = o.event.shares_minted;
            &&& remove_amount(shares, o.pool.reserve_a, o.pool.total_lp_shares) matches Some(back)
                ==> back <= moved(o.transfer_a)
            &&& remove_amount(shares, o.pool.reserve_b, o.pool.total_lp_shares) matches Some(back)
                ==> back <= moved(o.transfer_b)
        },
{
    if let Ok(o) = add_result(
        params,
        accounts,
        program_id,
        config,
        pool,
        existing,
        amount_a,
        amount_b,
        min_shares,
        signed_by,
        now,
    ) {
        let shares = o.event.shares_minted;
        if pool.total_lp_shares == 0 {
            remove_is_covered(shares, o.pool.reserve_a, o.pool.total_lp_shares);
            remove_is_covered(shares, o.pool.reserve_b, o.pool.total_lp_shares);
        } else {
            deposit_never_dilutes(
                o.event.amount_a,
                o.event.amount_b,
                pool.reserve_a,
                pool.reserve_b,
                pool.total_lp_shares,
                params.min_liquidity,
            );
            shares_are_worth_the_deposit(
                pool.reserve_a as int,
                o.event.amount_a as int,
                pool.total_lp_shares as int,
                shares as int,
            );
            shares_are_worth_the_deposit(
                pool.reserve_b as int,
                o.event.amount_b as int,
                pool.total_lp_shares as int,
                shares as int,
            );
        }
    }
}

/// Shares that claim no more than was deposited pay back no more than was deposited.
proof fn shares_are_worth_the_deposit(reserve: int, deposit: int, total: int, shares: int)
    requires
        shares * reserve <= deposit * total,
        total > 0,
        shares >= 0,
    ensures
        shares * (reserve + deposit) / (total + shares) <= deposit,
{
    let t = total + shares;
    let p = shares * (reserve + deposit);
    assert(p == shares * reserve + shares * deposit) by (nonlinear_arith)
        requires
            p == shares * (reserve + deposit),
    ;
    assert(deposit * t == deposit * total + shares * deposit) by (nonlinear_arith)
        requires
            t == total + shares,
    ;
    assert(p / t <= deposit) by (nonlinear_arith)
        requires
            p <= deposit * t,
            t > 0,
    ;
}

/// A zap keeps the pool backed: of a pool with the reward token on one side, that side's vault
/// gains exactly what its reserve gains and the providers' fee, and the other side's vault at
/// least what its reserve gains. Payouts of fees accrued before are not counted.
#[verifier::rlimit(40)]
pub proof fn zap_is_backed(
    params: DexParams,
    accounts: ZapLiquidityAccountsView<'_>,
    remaining: Seq<AccountInfo>,
    program_id: Address,
    config: DexConfig,
    pool: PoolState,
    existing: Option<LpPosition>,
    amount_a: u64,
    amount_b: u64,
    min_shares: u128,
    signed_by: SignedBy,
    now: i64,
)
    requires
        (pool.token_a_mint == params.rwt_mint) != (pool.token_b_mint == params.rwt_mint),
    ensures
        zap_result(
            params,
            accounts,
            remaining,
            program_id,
            config,
            pool,
            existing,
            amount_a,
            amount_b,
            min_shares,
            signed_by,
            now,
        ) matches Ok(o) ==> {
            let rwt_a = pool.token_a_mint == params.rwt_mint;
            let paid = moved(o.protocol_fee) + moved(o.ot_treasury_fee);
            let kept = o.pool.total_fees_accumulated - pool.total_fees_accumulated - paid;
            let gain_a = moved(o.transfer_a) - if rwt_a { paid } else { 0 };
            let gain_b = moved(o.transfer_b) - if rwt_a { 0 } else { paid };
            let change_a = o.pool.reserve_a - pool.reserve_a;
            let change_b = o.pool.reserve_b - pool.reserve_b;
            &&& kept >= 0
            &&& rwt_a ==> gain_a == change_a + kept && gain_b >= change_b
            &&& !rwt_a ==> gain_b == change_b + kept && gain_a >= change_a
            &&& o.event.shares_minted >= min_shares
            &&& o.event.shares_minted > 0
        },
{
    if let Ok(plan) = zap_plan(params, config, pool, amount_a, amount_b) {
        plan_is_backed(params, config, pool, amount_a, amount_b);
        balanced_is_part_of_the_offer(
            plan.final_a,
            plan.final_b,
            plan.pool.reserve_a,
            plan.pool.reserve_b,
        );
        if let Ok((deposit_a, deposit_b)) = zap_deposit(plan) {
            assert(deposit_a <= plan.final_a && deposit_b <= plan.final_b);
        }
    }
}

/// The trade inside a zap moves what is left to deposit and the reserves by the same amounts, the
/// fees deducted, and credits the providers' fee to the reward-token side.
pub proof fn plan_is_backed(
    params: DexParams,
    config: DexConfig,
    pool: PoolState,
    amount_a: u64,
    amount_b: u64,
)
    requires
        (pool.token_a_mint == params.rwt_mint) != (pool.token_b_mint == params.rwt_mint),
    ensures
        zap_plan(params, config, pool, amount_a, amount_b) matches Ok(plan) ==> {
            let rwt_a = pool.token_a_mint == params.rwt_mint;
            let paid = plan.fee_protocol + plan.fee_ot_treasury;
            &&& plan.pool.token_a_mint == pool.token_a_mint
            &&& plan.pool.total_fees_accumulated == pool.total_fees_accumulated
            &&& plan.pool.total_lp_shares == pool.total_lp_shares
            &&& plan.pool.cumulative_fees_per_share_a == pool.cumulative_fees_per_share_a + (
            if rwt_a {
                fee_per_share(plan.fee_lp, pool.total_lp_shares)
            } else {
                0
            })
            &&& plan.pool.cumulative_fees_per_share_b == pool.cumulative_fees_per_share_b + (
            if rwt_a {
                0
            } else {
                fee_per_share(plan.fee_lp, pool.total_lp_shares)
            })
            &&& amount_a + plan.extra_a - (if rwt_a { paid } else { 0 }) == plan.final_a
                + plan.pool.reserve_a - pool.reserve_a + (if rwt_a { plan.fee_lp as int } else { 0 })
            &&& amount_b + plan.extra_b - (if rwt_a { 0 } else { paid }) == plan.final_b
                + plan.pool.reserve_b - pool.reserve_b + (if rwt_a { 0 } else { plan.fee_lp as int })
        },
{
}

/// A zap earns nothing of the past: right after it the position has nothing to collect.
pub proof fn zap_earns_no_past_fees(
    params: DexParams,
    accounts: ZapLiquidityAccountsView<'_>,
    remaining: Seq<AccountInfo>,
    program_id: Address,
    config: DexConfig,
    pool: PoolState,
    existing: Option<LpPosition>,
    amount_a: u64,
    amount_b: u64,
    min_shares: u128,
    signed_by: SignedBy,
    now: i64,
)
    ensures
        zap_result(
            params,
            accounts,
            remaining,
            program_id,
            config,
            pool,
            existing,
            amount_a,
            amount_b,
            min_shares,
            signed_by,
            now,
        ) matches Ok(o) ==> pending_fees(o.pool, o.position) == Ok::<(u64, u64), ProgramError>(
            (0u64, 0u64),
        ),
{
    if let Ok(o) = zap_result(
        params,
        accounts,
        remaining,
        program_id,
        config,
        pool,
        existing,
        amount_a,
        amount_b,
        min_shares,
        signed_by,
        now,
    ) {
        settled_has_nothing(o.pool, o.position);
    }
}

} // verus!
