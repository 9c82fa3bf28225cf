//! Every pool can always pay: what its vaults hold covers its reserves and all accrued fees.
//!
//! Amounts owed are counted in `Q64` parts of a unit, as the accumulators count them.
use vstd::prelude::*;

use crate::account::AccountInfo;
use crate::actions::moved;
use crate::address::Address;
use crate::native_dex::constants::{DexParams, Q64};
use crate::error::ProgramError;
use crate::native_dex::instructions::add_liquidity::{
    add_result, balanced_is_part_of_the_offer, AddLiquidityAccountsView,
};
use crate::native_dex::instructions::claim_lp_fees::{
    claim_result, claimable, pending_fees, ClaimLpFeesAccountsView,
};
use crate::native_dex::instructions::compound_yield::{compounded, CompoundPlan};
use crate::native_dex::instructions::grow_liquidity::{grow_result, GrowLiquidity};
use crate::native_dex::instructions::remove_liquidity::{remove_result, RemoveLiquidityAccountsView};
use crate::native_dex::instructions::swap::{
    fee_per_share, input_is_rwt, swap_result, BinLedgerReply, SwapAccountsView, SwapOutcome,
};
use crate::native_dex::instructions::zap_liquidity::{
    zap_at, zap_plan, zap_result, ZapLiquidityAccountsView, ZapPlan,
};
use crate::native_dex::laws::{
    deposit_is_backed, plan_is_backed, trade_is_backed, vault_in_change, vault_out_change,
};
use crate::native_dex::state::{BinArray, DexConfig, LiquidityNexus, LpPosition, PoolState};
use crate::seeds::SignedBy;

verus! {

/// A pool's accumulator of one side.
pub open spec fn accumulator(pool: PoolState, side_a: bool) -> int {
    if side_a {
        pool.cumulative_fees_per_share_a as int
    } else {
        pool.cumulative_fees_per_share_b as int
    }
}

/// A pool's reserve of one side.
pub open spec fn reserve(pool: PoolState, side_a: bool) -> int {
    if side_a {
        pool.reserve_a as int
    } else {
        pool.reserve_b as int
    }
}

/// A position's settled accumulator of one side.
pub open spec fn settled(position: LpPosition, side_a: bool) -> int {
    if side_a {
        position.fees_claimed_per_share_a as int
    } else {
        position.fees_claimed_per_share_b as int
    }
}

/// What one position is owed while the accumulator stands at `level`.
pub open spec fn owed_to(position: LpPosition, level: int, side_a: bool) -> int {
    position.shares * (level - settled(position, side_a))
}

/// What all positions are owed while the accumulator stands at `level`.
pub open spec fn owed(positions: Seq<LpPosition>, level: int, side_a: bool) -> int
    decreases positions.len(),
{
    if positions.len() == 0 {
        0
    } else {
        owed(positions.drop_last(), level, side_a) + owed_to(positions.last(), level, side_a)
    }
}

/// All shares of the positions.
pub open spec fn shares_held(positions: Seq<LpPosition>) -> int
    decreases positions.len(),
{
    if positions.len() == 0 {
        0
    } else {
        shares_held(positions.drop_last()) + positions.last().shares
    }
}

/// Whether a vault that holds `vault` covers one side of the pool.
pub open spec fn covers(
    pool: PoolState,
    positions: Seq<LpPosition>,
    vault: int,
    side_a: bool,
) -> bool {
    reserve(pool, side_a) * Q64 + owed(positions, accumulator(pool, side_a), side_a) <= vault * Q64
}

/// Whether the pool can pay all its positions: `positions` are all of the pool's, `vault_a` and
/// `vault_b` are what its vaults hold.
pub open spec fn solvent(
    pool: PoolState,
    positions: Seq<LpPosition>,
    vault_a: int,
    vault_b: int,
) -> bool {
    &&& shares_held(positions) <= pool.total_lp_shares
    &&& forall|i: int|
        0 <= i < positions.len() ==> settled(#[trigger] positions[i], true) <= accumulator(
            pool,
            true,
        ) && settled(positions[i], false) <= accumulator(pool, false)
    &&& covers(pool, positions, vault_a, true)
    &&& covers(pool, positions, vault_b, false)
}

/// A rise of the accumulator adds to each share the same.
proof fn owed_after_rise(positions: Seq<LpPosition>, level: int, rise: int, side_a: bool)
    ensures
        owed(positions, level + rise, side_a) == owed(positions, level, side_a) + rise
            * shares_held(positions),
    decreases positions.len(),
{
    if positions.len() > 0 {
        owed_after_rise(positions.drop_last(), level, rise, side_a);
        let last = positions.last();
        let s = last.shares as int;
        let before = level - settled(last, side_a);
        let rest = shares_held(positions.drop_last());
        assert(s * (before + rise) == s * before + rise * s) by (nonlinear_arith);
        assert(rise * (rest + s) == rise * rest + rise * s) by (nonlinear_arith);
        assert(level + rise - settled(last, side_a) == before + rise);
    } else {
        assert(rise * 0 == 0);
    }
}

/// Replacing one position changes the totals by what that position changes.
proof fn totals_after_update(
    positions: Seq<LpPosition>,
    i: int,
    position: LpPosition,
    level: int,
    side_a: bool,
)
    requires
        0 <= i < positions.len(),
    ensures
        owed(positions.update(i, position), level, side_a) == owed(positions, level, side_a)
            - owed_to(positions[i], level, side_a) + owed_to(position, level, side_a),
        shares_held(positions.update(i, position)) == shares_held(positions) - positions[i].shares
            + position.shares,
    decreases positions.len(),
{
    let updated = positions.update(i, position);
    if i == positions.len() - 1 {
        assert(updated.drop_last() =~= positions.drop_last());
    } else {
        totals_after_update(positions.drop_last(), i, position, level, side_a);
        assert(updated.drop_last() =~= positions.drop_last().update(i, position));
        assert(updated.last() == positions.last());
    }
}

/// A further position adds its own to the totals.
proof fn totals_after_push(
    positions: Seq<LpPosition>,
    position: LpPosition,
    level: int,
    side_a: bool,
)
    ensures
        owed(positions.push(position), level, side_a) == owed(positions, level, side_a) + owed_to(
            position,
            level,
            side_a,
        ),
        shares_held(positions.push(position)) == shares_held(positions) + position.shares,
{
    assert(positions.push(position).drop_last() =~= positions);
}

/// Nobody is owed less than nothing, and nobody more than all together.
proof fn owed_is_part(positions: Seq<LpPosition>, level: int, side_a: bool, i: int)
    requires
        forall|k: int|
            0 <= k < positions.len() ==> settled(#[trigger] positions[k], side_a) <= level,
        0 <= i < positions.len(),
    ensures
        0 <= owed_to(positions[i], level, side_a) <= owed(positions, level, side_a),
        positions[i].shares <= shares_held(positions),
    decreases positions.len(),
{
    owed_is_nonnegative(positions.drop_last(), level, side_a);
    assert(settled(positions[i], side_a) <= level);
    assert(settled(positions.last(), side_a) <= level) by {
        assert(positions.last() == positions[positions.len() - 1]);
    }
    let p = positions[i];
    let q = positions.last();
    assert(owed_to(p, level, side_a) >= 0) by (nonlinear_arith)
        requires
            owed_to(p, level, side_a) == p.shares * (level - settled(p, side_a)),
            p.shares >= 0,
            level - settled(p, side_a) >= 0,
    ;
    assert(owed_to(q, level, side_a) >= 0) by (nonlinear_arith)
        requires
            owed_to(q, level, side_a) == q.shares * (level - settled(q, side_a)),
            q.shares >= 0,
            level - settled(q, side_a) >= 0,
    ;
    if i < positions.len() - 1 {
        assert forall|k: int| 0 <= k < positions.drop_last().len() implies settled(
            #[trigger] positions.drop_last()[k],
            side_a,
        ) <= level by {
            assert(positions.drop_last()[k] == positions[k]);
        }
        owed_is_part(positions.drop_last(), level, side_a, i);
    }
}

/// All positions together are owed no less than nothing.
proof fn owed_is_nonnegative(positions: Seq<LpPosition>, level: int, side_a: bool)
    ensures
        (forall|k: int|
            0 <= k < positions.len() ==> settled(#[trigger] positions[k], side_a) <= level)
            ==> owed(positions, level, side_a) >= 0,
        shares_held(positions) >= 0,
    decreases positions.len(),
{
    if positions.len() > 0 {
        owed_is_nonnegative(positions.drop_last(), level, side_a);
        if forall|k: int|
            0 <= k < positions.len() ==> settled(#[trigger] positions[k], side_a) <= level {
            assert forall|k: int| 0 <= k < positions.drop_last().len() implies settled(
                #[trigger] positions.drop_last()[k],
                side_a,
            ) <= level by {
                assert(positions.drop_last()[k] == positions[k]);
            }
            let q = positions.last();
            assert(q == positions[positions.len() - 1]);
            assert(owed_to(q, level, side_a) >= 0) by (nonlinear_arith)
                requires
                    owed_to(q, level, side_a) == q.shares * (level - settled(q, side_a)),
                    q.shares >= 0,
                    level - settled(q, side_a) >= 0,
            ;
        }
    }
}

/// A payout is no more than what it settles.
proof fn payout_is_owed(position: LpPosition, level: int, side_a: bool)
    requires
        settled(position, side_a) <= level,
    ensures
        claimable(level - settled(position, side_a), position.shares as int) matches Ok(amount)
            ==> amount * Q64 <= owed_to(position, level, side_a),
{
    let delta = level - settled(position, side_a);
    let p = delta * position.shares;
    assert(p == owed_to(position, level, side_a)) by (nonlinear_arith)
        requires
            p == delta * position.shares,
            owed_to(position, level, side_a) == position.shares * delta,
    ;
    assert(p >= 0) by (nonlinear_arith)
        requires
            p == delta * position.shares,
            delta >= 0,
            position.shares >= 0,
    ;
    if p <= u128::MAX {
        let amount = p / (Q64 as int);
        assert(0 <= amount <= u64::MAX && amount * Q64 <= p) by (nonlinear_arith)
            requires
                amount == p / (Q64 as int),
                0 <= p <= u128::MAX,
                Q64 == 0x1_0000_0000_0000_0000,
        ;
    }
}

/// A solvent pool can pay any position all it has accrued and still holds its reserves.
pub proof fn accrued_fees_are_backed(
    pool: PoolState,
    positions: Seq<LpPosition>,
    vault_a: int,
    vault_b: int,
    i: int,
)
    requires
        solvent(pool, positions, vault_a, vault_b),
        0 <= i < positions.len(),
    ensures
        pending_fees(pool, positions[i]) matches Ok((claim_a, claim_b)) ==> pool.reserve_a + claim_a
            <= vault_a && pool.reserve_b + claim_b <= vault_b,
        pool.reserve_a <= vault_a,
        pool.reserve_b <= vault_b,
{
    let level_a = accumulator(pool, true);
    let level_b = accumulator(pool, false);
    let p = positions[i];
    owed_is_part(positions, level_a, true, i);
    owed_is_part(positions, level_b, false, i);
    payout_is_owed(p, level_a, true);
    payout_is_owed(p, level_b, false);
}

/// One fee raises what is owed by no more than the fee.
proof fn fee_covers_its_accrual(fee_lp: u64, total_lp_shares: u128, held: int)
    requires
        0 <= held <= total_lp_shares,
    ensures
        0 <= fee_per_share(fee_lp, total_lp_shares),
        fee_per_share(fee_lp, total_lp_shares) * held <= fee_lp * Q64,
{
    let delta = fee_per_share(fee_lp, total_lp_shares);
    let t = total_lp_shares as int;
    let p = fee_lp * Q64;
    assert(p >= 0) by (nonlinear_arith)
        requires
            p == fee_lp * Q64,
            fee_lp >= 0,
            Q64 > 0,
    ;
    if fee_lp == 0 || t == 0 {
        assert(0 * held == 0);
    } else {
        assert(delta >= 0 && delta * t <= p) by (nonlinear_arith)
            requires
                delta == p / t,
                p >= 0,
                t > 0,
        ;
        assert(delta * held <= delta * t) by (nonlinear_arith)
            requires
                delta >= 0,
                held <= t,
        ;
    }
}

/// One side of a pool stays covered when its reserve changes by `change`, its accumulator by a
/// fee's accrual, and its vault by the change and the fee.
proof fn side_after_accrual(
    before: PoolState,
    after: PoolState,
    positions: Seq<LpPosition>,
    vault: int,
    vault_after: int,
    fee_lp: u64,
    accrues: bool,
    side_a: bool,
)
    requires
        shares_held(positions) <= before.total_lp_shares,
        covers(before, positions, vault, side_a),
        accumulator(after, side_a) == accumulator(before, side_a) + if accrues {
            fee_per_share(fee_lp, before.total_lp_shares)
        } else {
            0
        },
        vault_after - vault >= reserve(after, side_a) - reserve(before, side_a) + if accrues {
            fee_lp as int
        } else {
            0
        },
    ensures
        covers(after, positions, vault_after, side_a),
        accumulator(after, side_a) >= accumulator(before, side_a),
{
    let level = accumulator(before, side_a);
    let held = shares_held(positions);
    owed_is_nonnegative(positions, level, side_a);
    fee_covers_its_accrual(fee_lp, before.total_lp_shares, held);
    let rise = if accrues { fee_per_share(fee_lp, before.total_lp_shares) } else { 0 };
    owed_after_rise(positions, level, rise, side_a);
    if !accrues {
        assert(0 * held == 0);
    }
    let kept = if accrues { fee_lp as int } else { 0 };
    let change = reserve(after, side_a) - reserve(before, side_a);
    let extra = vault_after - vault - change - kept;
    assert(vault_after * Q64 == vault * Q64 + change * Q64 + kept * Q64 + extra * Q64)
        by (nonlinear_arith)
        requires
            vault_after == vault + change + kept + extra,
    ;
    assert(reserve(after, side_a) * Q64 == reserve(before, side_a) * Q64 + change * Q64)
        by (nonlinear_arith)
        requires
            reserve(after, side_a) == reserve(before, side_a) + change,
    ;
    assert(extra * Q64 >= 0) by (nonlinear_arith)
        requires
            extra >= 0,
            Q64 > 0,
    ;
    if !accrues {
        assert(kept * Q64 == 0) by (nonlinear_arith)
            requires
                kept == 0,
        ;
    }
}

/// A trade keeps a pool solvent.
pub proof fn trade_keeps_solvent(
    params: DexParams,
    accounts: SwapAccountsView<'_>,
    remaining: Seq<AccountInfo>,
    program_id: Address,
    config: DexConfig,
    pool: PoolState,
    ledger: BinLedgerReply,
    amount_in: u64,
    min_amount_out: u64,
    a_to_b: bool,
    signed_by: SignedBy,
    now: i64,
    positions: Seq<LpPosition>,
    vault_a: int,
    vault_b: int,
)
    requires
        solvent(pool, positions, vault_a, vault_b),
    ensures
        swap_result(
            params,
            accounts,
            remaining,
            program_id,
            config,
            pool,
            ledger,
            amount_in,
            min_amount_out,
            a_to_b,
            signed_by,
            now,
        ) matches Ok(SwapOutcome::Traded(t)) ==> {
            let rwt_in = input_is_rwt(params, pool, a_to_b);
            let change_in = vault_in_change(t, rwt_in);
            let change_out = vault_out_change(t, rwt_in);
            solvent(
                t.pool,
                positions,
                vault_a + if a_to_b { change_in } else { change_out },
                vault_b + if a_to_b { change_out } else { change_in },
            )
        },
{
    let result = swap_result(
        params,
        accounts,
        remaining,
        program_id,
        config,
        pool,
        ledger,
        amount_in,
        min_amount_out,
        a_to_b,
        signed_by,
        now,
    );
    if let Ok(SwapOutcome::Traded(t)) = result {
        trade_is_backed(
            params,
            accounts,
            remaining,
            program_id,
            config,
            pool,
            ledger,
            amount_in,
            min_amount_out,
            a_to_b,
            signed_by,
            now,
        );
        let rwt_in = input_is_rwt(params, pool, a_to_b);
        let rwt_a = a_to_b == rwt_in;
        let change_in = vault_in_change(t, rwt_in);
        let change_out = vault_out_change(t, rwt_in);
        let after_a = vault_a + if a_to_b { change_in } else { change_out };
        let after_b = vault_b + if a_to_b { change_out } else { change_in };
        let fee = t.event.fee_lp;
        assert(t.pool.total_lp_shares == pool.total_lp_shares);
        side_after_accrual(pool, t.pool, positions, vault_a, after_a, fee, rwt_a, true);
        side_after_accrual(pool, t.pool, positions, vault_b, after_b, fee, !rwt_a, false);
    }
}

/// The positions once one of them was replaced, or one was added where it is new.
pub open spec fn with_position(
    positions: Seq<LpPosition>,
    existing: Option<LpPosition>,
    i: int,
    position: LpPosition,
) -> Seq<LpPosition> {
    if existing is Some {
        positions.update(i, position)
    } else {
        positions.push(position)
    }
}

/// Whether `existing` is the position at place `i`, where there is one.
pub open spec fn is_at_place(
    positions: Seq<LpPosition>,
    existing: Option<LpPosition>,
    i: int,
) -> bool {
    existing matches Some(position) ==> 0 <= i < positions.len() && positions[i] == position
}

/// One side of a pool stays covered when a position is settled: it is paid no more than it is
/// owed, and the vault changes as the reserve does, the payout deducted.
proof fn side_after_settlement(
    before: PoolState,
    after: PoolState,
    positions: Seq<LpPosition>,
    existing: Option<LpPosition>,
    i: int,
    position: LpPosition,
    vault: int,
    vault_after: int,
    paid: int,
    side_a: bool,
)
    requires
        covers(before, positions, vault, side_a),
        accumulator(after, side_a) == accumulator(before, side_a),
        settled(position, side_a) == accumulator(before, side_a),
        is_at_place(positions, existing, i),
        existing matches Some(old_position) ==> paid * Q64 <= owed_to(
            old_position,
            accumulator(before, side_a),
            side_a,
        ),
        existing is None ==> paid == 0,
        vault_after - vault >= reserve(after, side_a) - reserve(before, side_a) - paid,
    ensures
        covers(after, with_position(positions, existing, i, position), vault_after, side_a),
{
    let level = accumulator(before, side_a);
    assert(owed_to(position, level, side_a) == 0) by (nonlinear_arith)
        requires
            owed_to(position, level, side_a) == position.shares * (level - settled(
                position,
                side_a,
            )),
            settled(position, side_a) == level,
    ;
    if existing is Some {
        totals_after_update(positions, i, position, level, side_a);
    } else {
        totals_after_push(positions, position, level, side_a);
    }
    let change = reserve(after, side_a) - reserve(before, side_a);
    let extra = vault_after - vault - change + paid;
    assert(vault_after * Q64 == vault * Q64 + change * Q64 - paid * Q64 + extra * Q64)
        by (nonlinear_arith)
        requires
            vault_after == vault + change - paid + extra,
    ;
    assert(reserve(after, side_a) * Q64 == reserve(before, side_a) * Q64 + change * Q64)
        by (nonlinear_arith)
        requires
            reserve(after, side_a) == reserve(before, side_a) + change,
    ;
    assert(extra * Q64 >= 0) by (nonlinear_arith)
        requires
            extra >= 0,
            Q64 > 0,
    ;
    if existing is None {
        assert(paid * Q64 == 0) by (nonlinear_arith)
            requires
                paid == 0,
        ;
    }
}

/// A pool stays solvent when a position is settled, on both sides at once.
proof fn settlement_keeps_solvent(
    before: PoolState,
    after: PoolState,
    positions: Seq<LpPosition>,
    existing: Option<LpPosition>,
    i: int,
    position: LpPosition,
    vault_a: int,
    vault_b: int,
    after_a: int,
    after_b: int,
    paid_a: int,
    paid_b: int,
)
    requires
        solvent(before, positions, vault_a, vault_b),
        is_at_place(positions, existing, i),
        after.cumulative_fees_per_share_a == before.cumulative_fees_per_share_a,
        after.cumulative_fees_per_share_b == before.cumulative_fees_per_share_b,
        position.fees_claimed_per_share_a == before.cumulative_fees_per_share_a,
        position.fees_claimed_per_share_b == before.cumulative_fees_per_share_b,
        after_a - vault_a >= after.reserve_a - before.reserve_a - paid_a,
        after_b - vault_b >= after.reserve_b - before.reserve_b - paid_b,
        existing matches Some(old_position) ==> {
            &&& paid_a * Q64 <= owed_to(old_position, accumulator(before, true), true)
            &&& paid_b * Q64 <= owed_to(old_position, accumulator(before, false), false)
            &&& after.total_lp_shares - before.total_lp_shares >= position.shares
                - old_position.shares
        },
        existing is None ==> {
            &&& paid_a == 0
            &&& paid_b == 0
            &&& after.total_lp_shares - before.total_lp_shares >= position.shares
        },
    ensures
        solvent(after, with_position(positions, existing, i, position), after_a, after_b),
{
    let result = with_position(positions, existing, i, position);
    side_after_settlement(
        before,
        after,
        positions,
        existing,
        i,
        position,
        vault_a,
        after_a,
        paid_a,
        true,
    );
    side_after_settlement(
        before,
        after,
        positions,
        existing,
        i,
        position,
        vault_b,
        after_b,
        paid_b,
        false,
    );
    if existing is Some {
        totals_after_update(positions, i, position, 0, true);
    } else {
        totals_after_push(positions, position, 0, true);
    }
    assert forall|k: int| 0 <= k < result.len() implies settled(#[trigger] result[k], true)
        <= accumulator(after, true) && settled(result[k], false) <= accumulator(after, false) by {
        if existing is Some && k == i || k == positions.len() {
            assert(result[k] == position);
        } else {
            assert(result[k] == positions[k]);
        }
    }
}

/// What a position is paid is owed to it, on both sides.
proof fn pending_is_owed(pool: PoolState, position: LpPosition)
    ensures
        pending_fees(pool, position) matches Ok((claim_a, claim_b)) ==> {
            &&& claim_a * Q64 <= owed_to(position, accumulator(pool, true), true)
            &&& claim_b * Q64 <= owed_to(position, accumulator(pool, false), false)
        },
{
    if settled(position, true) <= accumulator(pool, true) && settled(position, false)
        <= accumulator(pool, false) {
        payout_is_owed(position, accumulator(pool, true), true);
        payout_is_owed(position, accumulator(pool, false), false);
    }
}

/// A payout of fees keeps a pool solvent.
pub proof fn claim_keeps_solvent(
    accounts: ClaimLpFeesAccountsView<'_>,
    pool: PoolState,
    now: i64,
    positions: Seq<LpPosition>,
    i: int,
    vault_a: int,
    vault_b: int,
)
    requires
        solvent(pool, positions, vault_a, vault_b),
        0 <= i < positions.len(),
    ensures
        claim_result(accounts, pool, positions[i], now) matches Ok(o) ==> solvent(
            pool,
            positions.update(i, o.position),
            vault_a - moved(o.transfer_a),
            vault_b - moved(o.transfer_b),
        ),
{
    if let Ok(o) = claim_result(accounts, pool, positions[i], now) {
        pending_is_owed(pool, positions[i]);
        settlement_keeps_solvent(
            pool,
            pool,
            positions,
            Some(positions[i]),
            i,
            o.position,
            vault_a,
            vault_b,
            vault_a - moved(o.transfer_a),
            vault_b - moved(o.transfer_b),
            moved(o.transfer_a),
            moved(o.transfer_b),
        );
    }
}

/// A deposit keeps a pool solvent. `i` is the place of the provider's position, where it exists.
pub proof fn deposit_keeps_solvent(
    params: DexParams,
    accounts: AddLiquidityAccountsView<'_>,
    program_id: Address,
    config: DexConfig,
    pool: PoolState,
    existing: Option<LpPosition>,
    amount_a: u64,
    amount_b: u64,
    min_shares: u128,
    signed_by: SignedBy,
    now: i64,
    positions: Seq<LpPosition>,
    i: int,
    vault_a: int,
    vault_b: int,
)
    requires
        solvent(pool, positions, vault_a, vault_b),
        is_at_place(positions, existing, i),
    ensures
        add_result(
            params,
            accounts,
            program_id,
            config,
            pool,
            existing,
            amount_a,
            amount_b,
            min_shares,
            signed_by,
            now,
        ) matches Ok(o) ==> solvent(
            o.pool,
            with_position(positions, existing, i, o.position),
            vault_a + moved(o.transfer_a) - moved(o.claims.transfer_a),
            vault_b + moved(o.transfer_b) - moved(o.claims.transfer_b),
        ),
{
    if let Ok(o) = add_result(
        params,
        accounts,
        program_id,
        config,
        pool,
        existing,
        amount_a,
        amount_b,
        min_shares,
        signed_by,
        now,
    ) {
        deposit_is_backed(
            params,
            accounts,
            program_id,
            config,
            pool,
            existing,
            amount_a,
            amount_b,
            min_shares,
            signed_by,
            now,
        );
        if let Some(position) = existing {
            pending_is_owed(pool, position);
            if position.shares == 0 {
                assert(0 * (accumulator(pool, true) - settled(position, true)) == 0);
                assert(0 * (accumulator(pool, false) - settled(position, false)) == 0);
            }
        }
        settlement_keeps_solvent(
            pool,
            o.pool,
            positions,
            existing,
            i,
            o.position,
            vault_a,
            vault_b,
            vault_a + moved(o.transfer_a) - moved(o.claims.transfer_a),
            vault_b + moved(o.transfer_b) - moved(o.claims.transfer_b),
            moved(o.claims.transfer_a),
            moved(o.claims.transfer_b),
        );
    }
}

/// A withdrawal keeps a pool solvent.
pub proof fn withdrawal_keeps_solvent(
    accounts: RemoveLiquidityAccountsView<'_>,
    remaining: Seq<AccountInfo>,
    program_id: Address,
    pool: PoolState,
    shares_to_burn: u128,
    now: i64,
    positions: Seq<LpPosition>,
    i: int,
    vault_a: int,
    vault_b: int,
)
    requires
        solvent(pool, positions, vault_a, vault_b),
        0 <= i < positions.len(),
    ensures
        remove_result(
            accounts,
            remaining,
            program_id,
            pool,
            positions[i],
            shares_to_burn,
            now,
        ) matches Ok(o) ==> solvent(
            o.pool,
            positions.update(i, o.position),
            vault_a - moved(o.transfer_a) - moved(o.claims.transfer_a),
            vault_b - moved(o.transfer_b) - moved(o.claims.transfer_b),
        ),
{
    if let Ok(o) = remove_result(
        accounts,
        remaining,
        program_id,
        pool,
        positions[i],
        shares_to_burn,
        now,
    ) {
        pending_is_owed(pool, positions[i]);
        settlement_keeps_solvent(
            pool,
            o.pool,
            positions,
            Some(positions[i]),
            i,
            o.position,
            vault_a,
            vault_b,
            vault_a - moved(o.transfer_a) - moved(o.claims.transfer_a),
            vault_b - moved(o.transfer_b) - moved(o.claims.transfer_b),
            moved(o.claims.transfer_a),
            moved(o.claims.transfer_b),
        );
    }
}

/// A zap keeps a pool with the reward token on one side solvent. `i` is the place of the
/// provider's position, where it exists.
pub proof fn zap_keeps_solvent(
    params: DexParams,
    accounts: ZapLiquidityAccountsView<'_>,
    remaining: Seq<AccountInfo>,
    program_id: Address,
    config: DexConfig,
    pool: PoolState,
    existing: Option<LpPosition>,
    amount_a: u64,
    amount_b: u64,
    min_shares: u128,
    signed_by: SignedBy,
    now: i64,
    positions: Seq<LpPosition>,
    i: int,
    vault_a: int,
    vault_b: int,
)
    requires
        solvent(pool, positions, vault_a, vault_b),
        is_at_place(positions, existing, i),
        (pool.token_a_mint == params.rwt_mint) != (pool.token_b_mint == params.rwt_mint),
    ensures
        zap_result(
            params,
            accounts,
            remaining,
            program_id,
            config,
            pool,
            existing,
            amount_a,
            amount_b,
            min_shares,
            signed_by,
            now,
        ) matches Ok(o) ==> {
            let rwt_a = pool.token_a_mint == params.rwt_mint;
            let fees = moved(o.protocol_fee) + moved(o.ot_treasury_fee);
            solvent(
                o.pool,
                with_position(positions, existing, i, o.position),
                vault_a + moved(o.transfer_a) - moved(o.claims.transfer_a) - if rwt_a {
                    fees
                } else {
                    0
                },
                vault_b + moved(o.transfer_b) - moved(o.claims.transfer_b) - if rwt_a {
                    0
                } else {
                    fees
                },
            )
        },
{
    let result = zap_result(
        params,
        accounts,
        remaining,
        program_id,
        config,
        pool,
        existing,
        amount_a,
        amount_b,
        min_shares,
        signed_by,
        now,
    );
    if let Ok(o) = result {
        if let Ok(plan) = zap_plan(params, config, pool, amount_a, amount_b) {
            zap_at_keeps_solvent(
                params,
                accounts,
                remaining,
                program_id,
                config,
                pool,
                existing,
                plan,
                amount_a,
                amount_b,
                min_shares,
                signed_by,
                now,
                positions,
                i,
                vault_a,
                vault_b,
            );
        }
    }
}

/// The trade inside a zap, then its deposit, each keep the pool solvent.
proof fn zap_at_keeps_solvent(
    params: DexParams,
    accounts: ZapLiquidityAccountsView<'_>,
    remaining: Seq<AccountInfo>,
    program_id: Address,
    config: DexConfig,
    pool: PoolState,
    existing: Option<LpPosition>,
    plan: ZapPlan,
    amount_a: u64,
    amount_b: u64,
    min_shares: u128,
    signed_by: SignedBy,
    now: i64,
    positions: Seq<LpPosition>,
    i: int,
    vault_a: int,
    vault_b: int,
)
    requires
        solvent(pool, positions, vault_a, vault_b),
        is_at_place(positions, existing, i),
        (pool.token_a_mint == params.rwt_mint) != (pool.token_b_mint == params.rwt_mint),
        zap_plan(params, config, pool, amount_a, amount_b) == Ok::<ZapPlan, ProgramError>(plan),
    ensures
        zap_at(
            params,
            accounts,
            remaining,
            program_id,
            existing,
            plan,
            amount_a,
            amount_b,
            min_shares,
            signed_by,
            now,
        ) matches Ok(o) ==> {
            let rwt_a = pool.token_a_mint == params.rwt_mint;
            let fees = moved(o.protocol_fee) + moved(o.ot_treasury_fee);
            solvent(
                o.pool,
                with_position(positions, existing, i, o.position),
                vault_a + moved(o.transfer_a) - moved(o.claims.transfer_a) - if rwt_a {
                    fees
                } else {
                    0
                },
                vault_b + moved(o.transfer_b) - moved(o.claims.transfer_b) - if rwt_a {
                    0
                } else {
                    fees
                },
            )
        },
{
    if let Ok(o) = zap_at(
        params,
        accounts,
        remaining,
        program_id,
        existing,
        plan,
        amount_a,
        amount_b,
        min_shares,
        signed_by,
        now,
    ) {
        let rwt_a = pool.token_a_mint == params.rwt_mint;
        let fee = plan.fee_lp;
        plan_is_backed(params, config, pool, amount_a, amount_b);
        balanced_is_part_of_the_offer(
            plan.final_a,
            plan.final_b,
            plan.pool.reserve_a,
            plan.pool.reserve_b,
        );
        let traded_a = vault_a + plan.pool.reserve_a - pool.reserve_a + if rwt_a {
            fee as int
        } else {
            0
        };
        let traded_b = vault_b + plan.pool.reserve_b - pool.reserve_b + if rwt_a {
            0
        } else {
            fee as int
        };
        side_after_accrual(pool, plan.pool, positions, vault_a, traded_a, fee, rwt_a, true);
        side_after_accrual(pool, plan.pool, positions, vault_b, traded_b, fee, !rwt_a, false);
        if let Some(position) = existing {
            pending_is_owed(plan.pool, position);
            if position.shares == 0 {
                assert(0 * (accumulator(plan.pool, true) - settled(position, true)) == 0);
                assert(0 * (accumulator(plan.pool, false) - settled(position, false)) == 0);
            }
        }
        let fees = moved(o.protocol_fee) + moved(o.ot_treasury_fee);
        settlement_keeps_solvent(
            plan.pool,
            o.pool,
            positions,
            existing,
            i,
            o.position,
            traded_a,
            traded_b,
            vault_a + moved(o.transfer_a) - moved(o.claims.transfer_a) - if rwt_a {
                fees
            } else {
                0
            },
            vault_b + moved(o.transfer_b) - moved(o.claims.transfer_b) - if rwt_a {
                0
            } else {
                fees
            },
            moved(o.claims.transfer_a),
            moved(o.claims.transfer_b),
        );
    }
}

/// Compounded yield keeps a pool solvent: the vault gains what the reserve gains.
pub proof fn compounding_keeps_solvent(
    plan: CompoundPlan,
    target_vault: AccountInfo,
    pool: PoolState,
    now: i64,
    positions: Seq<LpPosition>,
    vault_a: int,
    vault_b: int,
)
    requires
        solvent(pool, positions, vault_a, vault_b),
    ensures
        compounded(plan, target_vault, pool, now) matches Ok(Some((after, event))) ==> solvent(
            after,
            positions,
            vault_a + if plan.rwt_side == 0 { event.rwt_claimed as int } else { 0 },
            vault_b + if plan.rwt_side == 0 { 0 } else { event.rwt_claimed as int },
        ),
{
    if let Ok(Some((after, event))) = compounded(plan, target_vault, pool, now) {
        let gain = event.rwt_claimed as int;
        let after_a = vault_a + if plan.rwt_side == 0 { gain } else { 0 };
        let after_b = vault_b + if plan.rwt_side == 0 { 0 } else { gain };
        side_after_accrual(pool, after, positions, vault_a, after_a, 0, false, true);
        side_after_accrual(pool, after, positions, vault_b, after_b, 0, false, false);
    }
}

/// Growth keeps a pool solvent: the dollar vault gains what the dollar reserve gains.
pub proof fn growth_keeps_solvent(
    params: DexParams,
    accounts: GrowLiquidity,
    config: DexConfig,
    pool: PoolState,
    bins: BinArray,
    nexus: LiquidityNexus,
    new_nav_bin: i32,
    active_zone_width: u16,
    now: i64,
    positions: Seq<LpPosition>,
    vault_a: int,
    vault_b: int,
)
    requires
        solvent(pool, positions, vault_a, vault_b),
    ensures
        grow_result(
            params,
            accounts,
            config,
            pool,
            bins,
            nexus,
            new_nav_bin,
            active_zone_width,
            now,
        ) matches Ok(o) ==> solvent(o.pool, positions, vault_a, vault_b + o.transfer.amount),
{
    if let Ok(o) = grow_result(
        params,
        accounts,
        config,
        pool,
        bins,
        nexus,
        new_nav_bin,
        active_zone_width,
        now,
    ) {
        let after_b = vault_b + o.transfer.amount;
        side_after_accrual(pool, o.pool, positions, vault_a, vault_a, 0, false, true);
        side_after_accrual(pool, o.pool, positions, vault_b, after_b, 0, false, false);
    }
}

/// A new pool is solvent: it has no positions, and owes nothing.
pub proof fn empty_pool_is_solvent(pool: PoolState)
    requires
        pool.reserve_a == 0,
        pool.reserve_b == 0,
    ensures
        solvent(pool, Seq::empty(), 0, 0),
{
    assert(0 * Q64 == 0);
}

/// Whatever leaves reserves, shares and accumulators alone leaves a pool solvent, such as pausing,
/// shifting or compressing it.
pub proof fn unchanged_books_stay_solvent(
    before: PoolState,
    after: PoolState,
    positions: Seq<LpPosition>,
    vault_a: int,
    vault_b: int,
)
    requires
        solvent(before, positions, vault_a, vault_b),
        after.reserve_a == before.reserve_a,
        after.reserve_b == before.reserve_b,
        after.total_lp_shares == before.total_lp_shares,
        after.cumulative_fees_per_share_a == before.cumulative_fees_per_share_a,
        after.cumulative_fees_per_share_b == before.cumulative_fees_per_share_b,
    ensures
        solvent(after, positions, vault_a, vault_b),
{
}

} // verus!
