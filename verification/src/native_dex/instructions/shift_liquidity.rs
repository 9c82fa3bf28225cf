//! Redistribution of a ladder pool's bins around the net asset value.
use vstd::prelude::*;

use crate::account::{AccountInfo, Context};
use crate::address::{address_eq, derived_address, find_address_2, Address};
use crate::error::{DexError, ProgramError};
use crate::native_dex::constants::{DexParams, MAX_BINS, POOL_TYPE_CONCENTRATED};
use crate::native_dex::events::LiquidityShifted;
use crate::native_dex::state::{BinArray, DexConfig, PoolState};
use crate::seeds::bins_seed;

verus! {

/// The accounts of a shift.
pub struct ShiftLiquidity {
    pub rebalancer: AccountInfo,
    pub dex_config: AccountInfo,
    pub pool_state: AccountInfo,
    pub bin_array: AccountInfo,
}

/// The order to the bin ledger: spread its liquidity over `target_bin_count` bins around
/// `nav_bin`. `activate` then makes that the active bin.
#[derive(Clone, Copy, Debug, PartialEq, Eq)]
pub struct BinShift {
    pub nav_bin: i32,
    pub target_bin_count: u16,
}

/// An accepted shift.
#[derive(Clone, Copy, Debug, PartialEq, Eq)]
pub struct ShiftOutcome {
    pub pool: PoolState,
    pub bins: BinShift,
    pub event: LiquidityShifted,
}

/// First bin of the spread: half of the bins, rounded down, lie below `nav_bin`.
pub open spec fn spread_lower(nav_bin: i32, target_bin_count: u16) -> int {
    nav_bin - target_bin_count as int / 2
}

/// Last bin of the spread.
pub open spec fn spread_upper(nav_bin: i32, target_bin_count: u16) -> int {
    spread_lower(nav_bin, target_bin_count) + target_bin_count - 1
}

/// Who may shift what: the conditions that come before any bin is looked at.
pub open spec fn shift_gate(
    accounts: ShiftLiquidity,
    config: DexConfig,
    pool: PoolState,
    bins: BinArray,
    target_bin_count: u16,
) -> Result<(), ProgramError> {
    if accounts.rebalancer.address != config.rebalancer {
        Err(ProgramError::Dex(DexError::Unauthorized))
    } else if pool.pool_type != POOL_TYPE_CONCENTRATED {
        Err(ProgramError::Dex(DexError::InvalidPoolType))
    } else if target_bin_count == 0 || target_bin_count > MAX_BINS {
        Err(ProgramError::Dex(DexError::InvalidBinRange))
    } else if bins.pool != accounts.pool_state.address {
        Err(ProgramError::Dex(DexError::InvalidVault))
    } else {
        Ok(())
    }
}

/// Distance between two bins.
pub open spec fn bin_distance(a: i32, b: i32) -> int {
    if a >= b {
        a - b
    } else {
        b - a
    }
}

/// Whether the bin numbers that a shift computes can be held. The ranges are computed only for
/// a distance that is allowed.
pub open spec fn shift_fits(
    params: DexParams,
    bins: BinArray,
    nav_bin: i32,
    target_bin_count: u16,
) -> bool {
    &&& bin_distance(nav_bin, bins.active_bin_id) <= i32::MAX
    &&& bin_distance(nav_bin, bins.active_bin_id) <= params.max_shift_distance ==> {
        &&& bins.wf()
        &&& i32::MIN <= spread_lower(nav_bin, target_bin_count)
        &&& spread_upper(nav_bin, target_bin_count) <= i32::MAX
    }
}

/// What a shift does, or why it is refused.
pub open spec fn shift_result(
    params: DexParams,
    accounts: ShiftLiquidity,
    program_id: Address,
    config: DexConfig,
    pool: PoolState,
    bins: BinArray,
    nav_bin: i32,
    target_bin_count: u16,
    now: i64,
) -> Result<ShiftOutcome, ProgramError> {
    let new_lower = spread_lower(nav_bin, target_bin_count);
    let new_upper = spread_upper(nav_bin, target_bin_count);
    let old_upper = bins.lower_bin_id + MAX_BINS - 1;
    match shift_gate(accounts, config, pool, bins, target_bin_count) {
        Err(e) => Err(e),
        Ok(_) => if bin_distance(nav_bin, bins.active_bin_id) > params.max_shift_distance {
            Err(ProgramError::Dex(DexError::ShiftTooLarge))
        } else if new_lower < bins.lower_bin_id || new_upper > old_upper {
            Err(ProgramError::Dex(DexError::InvalidBinRange))
        } else {
            match derived_address(
                seq![bins_seed()@, accounts.pool_state.address@],
                program_id@,
            ) {
                None => Err(ProgramError::InvalidSeeds),
                Some((address, _)) => if accounts.bin_array.address != address {
                    Err(ProgramError::InvalidSeeds)
                } else if nav_bin == bins.active_bin_id {
                    Err(ProgramError::Dex(DexError::ShiftNoOp))
                } else {
                    Ok(
                        ShiftOutcome {
                            pool: PoolState { active_bin_id: nav_bin, ..pool },
                            bins: BinShift { nav_bin, target_bin_count },
                            event: LiquidityShifted {
                                pool: accounts.pool_state.address,
                                rebalancer: accounts.rebalancer.address,
                                old_lower: bins.lower_bin_id,
                                old_upper: old_upper as i32,
                                new_lower: new_lower as i32,
                                new_upper: new_upper as i32,
                                timestamp: now,
                            },
                        },
                    )
                },
            }
        },
    }
}

/// Checks who may shift what.
fn pass_shift_gate(
    accounts: &ShiftLiquidity,
    config: &DexConfig,
    pool: &PoolState,
    bins: &BinArray,
    target_bin_count: u16,
) -> (r: Result<(), ProgramError>)
    ensures
        r == shift_gate(*accounts, *config, *pool, *bins, target_bin_count),
{
    if !address_eq(&accounts.rebalancer.address, &config.rebalancer) {
        return Err(ProgramError::Dex(DexError::Unauthorized));
    }
    if pool.pool_type != POOL_TYPE_CONCENTRATED {
        return Err(ProgramError::Dex(DexError::InvalidPoolType));
    }
    if target_bin_count == 0 || target_bin_count as usize > MAX_BINS {
        return Err(ProgramError::Dex(DexError::InvalidBinRange));
    }
    if !address_eq(&bins.pool, &accounts.pool_state.address) {
        return Err(ProgramError::Dex(DexError::InvalidVault));
    }
    Ok(())
}

/// Whether the bin numbers that a shift computes, if it comes to that, can be held.
pub fn fits_shift(
    accounts: &ShiftLiquidity,
    params: &DexParams,
    config: &DexConfig,
    pool: &PoolState,
    bins: &BinArray,
    nav_bin: i32,
    target_bin_count: u16,
) -> (fits: bool)
    ensures
        fits == (shift_gate(*accounts, *config, *pool, *bins, target_bin_count) is Ok
            ==> shift_fits(*params, *bins, nav_bin, target_bin_count)),
{
    if pass_shift_gate(accounts, config, pool, bins, target_bin_count).is_err() {
        return true;
    }
    let distance: i64 = if nav_bin >= bins.active_bin_id {
        nav_bin as i64 - bins.active_bin_id as i64
    } else {
        bins.active_bin_id as i64 - nav_bin as i64
    };
    if distance > i32::MAX as i64 {
        return false;
    }
    if distance > params.max_shift_distance as i64 {
        return true;
    }
    let lower: i64 = nav_bin as i64 - (target_bin_count / 2) as i64;
    let upper: i64 = lower + target_bin_count as i64 - 1;
    let last: i64 = bins.lower_bin_id as i64 + MAX_BINS as i64 - 1;
    last <= i32::MAX as i64 && lower >= i32::MIN as i64 && upper <= i32::MAX as i64
}

/// Centres a ladder pool's liquidity on the net asset value. No tokens move.
pub fn handler(
    ctx: &Context<'_, ShiftLiquidity>,
    params: &DexParams,
    config: &DexConfig,
    pool: &PoolState,
    bins: &BinArray,
    nav_bin: i32,
    target_bin_count: u16,
) -> (r: Result<ShiftOutcome, ProgramError>)
    requires
        shift_gate(*ctx.accounts, *config, *pool, *bins, target_bin_count) is Ok ==> shift_fits(
            *params,
            *bins,
            nav_bin,
            target_bin_count,
        ),
    ensures
        r == shift_result(
            *params,
            *ctx.accounts,
            *ctx.program_id,
            *config,
            *pool,
            *bins,
            nav_bin,
            target_bin_count,
            ctx.now,
        ),
{
    let a = ctx.accounts;
    if let Err(e) = pass_shift_gate(a, config, pool, bins, target_bin_count) {
        return Err(e);
    }
    let distance: i32 = if nav_bin >= bins.active_bin_id {
        nav_bin - bins.active_bin_id
    } else {
        bins.active_bin_id - nav_bin
    };
    if distance > params.max_shift_distance {
        return Err(ProgramError::Dex(DexError::ShiftTooLarge));
    }
    let half: i32 = target_bin_count as i32 / 2;
    let new_lower: i32 = nav_bin - half;
    let new_upper: i32 = nav_bin + (target_bin_count as i32 - 1 - half);
    let old_lower: i32 = bins.lower_bin_id;
    let old_upper: i32 = old_lower + (MAX_BINS as i32 - 1);
    if new_lower < old_lower || new_upper > old_upper {
        return Err(ProgramError::Dex(DexError::InvalidBinRange));
    }
    let seed = bins_seed();
    match find_address_2(seed.as_slice(), a.pool_state.address.as_slice(), ctx.program_id) {
        None => {
            return Err(ProgramError::InvalidSeeds);
        },
        Some((address, _)) => {
            if !a.bin_array.is_at(&address) {
                return Err(ProgramError::InvalidSeeds);
            }
        },
    }
    if nav_bin == bins.active_bin_id {
        return Err(ProgramError::Dex(DexError::ShiftNoOp));
    }
    let mut shifted = *pool;
    shifted.active_bin_id = nav_bin;
    Ok(
        ShiftOutcome {
            pool: shifted,
            bins: BinShift { nav_bin, target_bin_count },
            event: LiquidityShifted {
                pool: a.pool_state.address,
                rebalancer: a.rebalancer.address,
                old_lower,
                old_upper,
                new_lower,
                new_upper,
                timestamp: ctx.now,
            },
        },
    )
}

/// The bins once the ledger has spread them: the centre of the spread becomes the active bin, and
/// everything else is as the ledger left it.
pub open spec fn activated(bins: BinArray, order: BinShift) -> BinArray {
    BinArray { active_bin_id: order.nav_bin, ..bins }
}

/// Makes the centre of a spread the active bin. Trades then start where the liquidity is.
pub fn activate(bins: &BinArray, order: &BinShift) -> (r: BinArray)
    ensures
        r == activated(*bins, *order),
{
    let mut shifted = *bins;
    shifted.active_bin_id = order.nav_bin;
    shifted
}

/// Sum of the first `n` bins of one side: reward tokens, or dollars.
pub open spec fn liquidity_of_first(bins: BinArray, n: nat, side_a: bool) -> int
    decreases n,
{
    if n == 0 {
        0
    } else {
        liquidity_of_first(bins, (n - 1) as nat, side_a) + if side_a {
            bins.bins[n - 1].liquidity_a
        } else {
            bins.bins[n - 1].liquidity_b
        }
    }
}

/// After an accepted shift the pool and its bins agree on the active bin, which is the requested
/// one. Making it so moves no liquidity: each side's sum is what the ledger's spread left.
pub proof fn shift_moves_both_active_bins(
    params: DexParams,
    accounts: ShiftLiquidity,
    program_id: Address,
    config: DexConfig,
    pool: PoolState,
    bins: BinArray,
    nav_bin: i32,
    target_bin_count: u16,
    now: i64,
    spread: BinArray,
    side_a: bool,
)
    ensures
        shift_result(
            params,
            accounts,
            program_id,
            config,
            pool,
            bins,
            nav_bin,
            target_bin_count,
            now,
        ) matches Ok(o) ==> {
            let after = activated(spread, o.bins);
            &&& o.pool.active_bin_id == nav_bin
            &&& after.active_bin_id == nav_bin
            &&& after.pool == spread.pool
            &&& after.lower_bin_id == spread.lower_bin_id
            &&& after.bin_step_bps == spread.bin_step_bps
            &&& after.bins == spread.bins
            &&& liquidity_of_first(after, MAX_BINS as nat, side_a) == liquidity_of_first(
                spread,
                MAX_BINS as nat,
                side_a,
            )
        },
{
    if let Ok(o) = shift_result(
        params,
        accounts,
        program_id,
        config,
        pool,
        bins,
        nav_bin,
        target_bin_count,
        now,
    ) {
        same_liquidity(activated(spread, o.bins), spread, MAX_BINS as nat, side_a);
    }
}

/// Bins with the same contents have the same sums.
proof fn same_liquidity(one: BinArray, other: BinArray, n: nat, side_a: bool)
    requires
        one.bins == other.bins,
    ensures
        liquidity_of_first(one, n, side_a) == liquidity_of_first(other, n, side_a),
    decreases n,
{
    if n > 0 {
        same_liquidity(one, other, (n - 1) as nat, side_a);
    }
}

/// A shift moves no tokens in or out: of the pool only the active bin changes. The new range
/// lies within the pool's bins, holds the requested number of them, and holds the new active bin.
pub proof fn shift_keeps_reserves(
    params: DexParams,
    accounts: ShiftLiquidity,
    program_id: Address,
    config: DexConfig,
    pool: PoolState,
    bins: BinArray,
    nav_bin: i32,
    target_bin_count: u16,
    now: i64,
)
    requires
        shift_fits(params, bins, nav_bin, target_bin_count),
    ensures
        shift_result(
            params,
            accounts,
            program_id,
            config,
            pool,
            bins,
            nav_bin,
            target_bin_count,
            now,
        ) matches Ok(o) ==> {
            &&& o.pool == (PoolState { active_bin_id: nav_bin, ..pool })
            &&& o.event.old_lower <= o.event.new_lower <= nav_bin <= o.event.new_upper
                <= o.event.old_upper
            &&& o.event.new_upper - o.event.new_lower + 1 == target_bin_count
            &&& o.pool.active_bin_id != bins.active_bin_id
        },
{
}

} // verus!
