//! Pricing, fees and share accounting of constant-product pools.
use vstd::prelude::*;

use crate::error::{DexError, ProgramError};
use crate::math::{product_fits, sqrt_floor, sqrt_of_product};
use crate::native_dex::constants::BPS_DENOMINATOR;

verus! {

/// What a trade pays in fees.
#[derive(Clone, Copy, Debug, PartialEq, Eq)]
pub struct FeeBreakdown {
    /// The trading fee.
    pub fee_total: u64,
    /// The liquidity providers' part of the trading fee.
    pub fee_lp: u64,
    /// The protocol's part of the trading fee.
    pub fee_protocol: u64,
    /// The ownership-token treasury's fee, on top of the trading fee.
    pub ot_treasury_fee: u64,
}

/// What a constant-product pool gives for `amount_in`.
pub open spec fn curve_output(reserve_in: int, reserve_out: int, amount_in: int) -> int {
    reserve_out * amount_in / (reserve_in + amount_in)
}

/// What a constant-product pool gives for `amount_in`, or an overflow where there is nothing to
/// divide by.
pub open spec fn curve_trade(reserve_in: u64, reserve_out: u64, amount_in: u64) -> Result<
    u64,
    ProgramError,
> {
    if reserve_in + amount_in == 0 {
        Err(ProgramError::Dex(DexError::MathOverflow))
    } else {
        Ok(curve_output(reserve_in as int, reserve_out as int, amount_in as int) as u64)
    }
}

/// What a constant-product pool gives for `amount_in`:
/// `reserve_out * amount_in / (reserve_in + amount_in)`, rounded down.
pub fn constant_product_output(reserve_in: u64, reserve_out: u64, amount_in: u64) -> (out: Result<
    u64,
    ProgramError,
>)
    ensures
        out == curve_trade(reserve_in, reserve_out, amount_in),
        out matches Ok(given) ==> given == curve_output(
            reserve_in as int,
            reserve_out as int,
            amount_in as int,
        ) && given <= reserve_out,
{
    let depth: u128 = reserve_in as u128 + amount_in as u128;
    if depth == 0 {
        return Err(ProgramError::Dex(DexError::MathOverflow));
    }
    proof {
        product_fits(reserve_out, amount_in);
        curve_output_bound(reserve_in as int, reserve_out as int, amount_in as int);
    }
    let out: u128 = (reserve_out as u128) * (amount_in as u128) / depth;
    Ok(out as u64)
}

/// A pool never gives more than it holds, and keeps something of a side it is still owed.
pub proof fn curve_output_bound(reserve_in: int, reserve_out: int, amount_in: int)
    requires
        reserve_in >= 0,
        reserve_out >= 0,
        amount_in >= 0,
        reserve_in + amount_in > 0,
    ensures
        0 <= curve_output(reserve_in, reserve_out, amount_in) <= reserve_out,
        reserve_in > 0 && reserve_out > 0 ==> curve_output(reserve_in, reserve_out, amount_in)
            < reserve_out,
{
    let d = reserve_in + amount_in;
    let p = reserve_out * amount_in;
    let q = p / d;
    assert(0 <= p <= reserve_out * d) by (nonlinear_arith)
        requires
            p == reserve_out * amount_in,
            0 <= amount_in <= d,
            0 <= reserve_out,
    ;
    assert(0 <= q <= reserve_out) by (nonlinear_arith)
        requires
            d > 0,
            0 <= p <= reserve_out * d,
            q == p / d,
    ;
    if reserve_in > 0 && reserve_out > 0 {
        assert(q < reserve_out) by (nonlinear_arith)
            requires
                d > 0,
                p == reserve_out * amount_in,
                reserve_out > 0,
                amount_in < d,
                q == p / d,
        ;
    }
}

/// A trade never lowers the product of the reserves.
pub proof fn product_never_falls(reserve_in: int, reserve_out: int, amount_in: int)
    requires
        reserve_in >= 0,
        reserve_out >= 0,
        amount_in >= 0,
        reserve_in + amount_in > 0,
    ensures
        (reserve_in + amount_in) * (reserve_out - curve_output(reserve_in, reserve_out, amount_in))
            >= reserve_in * reserve_out,
{
    let d = reserve_in + amount_in;
    let p = reserve_out * amount_in;
    let q = p / d;
    assert(d * q <= p) by (nonlinear_arith)
        requires
            d > 0,
            q == p / d,
    ;
    assert(d * (reserve_out - q) >= reserve_in * reserve_out) by (nonlinear_arith)
        requires
            d == reserve_in + amount_in,
            p == reserve_out * amount_in,
            d * q <= p,
    ;
}

/// The fees of a trade of `amount`, or an overflow where a part of them cannot be held.
pub open spec fn fees_of(
    amount: u64,
    fee_bps: u16,
    lp_fee_share_bps: u16,
    has_ot_treasury: bool,
    ot_treasury_fee_bps: u16,
) -> Result<FeeBreakdown, ProgramError> {
    let total = amount * fee_bps / BPS_DENOMINATOR as int;
    let lp = total * lp_fee_share_bps / BPS_DENOMINATOR as int;
    let ot = if has_ot_treasury {
        amount * ot_treasury_fee_bps / BPS_DENOMINATOR as int
    } else {
        0
    };
    if total > u64::MAX || lp > total || ot > u64::MAX {
        Err(ProgramError::Dex(DexError::MathOverflow))
    } else {
        Ok(
            FeeBreakdown {
                fee_total: total as u64,
                fee_lp: lp as u64,
                fee_protocol: (total - lp) as u64,
                ot_treasury_fee: ot as u64,
            },
        )
    }
}

/// `amount * bps / 10_000`, rounded down.
fn share_of(amount: u64, bps: u16) -> (part: u128)
    ensures
        part == amount * bps / BPS_DENOMINATOR as int,
{
    proof {
        product_fits(amount, bps as u64);
    }
    (amount as u128) * (bps as u128) / (BPS_DENOMINATOR as u128)
}

/// The fees of a trade of `amount`. The protocol gets what the providers' part leaves of the
/// trading fee, so the two parts always add up to it.
pub fn calculate_fees(
    amount: u64,
    fee_bps: u16,
    lp_fee_share_bps: u16,
    has_ot_treasury: bool,
    ot_treasury_fee_bps: u16,
) -> (fees: Result<FeeBreakdown, ProgramError>)
    ensures
        fees == fees_of(amount, fee_bps, lp_fee_share_bps, has_ot_treasury, ot_treasury_fee_bps),
        fees matches Ok(f) ==> f.fee_lp + f.fee_protocol == f.fee_total,
{
    let total: u128 = share_of(amount, fee_bps);
    if total > u64::MAX as u128 {
        return Err(ProgramError::Dex(DexError::MathOverflow));
    }
    let lp: u128 = share_of(total as u64, lp_fee_share_bps);
    if lp > total {
        return Err(ProgramError::Dex(DexError::MathOverflow));
    }
    let ot: u128 = if has_ot_treasury {
        share_of(amount, ot_treasury_fee_bps)
    } else {
        0
    };
    if ot > u64::MAX as u128 {
        return Err(ProgramError::Dex(DexError::MathOverflow));
    }
    Ok(
        FeeBreakdown {
            fee_total: total as u64,
            fee_lp: lp as u64,
            fee_protocol: (total - lp) as u64,
            ot_treasury_fee: ot as u64,
        },
    )
}

/// Fees never exceed the trade where their rates are rates.
pub proof fn fees_are_part_of_the_trade(
    amount: u64,
    fee_bps: u16,
    lp_fee_share_bps: u16,
    has_ot_treasury: bool,
    ot_treasury_fee_bps: u16,
)
    requires
        fee_bps + ot_treasury_fee_bps <= BPS_DENOMINATOR,
        lp_fee_share_bps <= BPS_DENOMINATOR,
    ensures
        fees_of(amount, fee_bps, lp_fee_share_bps, has_ot_treasury, ot_treasury_fee_bps) matches Ok(
            f,
        ) && f.fee_total + f.ot_treasury_fee <= amount,
{
    let d = BPS_DENOMINATOR as int;
    let total = amount * fee_bps / d;
    let ot = amount * ot_treasury_fee_bps / d;
    assert(total + ot <= amount && 0 <= total && 0 <= ot) by (nonlinear_arith)
        requires
            d == 10_000,
            total == amount * fee_bps / d,
            ot == amount * ot_treasury_fee_bps / d,
            0 <= amount,
            0 <= fee_bps,
            0 <= ot_treasury_fee_bps,
            fee_bps + ot_treasury_fee_bps <= d,
    ;
    let lp = total * lp_fee_share_bps / d;
    assert(lp <= total) by (nonlinear_arith)
        requires
            d == 10_000,
            lp == total * lp_fee_share_bps / d,
            0 <= total,
            0 <= lp_fee_share_bps <= d,
    ;
}

/// The smaller of two numbers.
pub open spec fn smaller(a: int, b: int) -> int {
    if a <= b {
        a
    } else {
        b
    }
}

/// Shares minted for a deposit: for the first one, the geometric mean of the two amounts less the
/// burned `min_liquidity`; after that, the smaller of the two sides' proportions of the total.
pub open spec fn lp_shares(
    deposit_a: u64,
    deposit_b: u64,
    reserve_a: u64,
    reserve_b: u64,
    total_shares: u128,
    is_first: bool,
    min_liquidity: u64,
) -> Result<u128, ProgramError> {
    if is_first {
        let root = sqrt_floor(deposit_a * deposit_b);
        Ok(
            if root <= min_liquidity {
                0u128
            } else {
                (root - min_liquidity) as u128
            },
        )
    } else if reserve_a == 0 || reserve_b == 0 || deposit_a * total_shares > u128::MAX || deposit_b
        * total_shares > u128::MAX {
        Err(ProgramError::Dex(DexError::MathOverflow))
    } else {
        Ok(
            smaller(
                deposit_a * total_shares / reserve_a as int,
                deposit_b * total_shares / reserve_b as int,
            ) as u128,
        )
    }
}

/// Shares minted for a deposit of `deposit_a` and `deposit_b`.
pub fn calculate_lp_shares(
    deposit_a: u64,
    deposit_b: u64,
    reserve_a: u64,
    reserve_b: u64,
    total_shares: u128,
    is_first: bool,
    min_liquidity: u64,
) -> (shares: Result<u128, ProgramError>)
    ensures
        shares == lp_shares(
            deposit_a,
            deposit_b,
            reserve_a,
            reserve_b,
            total_shares,
            is_first,
            min_liquidity,
        ),
{
    if is_first {
        let root: u64 = sqrt_of_product(deposit_a, deposit_b);
        if root <= min_liquidity {
            return Ok(0);
        }
        return Ok((root - min_liquidity) as u128);
    }
    if reserve_a == 0 || reserve_b == 0 {
        return Err(ProgramError::Dex(DexError::MathOverflow));
    }
    let (wide_a, wide_b) = match (
        (deposit_a as u128).checked_mul(total_shares),
        (deposit_b as u128).checked_mul(total_shares),
    ) {
        (Some(wide_a), Some(wide_b)) => (wide_a, wide_b),
        _ => {
            return Err(ProgramError::Dex(DexError::MathOverflow));
        },
    };
    let by_a: u128 = wide_a / (reserve_a as u128);
    let by_b: u128 = wide_b / (reserve_b as u128);
    if by_a <= by_b {
        Ok(by_a)
    } else {
        Ok(by_b)
    }
}

/// Shares minted after the first deposit never claim more of a side than was deposited there:
/// nobody else's part of the reserves shrinks.
pub proof fn deposit_never_dilutes(
    deposit_a: u64,
    deposit_b: u64,
    reserve_a: u64,
    reserve_b: u64,
    total_shares: u128,
    min_liquidity: u64,
)
    ensures
        lp_shares(
            deposit_a,
            deposit_b,
            reserve_a,
            reserve_b,
            total_shares,
            false,
            min_liquidity,
        ) matches Ok(shares) ==> shares * reserve_a <= deposit_a * total_shares && shares
            * reserve_b <= deposit_b * total_shares,
{
    let ra = reserve_a as int;
    let rb = reserve_b as int;
    let pa = deposit_a * total_shares;
    let pb = deposit_b * total_shares;
    if reserve_a != 0 && reserve_b != 0 && pa <= u128::MAX && pb <= u128::MAX {
        assert(0 <= pa && 0 <= pb) by (nonlinear_arith)
            requires
                pa == deposit_a * total_shares,
                pb == deposit_b * total_shares,
                0 <= deposit_a,
                0 <= deposit_b,
                0 <= total_shares,
        ;
        let s = smaller(pa / ra, pb / rb);
        assert(0 <= s <= pa / ra && s <= pb / rb && s <= u128::MAX) by (nonlinear_arith)
            requires
                0 <= pa <= u128::MAX,
                0 <= pb <= u128::MAX,
                ra > 0,
                rb > 0,
                s == pa / ra || s == pb / rb,
                s <= pa / ra,
                s <= pb / rb,
        ;
        assert(s * ra <= pa) by (nonlinear_arith)
            requires
                0 <= s <= pa / ra,
                ra > 0,
        ;
        assert(s * rb <= pb) by (nonlinear_arith)
            requires
                0 <= s <= pb / rb,
                rb > 0,
        ;
    }
}

/// What a burn of `shares` pays out of one reserve, or an overflow.
pub open spec fn remove_amount(shares: u128, reserve: u64, total_shares: u128) -> Option<u64> {
    if total_shares == 0 || shares * reserve > u128::MAX || shares * reserve / total_shares as int
        > u64::MAX {
        None
    } else {
        Some((shares * reserve / total_shares as int) as u64)
    }
}

/// What a burn of `shares` pays out of both reserves.
pub open spec fn remove_amounts(
    shares: u128,
    reserve_a: u64,
    reserve_b: u64,
    total_shares: u128,
) -> Result<(u64, u64), ProgramError> {
    match (
        remove_amount(shares, reserve_a, total_shares),
        remove_amount(shares, reserve_b, total_shares),
    ) {
        (Some(a), Some(b)) => Ok((a, b)),
        _ => Err(ProgramError::Dex(DexError::MathOverflow)),
    }
}

/// What a burn of `shares` pays out of one reserve.
fn calculate_remove_amount(shares: u128, reserve: u64, total_shares: u128) -> (amount: Option<u64>)
    ensures
        amount == remove_amount(shares, reserve, total_shares),
{
    if total_shares == 0 {
        return None;
    }
    match shares.checked_mul(reserve as u128) {
        None => None,
        Some(wide) => {
            let amount: u128 = wide / total_shares;
            if amount > u64::MAX as u128 {
                None
            } else {
                Some(amount as u64)
            }
        },
    }
}

/// What a burn of `shares` out of `total_shares` pays: that part of each reserve, rounded down.
pub fn calculate_remove_amounts(
    shares: u128,
    reserve_a: u64,
    reserve_b: u64,
    total_shares: u128,
) -> (amounts: Result<(u64, u64), ProgramError>)
    ensures
        amounts == remove_amounts(shares, reserve_a, reserve_b, total_shares),
{
    match (
        calculate_remove_amount(shares, reserve_a, total_shares),
        calculate_remove_amount(shares, reserve_b, total_shares),
    ) {
        (Some(a), Some(b)) => Ok((a, b)),
        _ => Err(ProgramError::Dex(DexError::MathOverflow)),
    }
}

/// A burn of no more than all shares pays no more than the reserve.
pub proof fn remove_is_covered(shares: u128, reserve: u64, total_shares: u128)
    requires
        shares <= total_shares,
    ensures
        remove_amount(shares, reserve, total_shares) matches Some(amount) ==> amount <= reserve
            && amount * total_shares <= shares * reserve,
{
    let p = shares * reserve;
    let t = total_shares as int;
    if t > 0 {
        assert(0 <= p / t <= reserve && (p / t) * t <= p) by (nonlinear_arith)
            requires
                p == shares * reserve,
                0 <= shares <= t,
                0 <= reserve,
                t > 0,
        ;
    }
}

} // verus!
