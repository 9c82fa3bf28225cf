//! What a zap trades, pays, deposits and mints, in the terms of its inputs.
use vstd::prelude::*;

use crate::account::AccountInfo;
use crate::actions::{moved, CreateAccount, TokenTransfer};
use crate::address::{derived_address, Address};
use crate::error::{DexError, ProgramError};
use crate::math::{is_sqrt, sqrt_floor, sqrt_is_unique};
use crate::native_dex::amm::curve_output_bound;
use crate::native_dex::constants::DexParams;
use crate::native_dex::events::ZapLiquidityExecuted;
use crate::native_dex::instructions::add_liquidity::balanced_is_part_of_the_offer;
use crate::native_dex::instructions::zap_liquidity::{
    user_zap_result, zap_checks, zap_deposit, zap_plan, zap_result, ZapLiquidityAccountsView,
    ZapOutcome, ZapPlan,
};
use crate::native_dex::laws::providing::{
    credit_is_owed, may_be_credited, offer_is_enough, quotient_is_natural, root_fits, shares_fit,
};
use crate::native_dex::state::{DexConfig, LpPosition, PoolState};
use crate::seeds::{lp_seed, SignedBy};

verus! {

/// Whether side B of a zap is in excess of the reserves' ratio, or in balance with it; otherwise
/// side A is.
pub open spec fn b_in_excess(pool: PoolState, amount_a: u64, amount_b: u64) -> bool {
    amount_a * pool.reserve_b / pool.reserve_a as int <= amount_b
}

/// Half of what a zap brings beyond the reserves' ratio, rounded down; nothing in an empty pool.
pub open spec fn half_excess(pool: PoolState, amount_a: u64, amount_b: u64) -> int {
    if pool.reserve_a == 0 && pool.reserve_b == 0 {
        0
    } else if b_in_excess(pool, amount_a, amount_b) {
        (amount_b - amount_a * pool.reserve_b / pool.reserve_a as int) / 2
    } else if amount_b * pool.reserve_a / pool.reserve_b as int >= amount_a {
        0
    } else {
        (amount_a - amount_b * pool.reserve_a / pool.reserve_b as int) / 2
    }
}

/// A zap trades half of its excess inside the pool, whichever side that is on, at the curve's price
/// and with the fees of any trade: on the reward-token amount of that trade, which is what it
/// brings where reward tokens are in excess and what the curve gives otherwise, the providers and
/// the protocol get the pool's rate, and a treasury that the pool has gets the treasury's rate,
/// floored each. Reward tokens that go in pay their fees on top; otherwise the fees come out of
/// what the curve gives.
pub proof fn zap_trades_half_the_excess(
    params: DexParams,
    config: DexConfig,
    pool: PoolState,
    amount_a: u64,
    amount_b: u64,
)
    ensures
        zap_plan(params, config, pool, amount_a, amount_b) matches Ok(plan) ==> {
            let traded = half_excess(pool, amount_a, amount_b);
            let brings_a = !b_in_excess(pool, amount_a, amount_b);
            let reserve_in: int = if brings_a {
                pool.reserve_a as int
            } else {
                pool.reserve_b as int
            };
            let reserve_out: int = if brings_a {
                pool.reserve_b as int
            } else {
                pool.reserve_a as int
            };
            let sells_rwt = (if brings_a { pool.token_a_mint } else { pool.token_b_mint })
                == params.rwt_mint;
            let gross: int = if traded == 0 {
                0
            } else {
                reserve_out * traded / (reserve_in + traded)
            };
            let base = if sells_rwt { traded } else { gross };
            let fees = plan.fee_lp + plan.fee_protocol + plan.fee_ot_treasury;
            let received = gross - if sells_rwt { 0 } else { fees };
            let per_share: int = if plan.fee_lp == 0 || pool.total_lp_shares == 0 {
                0
            } else {
                plan.fee_lp * 0x1_0000_0000_0000_0000 / pool.total_lp_shares as int
            };
            let rwt_is_a = brings_a == sells_rwt;
            &&& plan.swapped_amount == traded
            &&& plan.fee_lp + plan.fee_protocol == base * pool.fee_bps / 10_000
            &&& plan.fee_lp == (plan.fee_lp + plan.fee_protocol) * config.lp_fee_share_bps / 10_000
            &&& plan.fee_ot_treasury == if pool.has_ot_treasury {
                base * params.ot_treasury_fee_bps / 10_000
            } else {
                0
            }
            &&& plan.extra_a == if sells_rwt && brings_a { fees } else { 0 }
            &&& plan.extra_b == if sells_rwt && !brings_a { fees } else { 0 }
            &&& plan.final_a == amount_a + if brings_a { -traded } else { received }
            &&& plan.final_b == amount_b + if brings_a { received } else { -traded }
            &&& plan.pool.reserve_a == pool.reserve_a + if brings_a { traded } else { -gross }
            &&& plan.pool.reserve_b == pool.reserve_b + if brings_a { -gross } else { traded }
            &&& traded > 0 ==> plan.pool.cumulative_fees_per_share_a
                == pool.cumulative_fees_per_share_a + (if rwt_is_a { per_share } else { 0 })
            &&& traded > 0 ==> plan.pool.cumulative_fees_per_share_b
                == pool.cumulative_fees_per_share_b + (if rwt_is_a { 0 } else { per_share })
            &&& plan.pool == (PoolState {
                reserve_a: plan.pool.reserve_a,
                reserve_b: plan.pool.reserve_b,
                cumulative_fees_per_share_a: plan.pool.cumulative_fees_per_share_a,
                cumulative_fees_per_share_b: plan.pool.cumulative_fees_per_share_b,
                ..pool
            })
            &&& traded == 0 ==> plan.pool == pool
        },
{
    let traded = half_excess(pool, amount_a, amount_b);
    let brings_a = !b_in_excess(pool, amount_a, amount_b);
    let reserve_in: int = if brings_a { pool.reserve_a as int } else { pool.reserve_b as int };
    let reserve_out: int = if brings_a { pool.reserve_b as int } else { pool.reserve_a as int };
    if traded > 0 {
        curve_output_bound(reserve_in, reserve_out, traded);
    }
    assert(0int * pool.fee_bps / 10_000 == 0);
    assert(0int * config.lp_fee_share_bps / 10_000 == 0);
    assert(0int * params.ot_treasury_fee_bps / 10_000 == 0);
}

/// The fees of a zap, as they are paid: in a pool with an ownership-token treasury the treasury is
/// paid its rate of the reward-token amount of the trade inside, whichever side is in excess, and
/// the protocol what the providers' share leaves of the pool's rate. Both leave the reward-token
/// vault, and the pool counts all three. The provider is debited what was offered, and the fees on
/// top where reward tokens are in excess.
pub proof fn zap_pays_the_fees_of_a_trade(
    params: DexParams,
    accounts: ZapLiquidityAccountsView<'_>,
    remaining: Seq<AccountInfo>,
    program_id: Address,
    config: DexConfig,
    pool: PoolState,
    existing: Option<LpPosition>,
    amount_a: u64,
    amount_b: u64,
    min_shares: u128,
    signed_by: SignedBy,
    now: i64,
)
    ensures
        zap_result(
            params,
            accounts,
            remaining,
            program_id,
            config,
            pool,
            existing,
            amount_a,
            amount_b,
            min_shares,
            signed_by,
            now,
        ) matches Ok(o) ==> {
            let traded = o.event.swapped_amount as int;
            let brings_a = !b_in_excess(pool, amount_a, amount_b);
            let reserve_in: int = if brings_a {
                pool.reserve_a as int
            } else {
                pool.reserve_b as int
            };
            let reserve_out: int = if brings_a {
                pool.reserve_b as int
            } else {
                pool.reserve_a as int
            };
            let sells_rwt = (if brings_a { pool.token_a_mint } else { pool.token_b_mint })
                == params.rwt_mint;
            let base: int = if traded == 0 {
                0
            } else if sells_rwt {
                traded
            } else {
                reserve_out * traded / (reserve_in + traded)
            };
            let shared = base * pool.fee_bps / 10_000;
            let treasury: int = if pool.has_ot_treasury {
                base * params.ot_treasury_fee_bps / 10_000
            } else {
                0
            };
            &&& traded == half_excess(pool, amount_a, amount_b)
            &&& moved(o.protocol_fee) == shared - shared * config.lp_fee_share_bps / 10_000
            &&& moved(o.ot_treasury_fee) == treasury
            &&& o.pool.total_fees_accumulated == pool.total_fees_accumulated + shared + treasury
            &&& moved(o.transfer_a) == amount_a + if sells_rwt && brings_a {
                shared + treasury
            } else {
                0
            }
            &&& moved(o.transfer_b) == amount_b + if sells_rwt && !brings_a {
                shared + treasury
            } else {
                0
            }
        },
{
    zap_trades_half_the_excess(params, config, pool, amount_a, amount_b);
}

/// What a zap deposits and mints after its trade: a first deposit all that is left of both sides,
/// for the root of their product less the burned shares; a later one what stands in the ratio of
/// the reserves after the trade, for the smaller of the two sides' parts of all shares. The
/// reserves grow by the deposit, and on the reward-token side by all that is left there. Nothing
/// else of the pool changes but the fees.
pub proof fn zap_deposits_what_balances(
    params: DexParams,
    accounts: ZapLiquidityAccountsView<'_>,
    remaining: Seq<AccountInfo>,
    program_id: Address,
    config: DexConfig,
    pool: PoolState,
    existing: Option<LpPosition>,
    amount_a: u64,
    amount_b: u64,
    min_shares: u128,
    signed_by: SignedBy,
    now: i64,
)
    ensures
        zap_result(
            params,
            accounts,
            remaining,
            program_id,
            config,
            pool,
            existing,
            amount_a,
            amount_b,
            min_shares,
            signed_by,
            now,
        ) matches Ok(o) ==> {
            &&& zap_plan(params, config, pool, amount_a, amount_b) matches Ok(plan)
            &&& {
                let ra = plan.pool.reserve_a as int;
                let rb = plan.pool.reserve_b as int;
                let total = pool.total_lp_shares as int;
                let a_fits = plan.final_a * rb / ra <= plan.final_b;
                let dep_a: int = if total == 0 || a_fits {
                    plan.final_a as int
                } else {
                    plan.final_b * ra / rb
                };
                let dep_b: int = if total == 0 || !a_fits {
                    plan.final_b as int
                } else {
                    plan.final_a * rb / ra
                };
                let shares = o.event.shares_minted as int;
                let by_a = dep_a * total / ra;
                let by_b = dep_b * total / rb;
                &&& dep_a > 0
                &&& dep_b > 0
                &&& total > 0 ==> shares == (if by_a <= by_b { by_a } else { by_b })
                &&& total == 0 ==> is_sqrt(shares + params.min_liquidity, dep_a * dep_b)
                &&& o.pool.total_lp_shares == total + shares + (if total == 0 {
                    params.min_liquidity as int
                } else {
                    0
                })
                &&& shares > 0
                &&& shares >= min_shares
                &&& o.pool.reserve_a == ra + (if pool.token_a_mint == params.rwt_mint {
                    plan.final_a as int
                } else {
                    dep_a
                })
                &&& o.pool.reserve_b == rb + (if pool.token_b_mint == params.rwt_mint {
                    plan.final_b as int
                } else {
                    dep_b
                })
                &&& o.pool == (PoolState {
                    reserve_a: o.pool.reserve_a,
                    reserve_b: o.pool.reserve_b,
                    total_lp_shares: o.pool.total_lp_shares,
                    total_fees_accumulated: o.pool.total_fees_accumulated,
                    cumulative_fees_per_share_a: plan.pool.cumulative_fees_per_share_a,
                    cumulative_fees_per_share_b: plan.pool.cumulative_fees_per_share_b,
                    ..pool
                })
            }
        },
{
    zap_trades_half_the_excess(params, config, pool, amount_a, amount_b);
    if let Ok(plan) = zap_plan(params, config, pool, amount_a, amount_b) {
        let ra = plan.pool.reserve_a as int;
        let rb = plan.pool.reserve_b as int;
        balanced_is_part_of_the_offer(
            plan.final_a,
            plan.final_b,
            plan.pool.reserve_a,
            plan.pool.reserve_b,
        );
        if ra > 0 && rb > 0 {
            quotient_is_natural(plan.final_a as int, rb, ra);
            quotient_is_natural(plan.final_b as int, ra, rb);
        }
        shares_fit(plan.pool);
        if let Ok((a, b)) = zap_deposit(plan) {
            root_fits(a, b);
        }
    }
}

/// Whose tokens a zap moves, and where to; and the position that it credits: all new shares,
/// settled at the pool's accumulators after the trade, with what had accrued on the old shares paid
/// out.
pub proof fn zap_credits_the_provider(
    params: DexParams,
    accounts: ZapLiquidityAccountsView<'_>,
    remaining: Seq<AccountInfo>,
    program_id: Address,
    config: DexConfig,
    pool: PoolState,
    existing: Option<LpPosition>,
    amount_a: u64,
    amount_b: u64,
    min_shares: u128,
    signed_by: SignedBy,
    now: i64,
)
    ensures
        zap_result(
            params,
            accounts,
            remaining,
            program_id,
            config,
            pool,
            existing,
            amount_a,
            amount_b,
            min_shares,
            signed_by,
            now,
        ) matches Ok(o) ==> {
            let of_pool = SignedBy::Pool {
                token_a_mint: pool.token_a_mint,
                token_b_mint: pool.token_b_mint,
                bump: pool.bump,
            };
            let rwt_vault = if pool.token_a_mint == params.rwt_mint {
                pool.vault_a
            } else {
                pool.vault_b
            };
            let pool_key = accounts.pool_state.address;
            let provider = accounts.authority.address;
            &&& o.transfer_a matches Some(t) ==> t == (TokenTransfer {
                from: accounts.provider_token_a.address,
                to: pool.vault_a,
                authority: provider,
                amount: t.amount,
                signed_by,
            })
            &&& o.transfer_b matches Some(t) ==> t == (TokenTransfer {
                from: accounts.provider_token_b.address,
                to: pool.vault_b,
                authority: provider,
                amount: t.amount,
                signed_by,
            })
            &&& o.protocol_fee matches Some(t) ==> t == (TokenTransfer {
                from: rwt_vault,
                to: config.areal_fee_destination,
                authority: pool_key,
                amount: t.amount,
                signed_by: of_pool,
            })
            &&& o.ot_treasury_fee matches Some(t) ==> t == (TokenTransfer {
                from: rwt_vault,
                to: pool.ot_treasury_fee_destination,
                authority: pool_key,
                amount: t.amount,
                signed_by: of_pool,
            })
            &&& o.claims.transfer_a matches Some(t) ==> t == (TokenTransfer {
                from: pool.vault_a,
                to: accounts.provider_token_a.address,
                authority: pool_key,
                amount: t.amount,
                signed_by: of_pool,
            })
            &&& o.claims.transfer_b matches Some(t) ==> t == (TokenTransfer {
                from: pool.vault_b,
                to: accounts.provider_token_b.address,
                authority: pool_key,
                amount: t.amount,
                signed_by: of_pool,
            })
            &&& o.claims.event is Some <==> moved(o.claims.transfer_a) > 0 || moved(
                o.claims.transfer_b,
            ) > 0
            &&& o.claims.event matches Some(e) ==> e.recipient == provider && e.pool == pool_key
                && e.claimable_a == moved(o.claims.transfer_a) && e.claimable_b == moved(
                o.claims.transfer_b,
            ) && e.timestamp == now
            &&& o.position.pool == pool_key
            &&& o.position.owner == provider
            &&& o.position.last_update_ts == now
            &&& o.position.fees_claimed_per_share_a == o.pool.cumulative_fees_per_share_a
            &&& o.position.fees_claimed_per_share_b == o.pool.cumulative_fees_per_share_b
            &&& match existing {
                None => {
                    &&& o.position.shares == o.event.shares_minted
                    &&& o.claims.transfer_a is None
                    &&& o.claims.transfer_b is None
                    &&& o.create_position == Some(
                        CreateAccount {
                            payer: accounts.payer.address,
                            account: accounts.lp_position.address,
                            space: 129,
                            owner: program_id,
                            signed_by: SignedBy::Position {
                                pool: pool_key,
                                provider,
                                bump: o.position.bump,
                            },
                        },
                    )
                    &&& derived_address(seq![lp_seed()@, pool_key@, provider@], program_id@)
                        == Some((accounts.lp_position.address, o.position.bump))
                },
                Some(before) => {
                    &&& before.owner == provider
                    &&& before.pool == pool_key
                    &&& o.create_position is None
                    &&& o.position.bump == before.bump
                    &&& o.position.shares == before.shares + o.event.shares_minted
                    &&& before.shares > 0 ==> moved(o.claims.transfer_a) == (
                    o.pool.cumulative_fees_per_share_a - before.fees_claimed_per_share_a)
                        * before.shares / 0x1_0000_0000_0000_0000
                    &&& before.shares > 0 ==> moved(o.claims.transfer_b) == (
                    o.pool.cumulative_fees_per_share_b - before.fees_claimed_per_share_b)
                        * before.shares / 0x1_0000_0000_0000_0000
                    &&& before.shares == 0 ==> moved(o.claims.transfer_a) == 0 && moved(
                        o.claims.transfer_b,
                    ) == 0
                },
            }
            &&& o.event == (ZapLiquidityExecuted {
                pool: pool_key,
                provider,
                input_a: amount_a,
                input_b: amount_b,
                swapped_amount: o.event.swapped_amount,
                shares_minted: o.event.shares_minted,
                timestamp: now,
            })
        },
{
    zap_trades_half_the_excess(params, config, pool, amount_a, amount_b);
    if let Ok(plan) = zap_plan(params, config, pool, amount_a, amount_b) {
        if let Some(before) = existing {
            crate::native_dex::laws::providing::accrual_fits(
                plan.pool.cumulative_fees_per_share_a - before.fees_claimed_per_share_a,
                before.shares,
            );
            crate::native_dex::laws::providing::accrual_fits(
                plan.pool.cumulative_fees_per_share_b - before.fees_claimed_per_share_b,
                before.shares,
            );
        }
    }
}

/// The exchange's base fee is for pools yet to be created: a change of it, or of who governs the
/// exchange, pauses pools or rebalances, changes no zap.
pub proof fn base_fee_leaves_zaps_alone(
    params: DexParams,
    accounts: ZapLiquidityAccountsView<'_>,
    remaining: Seq<AccountInfo>,
    program_id: Address,
    config: DexConfig,
    pool: PoolState,
    existing: Option<LpPosition>,
    amount_a: u64,
    amount_b: u64,
    min_shares: u128,
    signed_by: SignedBy,
    now: i64,
    other: DexConfig,
)
    requires
        other.lp_fee_share_bps == config.lp_fee_share_bps,
        other.areal_fee_destination == config.areal_fee_destination,
        other.is_active == config.is_active,
    ensures
        zap_result(
            params,
            accounts,
            remaining,
            program_id,
            other,
            pool,
            existing,
            amount_a,
            amount_b,
            min_shares,
            signed_by,
            now,
        ) == zap_result(
            params,
            accounts,
            remaining,
            program_id,
            config,
            pool,
            existing,
            amount_a,
            amount_b,
            min_shares,
            signed_by,
            now,
        ),
{
}

/// When the trade inside a zap can be planned: a first deposit brings both tokens; otherwise both
/// reserves can be compared, and of what is traded the fees can be paid and counted.
pub proof fn zap_plan_is_owed(
    params: DexParams,
    config: DexConfig,
    pool: PoolState,
    amount_a: u64,
    amount_b: u64,
)
    ensures
        ({
            let empty = pool.reserve_a == 0 && pool.reserve_b == 0;
            let traded = half_excess(pool, amount_a, amount_b);
            let b_side = b_in_excess(pool, amount_a, amount_b);
            let reserve_in: int = if b_side {
                pool.reserve_b as int
            } else {
                pool.reserve_a as int
            };
            let reserve_out: int = if b_side {
                pool.reserve_a as int
            } else {
                pool.reserve_b as int
            };
            let sells_rwt = (if b_side { pool.token_b_mint } else { pool.token_a_mint })
                == params.rwt_mint;
            let gross = reserve_out * traded / (reserve_in + traded);
            let base = if sells_rwt { traded } else { gross };
            let shared = base * pool.fee_bps / 10_000;
            let lp = shared * config.lp_fee_share_bps / 10_000;
            let treasury: int = if pool.has_ot_treasury {
                base * params.ot_treasury_fee_bps / 10_000
            } else {
                0
            };
            let per_share: int = if lp == 0 || pool.total_lp_shares == 0 {
                0
            } else {
                lp * 0x1_0000_0000_0000_0000 / pool.total_lp_shares as int
            };
            let accumulator: int = if b_side != sells_rwt {
                pool.cumulative_fees_per_share_a as int
            } else {
                pool.cumulative_fees_per_share_b as int
            };
            let comparable = {
                &&& pool.reserve_a > 0
                &&& amount_a * pool.reserve_b / pool.reserve_a as int <= u64::MAX
                &&& !b_side ==> pool.reserve_b > 0 && amount_b * pool.reserve_a
                    / pool.reserve_b as int <= u64::MAX
            };
            let payable = {
                &&& shared <= u64::MAX
                &&& treasury <= u64::MAX
                &&& lp <= shared
                &&& reserve_in + traded <= u64::MAX
                &&& accumulator + per_share <= u128::MAX
                &&& sells_rwt ==> shared + treasury <= u64::MAX
                &&& !sells_rwt ==> shared + treasury <= gross
                &&& (if b_side { amount_a } else { amount_b }) + gross - (if sells_rwt {
                    0
                } else {
                    shared + treasury
                }) <= u64::MAX
            };
            &&& empty ==> (zap_plan(params, config, pool, amount_a, amount_b) is Ok
                <==> amount_a > 0 && amount_b > 0)
            &&& !empty && !comparable ==> zap_plan(params, config, pool, amount_a, amount_b) is Err
            &&& !empty && comparable && traded == 0
                ==> zap_plan(params, config, pool, amount_a, amount_b) is Ok
            &&& !empty && comparable && traded > 0
                ==> (zap_plan(params, config, pool, amount_a, amount_b) is Ok <==> payable)
        }),
{
    let traded = half_excess(pool, amount_a, amount_b);
    let brings_a = !b_in_excess(pool, amount_a, amount_b);
    let reserve_in: int = if brings_a { pool.reserve_a as int } else { pool.reserve_b as int };
    let reserve_out: int = if brings_a { pool.reserve_b as int } else { pool.reserve_a as int };
    if traded > 0 {
        curve_output_bound(reserve_in, reserve_out, traded);
    }
    if pool.reserve_a > 0 {
        quotient_is_natural(
            amount_a as int,
            pool.reserve_b as int,
            pool.reserve_a as int,
        );
    }
    if pool.reserve_b > 0 {
        quotient_is_natural(
            amount_b as int,
            pool.reserve_a as int,
            pool.reserve_b as int,
        );
    }
}

/// When a zap into a pool that has providers is accepted, given what its trade leaves: the exchange
/// and the pool run, something is brought, the vaults, the fee account and the treasury's account
/// are the recorded ones, the deposit that balances is of both tokens and mints shares, at least as
/// many as were asked for, the position is the provider's own or sits at its derived address, and
/// every sum fits.
pub proof fn zap_is_owed(
    params: DexParams,
    accounts: ZapLiquidityAccountsView<'_>,
    remaining: Seq<AccountInfo>,
    program_id: Address,
    config: DexConfig,
    pool: PoolState,
    existing: Option<LpPosition>,
    amount_a: u64,
    amount_b: u64,
    min_shares: u128,
    signed_by: SignedBy,
    now: i64,
    plan: ZapPlan,
)
    requires
        zap_plan(params, config, pool, amount_a, amount_b) == Ok::<ZapPlan, ProgramError>(plan),
        pool.total_lp_shares > 0,
        plan.pool.reserve_a > 0,
        plan.pool.reserve_b > 0,
        plan.final_a * plan.pool.reserve_b / plan.pool.reserve_a as int <= u64::MAX,
    ensures
        ({
            let ra = plan.pool.reserve_a as int;
            let rb = plan.pool.reserve_b as int;
            let total = pool.total_lp_shares as int;
            let a_fits = plan.final_a * rb / ra <= plan.final_b;
            let dep_a: int = if a_fits { plan.final_a as int } else { plan.final_b * ra / rb };
            let dep_b: int = if a_fits { plan.final_a * rb / ra } else { plan.final_b as int };
            let by_a = dep_a * total / ra;
            let by_b = dep_b * total / rb;
            let shares = if by_a <= by_b { by_a } else { by_b };
            let booked_a: int = if pool.token_a_mint == params.rwt_mint {
                plan.final_a as int
            } else {
                dep_a
            };
            let booked_b: int = if pool.token_b_mint == params.rwt_mint {
                plan.final_b as int
            } else {
                dep_b
            };
            let accepted = {
                &&& config.is_active
                &&& pool.is_active
                &&& amount_a > 0 || amount_b > 0
                &&& accounts.vault_a.address == pool.vault_a
                &&& accounts.vault_b.address == pool.vault_b
                &&& accounts.areal_fee_account.address == config.areal_fee_destination
                &&& accounts.areal_fee_account.token_mint() == Ok::<Address, ProgramError>(
                    params.rwt_mint,
                )
                &&& pool.has_ot_treasury ==> remaining.len() > 0 && remaining[0].address
                    == pool.ot_treasury_fee_destination
                &&& dep_a > 0
                &&& dep_b > 0
                &&& shares > 0
                &&& shares >= min_shares
                &&& dep_a * total <= u128::MAX
                &&& dep_b * total <= u128::MAX
                &&& ra + booked_a <= u64::MAX
                &&& rb + booked_b <= u64::MAX
                &&& total + shares <= u128::MAX
                &&& pool.total_fees_accumulated + plan.fee_lp + plan.fee_protocol
                    + plan.fee_ot_treasury <= u64::MAX
                &&& amount_a + plan.extra_a <= u64::MAX
                &&& amount_b + plan.extra_b <= u64::MAX
                &&& may_be_credited(
                    existing,
                    plan.pool,
                    shares,
                    accounts.lp_position.address,
                    program_id,
                    accounts.pool_state.address,
                    accounts.authority.address,
                )
            };
            zap_result(
                params,
                accounts,
                remaining,
                program_id,
                config,
                pool,
                existing,
                amount_a,
                amount_b,
                min_shares,
                signed_by,
                now,
            ) is Ok <==> accepted
        }),
{
    zap_trades_half_the_excess(params, config, pool, amount_a, amount_b);
    balanced_is_part_of_the_offer(
        plan.final_a,
        plan.final_b,
        plan.pool.reserve_a,
        plan.pool.reserve_b,
    );
    shares_fit(plan.pool);
    quotient_is_natural(
        plan.final_a as int,
        plan.pool.reserve_b as int,
        plan.pool.reserve_a as int,
    );
    quotient_is_natural(
        plan.final_b as int,
        plan.pool.reserve_a as int,
        plan.pool.reserve_b as int,
    );
    credit_is_owed(existing, plan.pool);
    offer_is_enough(plan.final_a, plan.final_b, plan.pool.reserve_a, plan.pool.reserve_b);
}

/// When the first zap into a pool is accepted: where both tokens are brought and the root of their
/// product covers the shares that are burned and those that were asked for.
pub proof fn first_zap_is_owed(
    params: DexParams,
    accounts: ZapLiquidityAccountsView<'_>,
    remaining: Seq<AccountInfo>,
    program_id: Address,
    config: DexConfig,
    pool: PoolState,
    existing: Option<LpPosition>,
    amount_a: u64,
    amount_b: u64,
    min_shares: u128,
    signed_by: SignedBy,
    now: i64,
    root: int,
)
    requires
        pool.total_lp_shares == 0,
        pool.reserve_a == 0,
        pool.reserve_b == 0,
        is_sqrt(root, amount_a * amount_b),
        config.is_active,
        pool.is_active,
        accounts.vault_a.address == pool.vault_a,
        accounts.vault_b.address == pool.vault_b,
        accounts.areal_fee_account.address == config.areal_fee_destination,
        accounts.areal_fee_account.token_mint() == Ok::<Address, ProgramError>(params.rwt_mint),
        pool.has_ot_treasury ==> remaining.len() > 0 && remaining[0].address
            == pool.ot_treasury_fee_destination,
        may_be_credited(
            existing,
            pool,
            root - params.min_liquidity,
            accounts.lp_position.address,
            program_id,
            accounts.pool_state.address,
            accounts.authority.address,
        ),
    ensures
        zap_result(
            params,
            accounts,
            remaining,
            program_id,
            config,
            pool,
            existing,
            amount_a,
            amount_b,
            min_shares,
            signed_by,
            now,
        ) is Ok <==> amount_a > 0 && amount_b > 0 && root > params.min_liquidity && root
            - params.min_liquidity >= min_shares,
{
    root_fits(amount_a, amount_b);
    sqrt_is_unique(root, sqrt_floor(amount_a * amount_b), amount_a * amount_b);
    credit_is_owed(existing, pool);
}

/// Why a zap whose accounts are right and whose trade is planned is refused, in a pool that has
/// providers: what is left deposits nothing of a token or mints nothing, or mints fewer shares than
/// were asked for, or the position is someone else's, another pool's, or not at its derived
/// address.
pub proof fn failed_zaps_are_told(
    params: DexParams,
    accounts: ZapLiquidityAccountsView<'_>,
    remaining: Seq<AccountInfo>,
    program_id: Address,
    config: DexConfig,
    pool: PoolState,
    existing: Option<LpPosition>,
    amount_a: u64,
    amount_b: u64,
    min_shares: u128,
    signed_by: SignedBy,
    now: i64,
    plan: ZapPlan,
)
    requires
        zap_checks(params, accounts, remaining, config, pool, amount_a, amount_b) is Ok,
        zap_plan(params, config, pool, amount_a, amount_b) == Ok::<ZapPlan, ProgramError>(plan),
        pool.total_lp_shares > 0,
        plan.pool.reserve_a > 0,
        plan.pool.reserve_b > 0,
        plan.final_a * plan.pool.reserve_b / plan.pool.reserve_a as int <= u64::MAX,
    ensures
        ({
            let r = zap_result(
                params,
                accounts,
                remaining,
                program_id,
                config,
                pool,
                existing,
                amount_a,
                amount_b,
                min_shares,
                signed_by,
                now,
            );
            let told = |e: DexError| r == Err::<ZapOutcome, ProgramError>(ProgramError::Dex(e));
            let ra = plan.pool.reserve_a as int;
            let rb = plan.pool.reserve_b as int;
            let total = pool.total_lp_shares as int;
            let a_fits = plan.final_a * rb / ra <= plan.final_b;
            let dep_a: int = if a_fits { plan.final_a as int } else { plan.final_b * ra / rb };
            let dep_b: int = if a_fits { plan.final_a * rb / ra } else { plan.final_b as int };
            let both = dep_a > 0 && dep_b > 0;
            let fits = both && dep_a * total <= u128::MAX && dep_b * total <= u128::MAX;
            let by_a = dep_a * total / ra;
            let by_b = dep_b * total / rb;
            let shares = if by_a <= by_b { by_a } else { by_b };
            &&& told(DexError::ZeroOutput) <==> !both || (fits && shares == 0)
            &&& both && !fits ==> told(DexError::MathOverflow)
            &&& told(DexError::SlippageExceeded) <==> fits && shares > 0 && shares < min_shares
            &&& told(DexError::Unauthorized) ==> (existing matches Some(p) && p.owner
                != accounts.authority.address)
            &&& r is Ok ==> (existing matches Some(p) ==> p.owner == accounts.authority.address
                && p.pool == accounts.pool_state.address)
            &&& r == Err::<ZapOutcome, ProgramError>(ProgramError::InvalidSeeds)
                ==> existing is None
                && !may_be_credited(
                existing,
                plan.pool,
                shares,
                accounts.lp_position.address,
                program_id,
                accounts.pool_state.address,
                accounts.authority.address,
            )
        }),
{
    zap_trades_half_the_excess(params, config, pool, amount_a, amount_b);
    balanced_is_part_of_the_offer(
        plan.final_a,
        plan.final_b,
        plan.pool.reserve_a,
        plan.pool.reserve_b,
    );
    shares_fit(plan.pool);
    quotient_is_natural(
        plan.final_a as int,
        plan.pool.reserve_b as int,
        plan.pool.reserve_a as int,
    );
    quotient_is_natural(
        plan.final_b as int,
        plan.pool.reserve_a as int,
        plan.pool.reserve_b as int,
    );
    offer_is_enough(plan.final_a, plan.final_b, plan.pool.reserve_a, plan.pool.reserve_b);
    credit_is_owed(existing, plan.pool);
}

/// A zap that would be accepted whatever it mints is accepted, with the same outcome, where it
/// mints as many shares as were asked for, and is refused for the shortfall otherwise.
pub proof fn asked_shares_bound_a_zap(
    params: DexParams,
    accounts: ZapLiquidityAccountsView<'_>,
    remaining: Seq<AccountInfo>,
    program_id: Address,
    config: DexConfig,
    pool: PoolState,
    existing: Option<LpPosition>,
    amount_a: u64,
    amount_b: u64,
    min_shares: u128,
    signed_by: SignedBy,
    now: i64,
)
    ensures
        zap_result(
            params,
            accounts,
            remaining,
            program_id,
            config,
            pool,
            existing,
            amount_a,
            amount_b,
            0,
            signed_by,
            now,
        ) matches Ok(o) ==> {
            let r = zap_result(
                params,
                accounts,
                remaining,
                program_id,
                config,
                pool,
                existing,
                amount_a,
                amount_b,
                min_shares,
                signed_by,
                now,
            );
            &&& min_shares <= o.event.shares_minted ==> r == Ok::<ZapOutcome, ProgramError>(o)
            &&& min_shares > o.event.shares_minted ==> r == Err::<ZapOutcome, ProgramError>(
                ProgramError::Dex(DexError::SlippageExceeded),
            )
        },
{
}

/// The refusals of every zap, each with the first condition that fails; and a wallet's zap is one
/// that the transaction signs, into any pool but a ladder.
pub proof fn zap_refusals_are_told(
    params: DexParams,
    accounts: ZapLiquidityAccountsView<'_>,
    remaining: Seq<AccountInfo>,
    program_id: Address,
    config: DexConfig,
    pool: PoolState,
    existing: Option<LpPosition>,
    amount_a: u64,
    amount_b: u64,
    min_shares: u128,
    signed_by: SignedBy,
    now: i64,
)
    ensures
        ({
            let r = zap_result(
                params,
                accounts,
                remaining,
                program_id,
                config,
                pool,
                existing,
                amount_a,
                amount_b,
                min_shares,
                signed_by,
                now,
            );
            let told = |e: DexError| r == Err::<ZapOutcome, ProgramError>(ProgramError::Dex(e));
            let runs = config.is_active && pool.is_active;
            let some = amount_a > 0 || amount_b > 0;
            let vaults = accounts.vault_a.address == pool.vault_a && accounts.vault_b.address
                == pool.vault_b;
            let paid_to = accounts.areal_fee_account.address == config.areal_fee_destination;
            let mint = accounts.areal_fee_account.token_mint();
            &&& !config.is_active ==> told(DexError::DexPaused)
            &&& config.is_active && !pool.is_active ==> told(DexError::PoolNotActive)
            &&& runs && !some ==> told(DexError::ZeroAmount)
            &&& runs && some && !vaults ==> told(DexError::InvalidVault)
            &&& runs && some && vaults && !paid_to ==> told(DexError::InvalidTokenAccount)
            &&& runs && some && vaults && paid_to && (mint matches Ok(m) && m != params.rwt_mint)
                ==> told(DexError::InvalidProtocolFeeDestination)
            &&& runs && some && vaults && paid_to && mint == Ok::<Address, ProgramError>(
                params.rwt_mint,
            ) && pool.has_ot_treasury && remaining.len() == 0 ==> told(
                DexError::MissingOtTreasuryAccount,
            )
            &&& runs && some && vaults && paid_to && mint == Ok::<Address, ProgramError>(
                params.rwt_mint,
            ) && pool.has_ot_treasury && remaining.len() > 0 && remaining[0].address
                != pool.ot_treasury_fee_destination ==> told(DexError::OtTreasuryAccountMismatch)
            &&& pool.pool_type == 1 ==> user_zap_result(
                params,
                accounts,
                remaining,
                program_id,
                config,
                pool,
                existing,
                amount_a,
                amount_b,
                min_shares,
                now,
            ) == Err::<ZapOutcome, ProgramError>(
                ProgramError::Dex(DexError::MasterPoolUserLpDisabled),
            )
            &&& pool.pool_type != 1 ==> user_zap_result(
                params,
                accounts,
                remaining,
                program_id,
                config,
                pool,
                existing,
                amount_a,
                amount_b,
                min_shares,
                now,
            ) == zap_result(
                params,
                accounts,
                remaining,
                program_id,
                config,
                pool,
                existing,
                amount_a,
                amount_b,
                min_shares,
                SignedBy::Transaction,
                now,
            )
        }),
{
}

} // verus!
