//! What deposits, withdrawals and payouts of fees give and change, in the terms of their inputs.
use vstd::prelude::*;

use crate::account::AccountInfo;
use crate::actions::{moved, CreateAccount, TokenTransfer};
use crate::address::{derived_address, Address};
use crate::error::{DexError, ProgramError};
use crate::math::{is_sqrt, sqrt_exists, sqrt_floor, sqrt_is_unique};
use crate::native_dex::constants::DexParams;
use crate::native_dex::events::LiquidityAdded;
use crate::native_dex::instructions::add_liquidity::{
    add_result, balanced_is_part_of_the_offer, user_add_result, AddLiquidityAccountsView,
    AddOutcome,
};
use crate::native_dex::instructions::claim_lp_fees::{
    claim_result, pending_fees, ClaimLpFeesAccountsView, ClaimOutcome,
};
use crate::native_dex::instructions::remove_liquidity::{
    remove_result, BinRemoval, RemoveLiquidityAccountsView, RemoveOutcome,
};
use crate::native_dex::state::{DexConfig, LpPosition, PoolState};
use crate::seeds::{bins_seed, lp_seed, SignedBy};

verus! {

/// What a share of fees comes to fits a balance wherever its product fits 128 bits.
pub proof fn accrual_fits(growth: int, shares: u128)
    ensures
        0 <= growth && growth * shares <= u128::MAX ==> 0 <= growth * shares
            / 0x1_0000_0000_0000_0000 <= u64::MAX,
{
    let p = growth * shares;
    if 0 <= growth && p <= u128::MAX {
        assert(0 <= p) by (nonlinear_arith)
            requires
                p == growth * shares,
                growth >= 0,
                shares >= 0,
        ;
    }
}

/// A quotient of naturals is natural.
pub proof fn quotient_is_natural(a: int, b: int, c: int)
    requires
        a >= 0,
        b >= 0,
        c > 0,
    ensures
        0 <= a * b / c,
        0 <= a * b,
{
    assert(0 <= a * b) by (nonlinear_arith)
        requires
            a >= 0,
            b >= 0,
    ;
    assert(0 <= (a * b) / c) by (nonlinear_arith)
        requires
            a * b >= 0,
            c > 0,
    ;
}

/// What a deposit takes and mints: a first one all that is offered, for the root of the product of
/// both amounts less the burned shares; a later one as much as stands in the ratio of the reserves,
/// one side of the offer whole, for the smaller of the two sides' parts of all shares. Nothing else
/// of the pool changes.
pub proof fn deposit_takes_what_balances(
    params: DexParams,
    accounts: AddLiquidityAccountsView<'_>,
    program_id: Address,
    config: DexConfig,
    pool: PoolState,
    existing: Option<LpPosition>,
    amount_a: u64,
    amount_b: u64,
    min_shares: u128,
    signed_by: SignedBy,
    now: i64,
)
    ensures
        add_result(
            params,
            accounts,
            program_id,
            config,
            pool,
            existing,
            amount_a,
            amount_b,
            min_shares,
            signed_by,
            now,
        ) matches Ok(o) ==> {
            let ra = pool.reserve_a as int;
            let rb = pool.reserve_b as int;
            let total = pool.total_lp_shares as int;
            let a_fits = amount_a * rb / ra <= amount_b;
            let dep_a: int = if total == 0 || a_fits {
                amount_a as int
            } else {
                amount_b * ra / rb
            };
            let dep_b: int = if total == 0 || !a_fits {
                amount_b as int
            } else {
                amount_a * rb / ra
            };
            let shares = o.event.shares_minted as int;
            let by_a = dep_a * total / ra;
            let by_b = dep_b * total / rb;
            &&& moved(o.transfer_a) == dep_a
            &&& moved(o.transfer_b) == dep_b
            &&& total > 0 ==> shares == (if by_a <= by_b { by_a } else { by_b })
            &&& total == 0 ==> is_sqrt(shares + params.min_liquidity, amount_a * amount_b)
            &&& shares > 0
            &&& shares >= min_shares
            &&& o.pool.reserve_a == ra + dep_a
            &&& o.pool.reserve_b == rb + dep_b
            &&& o.pool.total_lp_shares == total + shares + (if total == 0 {
                params.min_liquidity as int
            } else {
                0
            })
            &&& o.pool == (PoolState {
                reserve_a: o.pool.reserve_a,
                reserve_b: o.pool.reserve_b,
                total_lp_shares: o.pool.total_lp_shares,
                ..pool
            })
        },
{
    balanced_is_part_of_the_offer(amount_a, amount_b, pool.reserve_a, pool.reserve_b);
    root_fits(amount_a, amount_b);
    shares_fit(pool);
    if pool.reserve_a > 0 && pool.reserve_b > 0 {
        quotient_is_natural(amount_a as int, pool.reserve_b as int, pool.reserve_a as int);
        quotient_is_natural(amount_b as int, pool.reserve_a as int, pool.reserve_b as int);
    }
}

/// The root of a product of two balances is a balance.
pub proof fn root_fits(a: u64, b: u64)
    ensures
        is_sqrt(sqrt_floor(a * b), a * b),
        sqrt_floor(a * b) <= u64::MAX,
{
    quotient_is_natural(a as int, b as int, 1);
    sqrt_exists(a * b);
    let root = sqrt_floor(a * b);
    assert(root <= u64::MAX) by (nonlinear_arith)
        requires
            root * root <= a * b,
            0 <= a <= u64::MAX,
            0 <= b <= u64::MAX,
            root >= 0,
    ;
}

/// The parts of all shares that a deposit's two sides come to are natural and fit 128 bits where
/// their products do.
pub proof fn shares_fit(pool: PoolState)
    ensures
        pool.reserve_a > 0 ==> forall|d: u64|
            0 <= #[trigger] (d * pool.total_lp_shares) / pool.reserve_a as int && (d
                * pool.total_lp_shares <= u128::MAX ==> (d * pool.total_lp_shares)
                / pool.reserve_a as int <= u128::MAX),
        pool.reserve_b > 0 ==> forall|d: u64|
            0 <= #[trigger] (d * pool.total_lp_shares) / pool.reserve_b as int && (d
                * pool.total_lp_shares <= u128::MAX ==> (d * pool.total_lp_shares)
                / pool.reserve_b as int <= u128::MAX),
{
    if pool.reserve_a > 0 {
        assert forall|d: u64|
            0 <= #[trigger] (d * pool.total_lp_shares) / pool.reserve_a as int && (d
                * pool.total_lp_shares <= u128::MAX ==> (d * pool.total_lp_shares)
                / pool.reserve_a as int <= u128::MAX) by {
            part_fits(d as int, pool.total_lp_shares as int, pool.reserve_a as int);
        }
    }
    if pool.reserve_b > 0 {
        assert forall|d: u64|
            0 <= #[trigger] (d * pool.total_lp_shares) / pool.reserve_b as int && (d
                * pool.total_lp_shares <= u128::MAX ==> (d * pool.total_lp_shares)
                / pool.reserve_b as int <= u128::MAX) by {
            part_fits(d as int, pool.total_lp_shares as int, pool.reserve_b as int);
        }
    }
}

/// A quotient of naturals is natural and no larger than what is divided.
proof fn part_fits(a: int, b: int, c: int)
    requires
        a >= 0,
        b >= 0,
        c > 0,
    ensures
        0 <= (a * b) / c <= a * b,
{
    let p = a * b;
    assert(0 <= p) by (nonlinear_arith)
        requires
            p == a * b,
            a >= 0,
            b >= 0,
    ;
    assert(0 <= p / c <= p) by (nonlinear_arith)
        requires
            p >= 0,
            c > 0,
    ;
}

/// Whose tokens a deposit moves, and the position that it credits: all new shares, settled at the
/// pool's accumulators, with what had accrued on the old shares paid out of the pool's vaults.
pub proof fn deposit_credits_the_provider(
    params: DexParams,
    accounts: AddLiquidityAccountsView<'_>,
    program_id: Address,
    config: DexConfig,
    pool: PoolState,
    existing: Option<LpPosition>,
    amount_a: u64,
    amount_b: u64,
    min_shares: u128,
    signed_by: SignedBy,
    now: i64,
)
    ensures
        add_result(
            params,
            accounts,
            program_id,
            config,
            pool,
            existing,
            amount_a,
            amount_b,
            min_shares,
            signed_by,
            now,
        ) matches Ok(o) ==> {
            let of_pool = SignedBy::Pool {
                token_a_mint: pool.token_a_mint,
                token_b_mint: pool.token_b_mint,
                bump: pool.bump,
            };
            let pool_key = accounts.pool_state.address;
            let provider = accounts.authority.address;
            &&& o.transfer_a matches Some(t) ==> t == (TokenTransfer {
                from: accounts.provider_token_a.address,
                to: pool.vault_a,
                authority: provider,
                amount: t.amount,
                signed_by,
            })
            &&& o.transfer_b matches Some(t) ==> t == (TokenTransfer {
                from: accounts.provider_token_b.address,
                to: pool.vault_b,
                authority: provider,
                amount: t.amount,
                signed_by,
            })
            &&& o.claims.transfer_a matches Some(t) ==> t == (TokenTransfer {
                from: pool.vault_a,
                to: accounts.provider_token_a.address,
                authority: pool_key,
                amount: t.amount,
                signed_by: of_pool,
            })
            &&& o.claims.transfer_b matches Some(t) ==> t == (TokenTransfer {
                from: pool.vault_b,
                to: accounts.provider_token_b.address,
                authority: pool_key,
                amount: t.amount,
                signed_by: of_pool,
            })
            &&& o.claims.event is Some <==> moved(o.claims.transfer_a) > 0 || moved(
                o.claims.transfer_b,
            ) > 0
            &&& o.claims.event matches Some(e) ==> e.recipient == provider && e.pool == pool_key
                && e.claimable_a == moved(o.claims.transfer_a) && e.claimable_b == moved(
                o.claims.transfer_b,
            ) && e.timestamp == now
            &&& o.position.pool == pool_key
            &&& o.position.owner == provider
            &&& o.position.last_update_ts == now
            &&& o.position.fees_claimed_per_share_a == pool.cumulative_fees_per_share_a
            &&& o.position.fees_claimed_per_share_b == pool.cumulative_fees_per_share_b
            &&& match existing {
                None => {
                    &&& o.position.shares == o.event.shares_minted
                    &&& o.claims.transfer_a is None
                    &&& o.claims.transfer_b is None
                    &&& o.create_position == Some(
                        CreateAccount {
                            payer: accounts.payer.address,
                            account: accounts.lp_position.address,
                            space: 129,
                            owner: program_id,
                            signed_by: SignedBy::Position {
                                pool: pool_key,
                                provider,
                                bump: o.position.bump,
                            },
                        },
                    )
                    &&& derived_address(seq![lp_seed()@, pool_key@, provider@], program_id@)
                        == Some((accounts.lp_position.address, o.position.bump))
                },
                Some(before) => {
                    &&& before.owner == provider
                    &&& before.pool == pool_key
                    &&& o.create_position is None
                    &&& o.position.bump == before.bump
                    &&& o.position.shares == before.shares + o.event.shares_minted
                    &&& before.shares > 0 ==> moved(o.claims.transfer_a) == (
                    pool.cumulative_fees_per_share_a - before.fees_claimed_per_share_a)
                        * before.shares / 0x1_0000_0000_0000_0000
                    &&& before.shares > 0 ==> moved(o.claims.transfer_b) == (
                    pool.cumulative_fees_per_share_b - before.fees_claimed_per_share_b)
                        * before.shares / 0x1_0000_0000_0000_0000
                    &&& before.shares == 0 ==> moved(o.claims.transfer_a) == 0 && moved(
                        o.claims.transfer_b,
                    ) == 0
                },
            }
            &&& o.event == (LiquidityAdded {
                pool: pool_key,
                provider,
                amount_a: o.event.amount_a,
                amount_b: o.event.amount_b,
                shares_minted: o.event.shares_minted,
                timestamp: now,
            })
            &&& o.event.amount_a == moved(o.transfer_a)
            &&& o.event.amount_b == moved(o.transfer_b)
        },
{
    if let Some(before) = existing {
        accrual_fits(
            pool.cumulative_fees_per_share_a - before.fees_claimed_per_share_a,
            before.shares,
        );
        accrual_fits(
            pool.cumulative_fees_per_share_b - before.fees_claimed_per_share_b,
            before.shares,
        );
    }
}

/// When a deposit by the owner of an existing position is owed: the exchange and the pool run, both
/// tokens are offered, the vaults are the pool's, the shares are some and no fewer than asked for,
/// the position has a settled past, and no number outgrows its field.
pub proof fn later_deposit_is_owed(
    params: DexParams,
    accounts: AddLiquidityAccountsView<'_>,
    program_id: Address,
    config: DexConfig,
    pool: PoolState,
    existing: Option<LpPosition>,
    amount_a: u64,
    amount_b: u64,
    min_shares: u128,
    signed_by: SignedBy,
    now: i64,
    position: LpPosition,
)
    requires
        existing == Some(position),
        pool.total_lp_shares > 0,
        pool.reserve_a > 0,
        pool.reserve_b > 0,
        amount_a * pool.reserve_b / pool.reserve_a as int <= u64::MAX,
    ensures
        ({
            let ra = pool.reserve_a as int;
            let rb = pool.reserve_b as int;
            let total = pool.total_lp_shares as int;
            let a_fits = amount_a * rb / ra <= amount_b;
            let dep_a: int = if a_fits { amount_a as int } else { amount_b * ra / rb };
            let dep_b: int = if a_fits { amount_a * rb / ra } else { amount_b as int };
            let by_a = dep_a * total / ra;
            let by_b = dep_b * total / rb;
            let shares = if by_a <= by_b { by_a } else { by_b };
            let growth_a = pool.cumulative_fees_per_share_a - position.fees_claimed_per_share_a;
            let growth_b = pool.cumulative_fees_per_share_b - position.fees_claimed_per_share_b;
            let accepted = {
                &&& config.is_active
                &&& pool.is_active
                &&& amount_a > 0
                &&& amount_b > 0
                &&& accounts.vault_a.address == pool.vault_a
                &&& accounts.vault_b.address == pool.vault_b
                &&& shares > 0
                &&& shares >= min_shares
                &&& position.owner == accounts.authority.address
                &&& position.pool == accounts.pool_state.address
                &&& position.shares > 0 ==> growth_a >= 0 && growth_b >= 0 && growth_a
                    * position.shares <= u128::MAX && growth_b * position.shares <= u128::MAX
                &&& dep_a * total <= u128::MAX
                &&& dep_b * total <= u128::MAX
                &&& ra + dep_a <= u64::MAX
                &&& rb + dep_b <= u64::MAX
                &&& total + shares <= u128::MAX
                &&& position.shares + shares <= u128::MAX
            };
            add_result(
                params,
                accounts,
                program_id,
                config,
                pool,
                existing,
                amount_a,
                amount_b,
                min_shares,
                signed_by,
                now,
            ) is Ok <==> accepted
        }),
{
    balanced_is_part_of_the_offer(amount_a, amount_b, pool.reserve_a, pool.reserve_b);
    shares_fit(pool);
    quotient_is_natural(amount_a as int, pool.reserve_b as int, pool.reserve_a as int);
    quotient_is_natural(amount_b as int, pool.reserve_a as int, pool.reserve_b as int);
    accrual_fits(
        pool.cumulative_fees_per_share_a - position.fees_claimed_per_share_a,
        position.shares,
    );
    accrual_fits(
        pool.cumulative_fees_per_share_b - position.fees_claimed_per_share_b,
        position.shares,
    );
    if amount_a * pool.reserve_b / pool.reserve_a as int > amount_b {
        let a = amount_a as int;
        let b = amount_b as int;
        let ra = pool.reserve_a as int;
        let rb = pool.reserve_b as int;
        assert(b * ra / rb <= a) by (nonlinear_arith)
            requires
                ra > 0,
                rb > 0,
                a >= 0,
                b >= 0,
                a * rb / ra > b,
        ;
    }
}

/// Whether `shares` may be credited to a position of `provider` in `pool_key`: to one that is
/// theirs, whose accrued fees and sum of shares fit, or to a new one at its derived address.
pub open spec fn may_be_credited(
    existing: Option<LpPosition>,
    pool: PoolState,
    shares: int,
    lp_position: Address,
    program_id: Address,
    pool_key: Address,
    provider: Address,
) -> bool {
    match existing {
        None => derived_address(seq![lp_seed()@, pool_key@, provider@], program_id@) matches Some(
            found,
        ) && found.0 == lp_position,
        Some(position) => {
            let growth_a = pool.cumulative_fees_per_share_a - position.fees_claimed_per_share_a;
            let growth_b = pool.cumulative_fees_per_share_b - position.fees_claimed_per_share_b;
            &&& position.owner == provider
            &&& position.pool == pool_key
            &&& position.shares > 0 ==> growth_a >= 0 && growth_b >= 0 && growth_a * position.shares
                <= u128::MAX && growth_b * position.shares <= u128::MAX
            &&& position.shares + shares <= u128::MAX
        },
    }
}

/// A position's accrued fees fit where their products do.
pub proof fn credit_is_owed(existing: Option<LpPosition>, pool: PoolState)
    ensures
        existing matches Some(position) ==> {
            let growth_a = pool.cumulative_fees_per_share_a - position.fees_claimed_per_share_a;
            let growth_b = pool.cumulative_fees_per_share_b - position.fees_claimed_per_share_b;
            pending_fees(pool, position) is Ok <==> growth_a >= 0 && growth_b >= 0 && growth_a
                * position.shares <= u128::MAX && growth_b * position.shares <= u128::MAX
        },
{
    if let Some(position) = existing {
        accrual_fits(
            pool.cumulative_fees_per_share_a - position.fees_claimed_per_share_a,
            position.shares,
        );
        accrual_fits(
            pool.cumulative_fees_per_share_b - position.fees_claimed_per_share_b,
            position.shares,
        );
    }
}

/// Where the first amount asks for more of the second than there is, the second amount asks for no
/// more of the first than there is.
pub proof fn offer_is_enough(amount_a: u64, amount_b: u64, reserve_a: u64, reserve_b: u64)
    requires
        reserve_a > 0,
        reserve_b > 0,
    ensures
        amount_a * reserve_b / reserve_a as int > amount_b ==> amount_b * reserve_a
            / reserve_b as int <= amount_a,
{
    let a = amount_a as int;
    let b = amount_b as int;
    let ra = reserve_a as int;
    let rb = reserve_b as int;
    if a * rb / ra > b {
        assert(b * ra / rb <= a) by (nonlinear_arith)
            requires
                ra > 0,
                rb > 0,
                a >= 0,
                b >= 0,
                a * rb / ra > b,
        ;
    }
}

/// When a deposit that opens a position in a pool that has providers is accepted: as any other, but
/// the position's account must sit at its derived address.
pub proof fn opening_deposit_is_owed(
    params: DexParams,
    accounts: AddLiquidityAccountsView<'_>,
    program_id: Address,
    config: DexConfig,
    pool: PoolState,
    existing: Option<LpPosition>,
    amount_a: u64,
    amount_b: u64,
    min_shares: u128,
    signed_by: SignedBy,
    now: i64,
)
    requires
        existing is None,
        pool.total_lp_shares > 0,
        pool.reserve_a > 0,
        pool.reserve_b > 0,
        amount_a * pool.reserve_b / pool.reserve_a as int <= u64::MAX,
    ensures
        ({
            let ra = pool.reserve_a as int;
            let rb = pool.reserve_b as int;
            let total = pool.total_lp_shares as int;
            let a_fits = amount_a * rb / ra <= amount_b;
            let dep_a: int = if a_fits { amount_a as int } else { amount_b * ra / rb };
            let dep_b: int = if a_fits { amount_a * rb / ra } else { amount_b as int };
            let by_a = dep_a * total / ra;
            let by_b = dep_b * total / rb;
            let shares = if by_a <= by_b { by_a } else { by_b };
            let accepted = {
                &&& config.is_active
                &&& pool.is_active
                &&& amount_a > 0
                &&& amount_b > 0
                &&& accounts.vault_a.address == pool.vault_a
                &&& accounts.vault_b.address == pool.vault_b
                &&& shares > 0
                &&& shares >= min_shares
                &&& dep_a * total <= u128::MAX
                &&& dep_b * total <= u128::MAX
                &&& ra + dep_a <= u64::MAX
                &&& rb + dep_b <= u64::MAX
                &&& total + shares <= u128::MAX
                &&& may_be_credited(
                    existing,
                    pool,
                    shares,
                    accounts.lp_position.address,
                    program_id,
                    accounts.pool_state.address,
                    accounts.authority.address,
                )
            };
            add_result(
                params,
                accounts,
                program_id,
                config,
                pool,
                existing,
                amount_a,
                amount_b,
                min_shares,
                signed_by,
                now,
            ) is Ok <==> accepted
        }),
{
    balanced_is_part_of_the_offer(amount_a, amount_b, pool.reserve_a, pool.reserve_b);
    shares_fit(pool);
    quotient_is_natural(amount_a as int, pool.reserve_b as int, pool.reserve_a as int);
    quotient_is_natural(amount_b as int, pool.reserve_a as int, pool.reserve_b as int);
    offer_is_enough(amount_a, amount_b, pool.reserve_a, pool.reserve_b);
}

/// Why a deposit whose accounts are right is refused, in a pool that has providers: it mints
/// nothing, or fewer shares than were asked for, or a sum does not fit, or the position is someone
/// else's, another pool's, or not at its derived address.
pub proof fn failed_deposits_are_told(
    params: DexParams,
    accounts: AddLiquidityAccountsView<'_>,
    program_id: Address,
    config: DexConfig,
    pool: PoolState,
    existing: Option<LpPosition>,
    amount_a: u64,
    amount_b: u64,
    min_shares: u128,
    signed_by: SignedBy,
    now: i64,
)
    requires
        config.is_active,
        pool.is_active,
        amount_a > 0,
        amount_b > 0,
        accounts.vault_a.address == pool.vault_a,
        accounts.vault_b.address == pool.vault_b,
        pool.total_lp_shares > 0,
    ensures
        ({
            let r = add_result(
                params,
                accounts,
                program_id,
                config,
                pool,
                existing,
                amount_a,
                amount_b,
                min_shares,
                signed_by,
                now,
            );
            let told = |e: DexError| r == Err::<AddOutcome, ProgramError>(ProgramError::Dex(e));
            let ra = pool.reserve_a as int;
            let rb = pool.reserve_b as int;
            let total = pool.total_lp_shares as int;
            let a_fits = amount_a * rb / ra <= amount_b;
            let dep_a: int = if a_fits { amount_a as int } else { amount_b * ra / rb };
            let dep_b: int = if a_fits { amount_a * rb / ra } else { amount_b as int };
            let fits = ra > 0 && rb > 0 && amount_a * rb / ra <= u64::MAX && dep_a * total
                <= u128::MAX && dep_b * total <= u128::MAX;
            let by_a = dep_a * total / ra;
            let by_b = dep_b * total / rb;
            let shares = if by_a <= by_b { by_a } else { by_b };
            let enough = fits && shares > 0 && shares >= min_shares;
            let held = enough && ra + dep_a <= u64::MAX && rb + dep_b <= u64::MAX && total + shares
                <= u128::MAX;
            &&& !fits ==> told(DexError::MathOverflow)
            &&& told(DexError::ZeroOutput) <==> fits && shares == 0
            &&& told(DexError::SlippageExceeded) <==> fits && shares > 0 && shares < min_shares
            &&& enough && !held ==> told(DexError::MathOverflow)
            &&& told(DexError::Unauthorized) <==> held && (existing matches Some(p) && p.owner
                != accounts.authority.address)
            &&& told(DexError::InvalidVault) <==> held && (existing matches Some(p) && p.owner
                == accounts.authority.address && p.pool != accounts.pool_state.address)
            &&& r == Err::<AddOutcome, ProgramError>(ProgramError::InvalidSeeds) <==> held
                && existing is None && !may_be_credited(
                existing,
                pool,
                shares,
                accounts.lp_position.address,
                program_id,
                accounts.pool_state.address,
                accounts.authority.address,
            )
        }),
{
    balanced_is_part_of_the_offer(amount_a, amount_b, pool.reserve_a, pool.reserve_b);
    shares_fit(pool);
    if pool.reserve_a > 0 && pool.reserve_b > 0 {
        quotient_is_natural(amount_a as int, pool.reserve_b as int, pool.reserve_a as int);
        quotient_is_natural(amount_b as int, pool.reserve_a as int, pool.reserve_b as int);
        offer_is_enough(amount_a, amount_b, pool.reserve_a, pool.reserve_b);
    } else if pool.reserve_a > 0 {
        assert(amount_a * pool.reserve_b == 0) by (nonlinear_arith)
            requires
                pool.reserve_b == 0,
        ;
    }
    credit_is_owed(existing, pool);
}

/// A deposit that would be accepted whatever it mints is accepted, with the same outcome, where it
/// mints as many shares as were asked for, and is refused for the shortfall otherwise.
pub proof fn asked_shares_bound_a_deposit(
    params: DexParams,
    accounts: AddLiquidityAccountsView<'_>,
    program_id: Address,
    config: DexConfig,
    pool: PoolState,
    existing: Option<LpPosition>,
    amount_a: u64,
    amount_b: u64,
    min_shares: u128,
    signed_by: SignedBy,
    now: i64,
)
    ensures
        add_result(
            params,
            accounts,
            program_id,
            config,
            pool,
            existing,
            amount_a,
            amount_b,
            0,
            signed_by,
            now,
        ) matches Ok(o) ==> {
            let r = add_result(
                params,
                accounts,
                program_id,
                config,
                pool,
                existing,
                amount_a,
                amount_b,
                min_shares,
                signed_by,
                now,
            );
            &&& min_shares <= o.event.shares_minted ==> r == Ok::<AddOutcome, ProgramError>(o)
            &&& min_shares > o.event.shares_minted ==> r == Err::<AddOutcome, ProgramError>(
                ProgramError::Dex(DexError::SlippageExceeded),
            )
        },
{
}

/// When the first deposit of all is owed: to a position that may be credited, of amounts whose root
/// exceeds the burned shares by at least one and by what was asked for.
pub proof fn first_deposit_is_owed(
    params: DexParams,
    accounts: AddLiquidityAccountsView<'_>,
    program_id: Address,
    config: DexConfig,
    pool: PoolState,
    existing: Option<LpPosition>,
    amount_a: u64,
    amount_b: u64,
    min_shares: u128,
    signed_by: SignedBy,
    now: i64,
    root: int,
)
    requires
        pool.total_lp_shares == 0,
        is_sqrt(root, amount_a * amount_b),
        config.is_active,
        pool.is_active,
        amount_a > 0,
        amount_b > 0,
        accounts.vault_a.address == pool.vault_a,
        accounts.vault_b.address == pool.vault_b,
        pool.reserve_a + amount_a <= u64::MAX,
        pool.reserve_b + amount_b <= u64::MAX,
        may_be_credited(
            existing,
            pool,
            root - params.min_liquidity,
            accounts.lp_position.address,
            program_id,
            accounts.pool_state.address,
            accounts.authority.address,
        ),
    ensures
        add_result(
            params,
            accounts,
            program_id,
            config,
            pool,
            existing,
            amount_a,
            amount_b,
            min_shares,
            signed_by,
            now,
        ) is Ok <==> root > params.min_liquidity && root - params.min_liquidity >= min_shares,
{
    root_fits(amount_a, amount_b);
    credit_is_owed(existing, pool);
    sqrt_is_unique(root, sqrt_floor(amount_a * amount_b), amount_a * amount_b);
}

/// The refusals of every deposit, each with the first condition that fails; and a wallet's deposit
/// is one that the transaction signs, into any pool but a ladder.
pub proof fn deposit_refusals_are_told(
    params: DexParams,
    accounts: AddLiquidityAccountsView<'_>,
    program_id: Address,
    config: DexConfig,
    pool: PoolState,
    existing: Option<LpPosition>,
    amount_a: u64,
    amount_b: u64,
    min_shares: u128,
    signed_by: SignedBy,
    now: i64,
)
    ensures
        ({
            let r = add_result(
                params,
                accounts,
                program_id,
                config,
                pool,
                existing,
                amount_a,
                amount_b,
                min_shares,
                signed_by,
                now,
            );
            let told = |e: DexError| r == Err::<AddOutcome, ProgramError>(ProgramError::Dex(e));
            let runs = config.is_active && pool.is_active;
            let both = amount_a > 0 && amount_b > 0;
            let vaults = accounts.vault_a.address == pool.vault_a && accounts.vault_b.address
                == pool.vault_b;
            &&& !config.is_active ==> told(DexError::DexPaused)
            &&& config.is_active && !pool.is_active ==> told(DexError::PoolNotActive)
            &&& runs && !both ==> told(DexError::ZeroAmount)
            &&& runs && both && !vaults ==> told(DexError::InvalidVault)
            &&& told(DexError::SlippageExceeded) ==> min_shares > 1
            &&& told(DexError::Unauthorized) ==> (existing matches Some(p) && p.owner
                != accounts.authority.address)
            &&& pool.pool_type == 1 ==> user_add_result(
                params,
                accounts,
                program_id,
                config,
                pool,
                existing,
                amount_a,
                amount_b,
                min_shares,
                now,
            ) == Err::<AddOutcome, ProgramError>(
                ProgramError::Dex(DexError::MasterPoolUserLpDisabled),
            )
            &&& pool.pool_type != 1 ==> user_add_result(
                params,
                accounts,
                program_id,
                config,
                pool,
                existing,
                amount_a,
                amount_b,
                min_shares,
                now,
            ) == add_result(
                params,
                accounts,
                program_id,
                config,
                pool,
                existing,
                amount_a,
                amount_b,
                min_shares,
                SignedBy::Transaction,
                now,
            )
        }),
{
}

/// What a withdrawal pays and changes: the burned shares' part of each reserve, floored, out of the
/// pool's vaults, besides all that the position had accrued. Reserves, all shares and the position
/// fall by what was paid and burned. A ladder pool's bins are ordered to give up the same part of
/// all shares. A position left without shares is closed in favour of its owner.
pub proof fn withdrawal_pays_its_part(
    accounts: RemoveLiquidityAccountsView<'_>,
    remaining: Seq<AccountInfo>,
    program_id: Address,
    pool: PoolState,
    position: LpPosition,
    shares_to_burn: u128,
    now: i64,
)
    ensures
        remove_result(
            accounts,
            remaining,
            program_id,
            pool,
            position,
            shares_to_burn,
            now,
        ) matches Ok(o) ==> {
            let of_pool = SignedBy::Pool {
                token_a_mint: pool.token_a_mint,
                token_b_mint: pool.token_b_mint,
                bump: pool.bump,
            };
            let pool_key = accounts.pool_state.address;
            let provider = accounts.authority.address;
            let total = pool.total_lp_shares as int;
            let paid_a = shares_to_burn * pool.reserve_a / total;
            let paid_b = shares_to_burn * pool.reserve_b / total;
            let claim_a = (pool.cumulative_fees_per_share_a - position.fees_claimed_per_share_a)
                * position.shares / 0x1_0000_0000_0000_0000;
            let claim_b = (pool.cumulative_fees_per_share_b - position.fees_claimed_per_share_b)
                * position.shares / 0x1_0000_0000_0000_0000;
            &&& moved(o.transfer_a) == paid_a
            &&& moved(o.transfer_b) == paid_b
            &&& moved(o.claims.transfer_a) == claim_a
            &&& moved(o.claims.transfer_b) == claim_b
            &&& o.transfer_a matches Some(t) ==> t.from == pool.vault_a && t.to
                == accounts.provider_token_a.address && t.authority == pool_key && t.signed_by
                == of_pool
            &&& o.transfer_b matches Some(t) ==> t.from == pool.vault_b && t.to
                == accounts.provider_token_b.address && t.authority == pool_key && t.signed_by
                == of_pool
            &&& o.claims.transfer_a matches Some(t) ==> t.from == pool.vault_a && t.to
                == accounts.provider_token_a.address && t.authority == pool_key && t.signed_by
                == of_pool
            &&& o.claims.transfer_b matches Some(t) ==> t.from == pool.vault_b && t.to
                == accounts.provider_token_b.address && t.authority == pool_key && t.signed_by
                == of_pool
            &&& o.claims.event is Some <==> claim_a > 0 || claim_b > 0
            &&& o.claims.event matches Some(e) ==> e.recipient == provider && e.pool == pool_key
                && e.claimable_a == claim_a && e.claimable_b == claim_b && e.timestamp == now
            &&& o.pool.reserve_a == pool.reserve_a - paid_a
            &&& o.pool.reserve_b == pool.reserve_b - paid_b
            &&& o.pool.total_lp_shares == total - shares_to_burn
            &&& o.pool == (PoolState {
                reserve_a: o.pool.reserve_a,
                reserve_b: o.pool.reserve_b,
                total_lp_shares: o.pool.total_lp_shares,
                ..pool
            })
            &&& o.position.shares == position.shares - shares_to_burn
            &&& o.position == (LpPosition {
                shares: o.position.shares,
                last_update_ts: now,
                fees_claimed_per_share_a: pool.cumulative_fees_per_share_a,
                fees_claimed_per_share_b: pool.cumulative_fees_per_share_b,
                ..position
            })
            &&& o.bins == if pool.pool_type == 1 {
                Some(BinRemoval { shares_to_burn, total_lp_shares: pool.total_lp_shares })
            } else {
                None
            }
            &&& o.close is Some <==> shares_to_burn == position.shares
            &&& o.close matches Some(c) ==> c.account == accounts.lp_position.address && c.recipient
                == provider && c.recipient_lamports == accounts.authority.lamports
                + accounts.lp_position.lamports
            &&& o.event.pool == pool_key
            &&& o.event.provider == provider
            &&& o.event.amount_a == paid_a
            &&& o.event.amount_b == paid_b
            &&& o.event.shares_burned == shares_to_burn
            &&& o.event.timestamp == now
        },
{
    accrual_fits(
        pool.cumulative_fees_per_share_a - position.fees_claimed_per_share_a,
        position.shares,
    );
    accrual_fits(
        pool.cumulative_fees_per_share_b - position.fees_claimed_per_share_b,
        position.shares,
    );
    if pool.total_lp_shares > 0 {
        quotient_is_natural(
            shares_to_burn as int,
            pool.reserve_a as int,
            pool.total_lp_shares as int,
        );
        quotient_is_natural(
            shares_to_burn as int,
            pool.reserve_b as int,
            pool.total_lp_shares as int,
        );
    }
}

/// When a withdrawal is owed, paused or not: to the owner of enough shares of this very pool, whose
/// vaults are passed, with a ladder pool's bins among the accounts, and where no product outgrows
/// 128 bits.
pub proof fn withdrawal_is_owed(
    accounts: RemoveLiquidityAccountsView<'_>,
    remaining: Seq<AccountInfo>,
    program_id: Address,
    pool: PoolState,
    position: LpPosition,
    shares_to_burn: u128,
    now: i64,
)
    ensures
        ({
            let growth_a = pool.cumulative_fees_per_share_a - position.fees_claimed_per_share_a;
            let growth_b = pool.cumulative_fees_per_share_b - position.fees_claimed_per_share_b;
            let accepted = {
                &&& 0 < shares_to_burn <= position.shares
                &&& shares_to_burn <= pool.total_lp_shares
                &&& accounts.vault_a.address == pool.vault_a
                &&& accounts.vault_b.address == pool.vault_b
                &&& position.owner == accounts.authority.address
                &&& position.pool == accounts.pool_state.address
                &&& growth_a >= 0
                &&& growth_b >= 0
                &&& growth_a * position.shares <= u128::MAX
                &&& growth_b * position.shares <= u128::MAX
                &&& shares_to_burn * pool.reserve_a <= u128::MAX
                &&& shares_to_burn * pool.reserve_b <= u128::MAX
                &&& pool.pool_type == 1 ==> remaining.len() > 0 && remaining[0].derives_from_2(
                    bins_seed()@,
                    accounts.pool_state.address@,
                    program_id,
                )
                &&& shares_to_burn == position.shares ==> accounts.authority.lamports
                    + accounts.lp_position.lamports <= u64::MAX
            };
            remove_result(
                accounts,
                remaining,
                program_id,
                pool,
                position,
                shares_to_burn,
                now,
            ) is Ok <==> accepted
        }),
{
    accrual_fits(
        pool.cumulative_fees_per_share_a - position.fees_claimed_per_share_a,
        position.shares,
    );
    accrual_fits(
        pool.cumulative_fees_per_share_b - position.fees_claimed_per_share_b,
        position.shares,
    );
    if shares_to_burn <= pool.total_lp_shares && pool.total_lp_shares > 0 {
        part_of_reserve(
            shares_to_burn as int,
            pool.reserve_a as int,
            pool.total_lp_shares as int,
        );
        part_of_reserve(
            shares_to_burn as int,
            pool.reserve_b as int,
            pool.total_lp_shares as int,
        );
    }
}

/// The part of a reserve that some of all shares come to is no more than the reserve.
proof fn part_of_reserve(shares: int, reserve: int, total: int)
    requires
        0 <= shares <= total,
        0 <= reserve,
        total > 0,
    ensures
        0 <= shares * reserve / total <= reserve,
{
    let p = shares * reserve;
    assert(0 <= p / total <= reserve) by (nonlinear_arith)
        requires
            p == shares * reserve,
            0 <= shares <= total,
            0 <= reserve,
            total > 0,
    ;
}

/// The refusals of every withdrawal, each with the first condition that fails.
pub proof fn withdrawal_refusals_are_told(
    accounts: RemoveLiquidityAccountsView<'_>,
    remaining: Seq<AccountInfo>,
    program_id: Address,
    pool: PoolState,
    position: LpPosition,
    shares_to_burn: u128,
    now: i64,
)
    ensures
        ({
            let r = remove_result(
                accounts,
                remaining,
                program_id,
                pool,
                position,
                shares_to_burn,
                now,
            );
            let told = |e: DexError| r == Err::<RemoveOutcome, ProgramError>(ProgramError::Dex(e));
            let vaults = accounts.vault_a.address == pool.vault_a && accounts.vault_b.address
                == pool.vault_b;
            let owned = position.owner == accounts.authority.address;
            let placed = position.pool == accounts.pool_state.address;
            &&& shares_to_burn == 0 ==> told(DexError::ZeroAmount)
            &&& shares_to_burn > 0 && !vaults ==> told(DexError::InvalidVault)
            &&& shares_to_burn > 0 && vaults && !owned ==> told(DexError::Unauthorized)
            &&& shares_to_burn > 0 && vaults && owned && !placed ==> told(DexError::InvalidVault)
            &&& told(DexError::InsufficientShares) <==> shares_to_burn > 0 && vaults && owned
                && placed && position.shares < shares_to_burn
        }),
{
}

/// What a payout gives and changes: what the position's shares earned since it was last settled,
/// floored, on each side out of the pool's vault to the owner's account. The position is settled at
/// the pool's accumulators and keeps its shares.
pub proof fn payout_gives_what_accrued(
    accounts: ClaimLpFeesAccountsView<'_>,
    pool: PoolState,
    position: LpPosition,
    now: i64,
)
    ensures
        claim_result(accounts, pool, position, now) matches Ok(o) ==> {
            let of_pool = SignedBy::Pool {
                token_a_mint: pool.token_a_mint,
                token_b_mint: pool.token_b_mint,
                bump: pool.bump,
            };
            let pool_key = accounts.pool_state.address;
            let claim_a = (pool.cumulative_fees_per_share_a - position.fees_claimed_per_share_a)
                * position.shares / 0x1_0000_0000_0000_0000;
            let claim_b = (pool.cumulative_fees_per_share_b - position.fees_claimed_per_share_b)
                * position.shares / 0x1_0000_0000_0000_0000;
            &&& moved(o.transfer_a) == claim_a
            &&& moved(o.transfer_b) == claim_b
            &&& o.transfer_a matches Some(t) ==> t.from == pool.vault_a && t.to
                == accounts.authority_token_a.address && t.authority == pool_key && t.signed_by
                == of_pool
            &&& o.transfer_b matches Some(t) ==> t.from == pool.vault_b && t.to
                == accounts.authority_token_b.address && t.authority == pool_key && t.signed_by
                == of_pool
            &&& o.position == (LpPosition {
                last_update_ts: now,
                fees_claimed_per_share_a: pool.cumulative_fees_per_share_a,
                fees_claimed_per_share_b: pool.cumulative_fees_per_share_b,
                ..position
            })
            &&& o.event.recipient == accounts.authority.address
            &&& o.event.pool == pool_key
            &&& o.event.claimable_a == claim_a
            &&& o.event.claimable_b == claim_b
            &&& o.event.timestamp == now
        },
{
    accrual_fits(
        pool.cumulative_fees_per_share_a - position.fees_claimed_per_share_a,
        position.shares,
    );
    accrual_fits(
        pool.cumulative_fees_per_share_b - position.fees_claimed_per_share_b,
        position.shares,
    );
}

/// When a payout is owed, and how it is refused: to the owner of a position of this very pool, with
/// the pool's vaults, where the position's past is not ahead of the pool's.
pub proof fn payout_is_owed(
    accounts: ClaimLpFeesAccountsView<'_>,
    pool: PoolState,
    position: LpPosition,
    now: i64,
)
    ensures
        ({
            let r = claim_result(accounts, pool, position, now);
            let told = |e: DexError| r == Err::<ClaimOutcome, ProgramError>(ProgramError::Dex(e));
            let vaults = accounts.pool_vault_a.address == pool.vault_a
                && accounts.pool_vault_b.address == pool.vault_b;
            let placed = position.pool == accounts.pool_state.address;
            let owned = position.owner == accounts.authority.address;
            let growth_a = pool.cumulative_fees_per_share_a - position.fees_claimed_per_share_a;
            let growth_b = pool.cumulative_fees_per_share_b - position.fees_claimed_per_share_b;
            let countable = growth_a >= 0 && growth_b >= 0 && growth_a * position.shares
                <= u128::MAX && growth_b * position.shares <= u128::MAX;
            &&& r is Ok <==> vaults && placed && owned && countable
            &&& told(DexError::InvalidVault) <==> !vaults
            &&& told(DexError::InvalidLpPosition) <==> vaults && !placed
            &&& told(DexError::Unauthorized) <==> vaults && placed && !owned
            &&& told(DexError::MathOverflow) <==> vaults && placed && owned && !countable
        }),
{
}

} // verus!
