//! Distribution of a project's revenue to its destinations.
use vstd::prelude::*;

use crate::account::{read_token_account_mint, AccountInfo, Context};
use crate::actions::{transfer_if_any, transfer_unless_zero, TokenTransfer};
use crate::address::{address_eq, Address};
use crate::bytes::{address_at, read_address, read_u64, u64_at};
use crate::error::{OtError, ProgramError};
use crate::math::{mul_div_u64, mul_div_u64_round_up};
use crate::ownership_token::constants::{
    AREAL_PROTOCOL_FEE_BPS, BPS_DENOMINATOR, DISTRIBUTION_COOLDOWN,
};
use crate::ownership_token::events::RevenueDistributed;
use crate::ownership_token::state::{RevenueAccount, RevenueConfig, RevenueDestination};
use crate::programs::spl_token_program;
use crate::seeds::SignedBy;

verus! {

/// The accounts of a distribution. The destinations' accounts follow the named ones.
pub struct DistributeRevenue {
    pub crank: AccountInfo,
    pub ot_mint: AccountInfo,
    pub revenue_account: AccountInfo,
    pub revenue_token_account: AccountInfo,
    pub revenue_config: AccountInfo,
    pub areal_fee_account: AccountInfo,
    pub token_program: AccountInfo,
}

/// An accepted distribution.
#[derive(Debug, PartialEq, Eq)]
pub struct DistributeOutcome {
    /// The revenue account while the fee and the payouts are made: it counts the distribution and
    /// is marked, so that another one is refused.
    pub in_progress: RevenueAccount,
    /// The revenue account once they are made.
    pub revenue: RevenueAccount,
    pub fee: Option<TokenTransfer>,
    /// One entry per destination; nothing where its share is zero.
    pub payouts: Vec<Option<TokenTransfer>>,
    pub event: RevenueDistributed,
}

/// Sum of the first `n` allocations.
pub open spec fn bps_of_first(destinations: Seq<RevenueDestination>, n: nat) -> int
    decreases n,
{
    if n == 0 {
        0
    } else {
        bps_of_first(destinations, (n - 1) as nat) + destinations[n - 1].allocation_bps
    }
}

/// The protocol's part of `balance`, rounded up.
pub open spec fn protocol_fee(balance: u64) -> int {
    (balance * AREAL_PROTOCOL_FEE_BPS + BPS_DENOMINATOR - 1) / BPS_DENOMINATOR as int
}

/// A destination's part of `amount`, rounded down.
pub open spec fn allotment(amount: int, destination: RevenueDestination) -> int {
    (amount * destination.allocation_bps) / BPS_DENOMINATOR as int
}

/// Sum of the first `n` allotments.
pub open spec fn allotted_to_first(
    amount: int,
    destinations: Seq<RevenueDestination>,
    n: nat,
) -> int
    decreases n,
{
    if n == 0 {
        0
    } else {
        allotted_to_first(amount, destinations, (n - 1) as nat) + allotment(
            amount,
            destinations[n - 1],
        )
    }
}

/// What destination `i` receives of `amount`: its allotment, and for the last one all the rest.
pub open spec fn share(amount: int, destinations: Seq<RevenueDestination>, i: int) -> int {
    if i == destinations.len() - 1 {
        amount - allotted_to_first(amount, destinations, i as nat)
    } else {
        allotment(amount, destinations[i])
    }
}

/// Sum of the first `n` shares.
pub open spec fn shares_of_first(
    amount: int,
    destinations: Seq<RevenueDestination>,
    n: nat,
) -> int
    decreases n,
{
    if n == 0 {
        0
    } else {
        shares_of_first(amount, destinations, (n - 1) as nat) + share(amount, destinations, n - 1)
    }
}

/// Whether a destination's account is the right one: the listed address, a token account, of the
/// distributed token.
pub open spec fn destination_check(
    destination: RevenueDestination,
    account: AccountInfo,
    mint: Address,
) -> Result<(), ProgramError> {
    if account.address != destination.address {
        Err(ProgramError::Ot(OtError::DestinationAccountMismatch))
    } else if account.owner != spl_token_program() {
        Err(ProgramError::Ot(OtError::InvalidTokenAccountOwner))
    } else if account.token_mint() != Ok::<Address, ProgramError>(mint) {
        Err(ProgramError::Ot(OtError::TokenMintMismatch))
    } else {
        Ok(())
    }
}

/// What is wrong with the first destination, from number `i` on, whose account is not right.
pub open spec fn destinations_check(
    destinations: Seq<RevenueDestination>,
    accounts: Seq<AccountInfo>,
    mint: Address,
    i: nat,
) -> Result<(), ProgramError>
    decreases destinations.len() - i,
{
    if i >= destinations.len() {
        Ok(())
    } else {
        match destination_check(destinations[i as int], accounts[i as int], mint) {
            Err(e) => Err(e),
            Ok(_) => destinations_check(destinations, accounts, mint, i + 1),
        }
    }
}

/// The balance that a distribution may hand out, or why it is refused: the revenue's own
/// conditions.
pub open spec fn distributable(accounts: DistributeRevenue, revenue: RevenueAccount, now: i64) -> Result<
    u64,
    ProgramError,
> {
    let ata = accounts.revenue_token_account;
    if ata.address != revenue.revenue_token_account {
        Err(ProgramError::Ot(OtError::InvalidTokenAccountOwner))
    } else if revenue.is_distributing {
        Err(ProgramError::Ot(OtError::DistributionInProgress))
    } else if ata.data@.len() < 72 {
        Err(ProgramError::InvalidAccountData)
    } else if address_at(ata.data@, 32) != accounts.revenue_account.address {
        Err(ProgramError::Ot(OtError::InvalidTokenAccountOwner))
    } else if u64_at(ata.data@, 64) < revenue.min_distribution_amount {
        Err(ProgramError::Ot(OtError::BelowMinDistribution))
    } else if revenue.last_distribution_ts != 0 && now - revenue.last_distribution_ts
        < DISTRIBUTION_COOLDOWN {
        Err(ProgramError::Ot(OtError::DistributionCooldown))
    } else {
        Ok(u64_at(ata.data@, 64))
    }
}

/// The conditions on the receivers of a distribution, in the order in which they are reported.
pub open spec fn receivers_check(
    accounts: DistributeRevenue,
    remaining: Seq<AccountInfo>,
    config: RevenueConfig,
) -> Result<(), ProgramError> {
    let mint = address_at(accounts.revenue_token_account.data@, 0);
    if config.active_count == 0 || bps_of_first(config.active(), config.active_count as nat)
        != BPS_DENOMINATOR {
        Err(ProgramError::Ot(OtError::ActiveBpsSumMismatch))
    } else if accounts.areal_fee_account.address != config.areal_fee_destination {
        Err(ProgramError::Ot(OtError::InvalidFeeAccount))
    } else {
        match accounts.areal_fee_account.token_mint() {
            Err(e) => Err(e),
            Ok(fee_mint) => if fee_mint != mint {
                Err(ProgramError::Ot(OtError::TokenMintMismatch))
            } else if remaining.len() < config.active_count {
                Err(ProgramError::Ot(OtError::InsufficientRemainingAccounts))
            } else {
                destinations_check(config.active(), remaining, mint, 0)
            },
        }
    }
}

/// The balance that a distribution hands out, or why it is refused.
pub open spec fn distribution_balance(
    accounts: DistributeRevenue,
    remaining: Seq<AccountInfo>,
    revenue: RevenueAccount,
    config: RevenueConfig,
    now: i64,
) -> Result<u64, ProgramError> {
    match distributable(accounts, revenue, now) {
        Err(e) => Err(e),
        Ok(balance) => match receivers_check(accounts, remaining, config) {
            Err(e) => Err(e),
            Ok(_) => if revenue.total_distributed + balance > u64::MAX
                || revenue.distribution_count == u64::MAX {
                Err(ProgramError::Ot(OtError::MathOverflow))
            } else {
                Ok(balance)
            },
        },
    }
}

/// The revenue account after a distribution of `balance`.
pub open spec fn distributed(revenue: RevenueAccount, balance: u64, now: i64) -> RevenueAccount {
    RevenueAccount {
        total_distributed: (revenue.total_distributed + balance) as u64,
        distribution_count: (revenue.distribution_count + 1) as u64,
        last_distribution_ts: now,
        ..revenue
    }
}

/// The revenue account, marked as being distributed.
pub open spec fn marked(revenue: RevenueAccount) -> RevenueAccount {
    RevenueAccount { is_distributing: true, ..revenue }
}

/// The payout to destination `i` of a distribution of `balance`.
pub open spec fn payout(
    accounts: DistributeRevenue,
    remaining: Seq<AccountInfo>,
    revenue: RevenueAccount,
    config: RevenueConfig,
    balance: u64,
    i: int,
) -> Option<TokenTransfer> {
    transfer_if_any(
        accounts.revenue_token_account.address,
        remaining[i].address,
        accounts.revenue_account.address,
        share(balance - protocol_fee(balance), config.active(), i) as u64,
        SignedBy::Revenue { ot_mint: revenue.ot_mint, bump: revenue.bump },
    )
}

/// The protocol's fee is part of the balance.
pub proof fn fee_is_part(balance: u64)
    ensures
        0 <= protocol_fee(balance) <= balance,
{
}

/// Allotments of allocations that sum to at most a whole stay within the amount.
pub proof fn allotments_fit(amount: int, destinations: Seq<RevenueDestination>, n: nat)
    requires
        0 <= amount,
        n <= destinations.len(),
    ensures
        0 <= allotted_to_first(amount, destinations, n),
        allotted_to_first(amount, destinations, n) * BPS_DENOMINATOR <= amount * bps_of_first(
            destinations,
            n,
        ),
        0 <= bps_of_first(destinations, n),
    decreases n,
{
    if n > 0 {
        allotments_fit(amount, destinations, (n - 1) as nat);
        let bps = destinations[n - 1].allocation_bps as int;
        let before = bps_of_first(destinations, (n - 1) as nat);
        assert(amount * (before + bps) == amount * before + amount * bps) by (nonlinear_arith);
        assert(amount * bps >= 0) by (nonlinear_arith)
            requires
                amount >= 0,
                bps >= 0,
        ;
        let part = (amount * bps) / (BPS_DENOMINATOR as int);
        assert(0 <= part && part * BPS_DENOMINATOR <= amount * bps);
    } else {
        assert(amount * 0 == 0);
    }
}

/// The sum of allocations grows with their number.
pub proof fn allocations_grow(destinations: Seq<RevenueDestination>, n: nat, m: nat)
    requires
        n <= m <= destinations.len(),
    ensures
        0 <= bps_of_first(destinations, n) <= bps_of_first(destinations, m),
    decreases m,
{
    if n < m {
        allocations_grow(destinations, n, (m - 1) as nat);
    } else if n > 0 {
        allocations_grow(destinations, (n - 1) as nat, (n - 1) as nat);
    }
}

/// Where the allocations sum to a whole, the allotments of any first destinations fit in the
/// amount.
pub proof fn prefix_fits(amount: int, destinations: Seq<RevenueDestination>, n: nat)
    requires
        0 <= amount,
        n <= destinations.len(),
        bps_of_first(destinations, destinations.len()) == BPS_DENOMINATOR,
    ensures
        0 <= allotted_to_first(amount, destinations, n) <= amount,
{
    allotments_fit(amount, destinations, n);
    allocations_grow(destinations, n, destinations.len());
    let sum = bps_of_first(destinations, n);
    assert(amount * sum <= amount * BPS_DENOMINATOR) by (nonlinear_arith)
        requires
            0 <= amount,
            sum <= BPS_DENOMINATOR,
    ;
}

/// Sum of the active allocations.
pub fn active_bps(config: &RevenueConfig) -> (sum: u64)
    requires
        config.wf(),
    ensures
        sum == bps_of_first(config.active(), config.active_count as nat),
{
    let mut sum: u64 = 0;
    let mut i: usize = 0;
    while i < config.active_count as usize
        invariant
            config.wf(),
            i <= config.active_count,
            sum <= i * 0xffff,
            sum == bps_of_first(config.active(), i as nat),
        decreases config.active_count - i,
    {
        assert(config.active()[i as int] == config.destinations[i as int]);
        sum += config.destinations[i].allocation_bps as u64;
        i += 1;
    }
    sum
}

/// Checks every destination's account.
pub fn check_destinations(
    config: &RevenueConfig,
    remaining: &Vec<AccountInfo>,
    mint: &Address,
) -> (r: Result<(), ProgramError>)
    requires
        config.wf(),
        config.active_count <= remaining@.len(),
    ensures
        r == destinations_check(config.active(), remaining@, *mint, 0),
{
    let token = spl_token_program();
    let mut i: usize = 0;
    while i < config.active_count as usize
        invariant
            config.wf(),
            config.active_count <= remaining@.len(),
            token == spl_token_program(),
            i <= config.active_count,
            destinations_check(config.active(), remaining@, *mint, 0) == destinations_check(
                config.active(),
                remaining@,
                *mint,
                i as nat,
            ),
        decreases config.active_count - i,
    {
        assert(config.active()[i as int] == config.destinations[i as int]);
        let account = &remaining[i];
        if !account.is_at(&config.destinations[i].address) {
            return Err(ProgramError::Ot(OtError::DestinationAccountMismatch));
        }
        if !account.is_owned_by(&token) {
            return Err(ProgramError::Ot(OtError::InvalidTokenAccountOwner));
        }
        match read_token_account_mint(account) {
            Err(_) => {
                return Err(ProgramError::Ot(OtError::TokenMintMismatch));
            },
            Ok(found) => {
                if !address_eq(&found, mint) {
                    return Err(ProgramError::Ot(OtError::TokenMintMismatch));
                }
            },
        }
        i += 1;
    }
    Ok(())
}

/// Checks the revenue's own conditions.
pub fn revenue_balance(accounts: &DistributeRevenue, revenue: &RevenueAccount, now: i64) -> (r:
    Result<u64, ProgramError>)
    ensures
        r == distributable(*accounts, *revenue, now),
{
    let ata = &accounts.revenue_token_account;
    if !ata.is_at(&revenue.revenue_token_account) {
        return Err(ProgramError::Ot(OtError::InvalidTokenAccountOwner));
    }
    if revenue.is_distributing {
        return Err(ProgramError::Ot(OtError::DistributionInProgress));
    }
    if ata.data.len() < 72 {
        return Err(ProgramError::InvalidAccountData);
    }
    let owner = read_address(&ata.data, 32);
    if !address_eq(&owner, &accounts.revenue_account.address) {
        return Err(ProgramError::Ot(OtError::InvalidTokenAccountOwner));
    }
    let balance: u64 = read_u64(&ata.data, 64);
    if balance < revenue.min_distribution_amount {
        return Err(ProgramError::Ot(OtError::BelowMinDistribution));
    }
    let elapsed: i128 = now as i128 - revenue.last_distribution_ts as i128;
    if revenue.last_distribution_ts != 0 && elapsed < DISTRIBUTION_COOLDOWN as i128 {
        return Err(ProgramError::Ot(OtError::DistributionCooldown));
    }
    Ok(balance)
}

/// Checks the receivers.
pub fn check_receivers(
    accounts: &DistributeRevenue,
    remaining: &Vec<AccountInfo>,
    config: &RevenueConfig,
) -> (r: Result<(), ProgramError>)
    requires
        config.wf(),
        accounts.revenue_token_account.data@.len() >= 72,
    ensures
        r == receivers_check(*accounts, remaining@, *config),
{
    if config.active_count == 0 || active_bps(config) != BPS_DENOMINATOR {
        return Err(ProgramError::Ot(OtError::ActiveBpsSumMismatch));
    }
    if !accounts.areal_fee_account.is_at(&config.areal_fee_destination) {
        return Err(ProgramError::Ot(OtError::InvalidFeeAccount));
    }
    let mint = read_address(&accounts.revenue_token_account.data, 0);
    match read_token_account_mint(&accounts.areal_fee_account) {
        Err(e) => {
            return Err(e);
        },
        Ok(fee_mint) => {
            if !address_eq(&fee_mint, &mint) {
                return Err(ProgramError::Ot(OtError::TokenMintMismatch));
            }
        },
    }
    if remaining.len() < config.active_count as usize {
        return Err(ProgramError::Ot(OtError::InsufficientRemainingAccounts));
    }
    check_destinations(config, remaining, &mint)
}

/// The payouts of a distribution of `balance`, one per destination.
pub fn payouts(
    accounts: &DistributeRevenue,
    remaining: &Vec<AccountInfo>,
    revenue: &RevenueAccount,
    config: &RevenueConfig,
    balance: u64,
    fee: u64,
) -> (list: Result<Vec<Option<TokenTransfer>>, ProgramError>)
    requires
        config.wf(),
        0 < config.active_count <= remaining@.len(),
        bps_of_first(config.active(), config.active_count as nat) == BPS_DENOMINATOR,
        fee == protocol_fee(balance),
    ensures
        list matches Ok(list) && list@.len() == config.active_count && forall|i: int|
            0 <= i < list@.len() ==> #[trigger] list@[i] == payout(
                *accounts,
                remaining@,
                *revenue,
                *config,
                balance,
                i,
            ),
{
    proof {
        fee_is_part(balance);
    }
    let post_fee: u64 = balance - fee;
    let signed_by = SignedBy::Revenue { ot_mint: revenue.ot_mint, bump: revenue.bump };
    let ghost active = config.active();
    let mut list: Vec<Option<TokenTransfer>> = Vec::new();
    let mut rest: u64 = post_fee;
    let mut i: usize = 0;
    while i < config.active_count as usize
        invariant
            config.wf(),
            active == config.active(),
            0 < config.active_count <= remaining@.len(),
            bps_of_first(active, config.active_count as nat) == BPS_DENOMINATOR,
            fee == protocol_fee(balance),
            post_fee == balance - fee,
            signed_by == (SignedBy::Revenue { ot_mint: revenue.ot_mint, bump: revenue.bump }),
            i <= config.active_count,
            i < config.active_count ==> rest == post_fee - allotted_to_first(
                post_fee as int,
                active,
                i as nat,
            ),
            list@.len() == i,
            forall|j: int|
                0 <= j < list@.len() ==> #[trigger] list@[j] == payout(
                    *accounts,
                    remaining@,
                    *revenue,
                    *config,
                    balance,
                    j,
                ),
        decreases config.active_count - i,
    {
        assert(active[i as int] == config.destinations[i as int]);
        assert(active.len() == config.active_count);
        let share_i: u64 = if i == config.active_count as usize - 1 {
            rest
        } else {
            proof {
                prefix_fits(post_fee as int, active, i as nat);
                prefix_fits(post_fee as int, active, (i + 1) as nat);
            }
            match mul_div_u64(
                post_fee,
                config.destinations[i].allocation_bps as u64,
                BPS_DENOMINATOR,
            ) {
                None => {
                    return Err(ProgramError::Ot(OtError::MathOverflow));
                },
                Some(part) => {
                    rest = rest - part;
                    part
                },
            }
        };
        list.push(
            transfer_unless_zero(
                &accounts.revenue_token_account.address,
                &remaining[i].address,
                &accounts.revenue_account.address,
                share_i,
                &signed_by,
            ),
        );
        i += 1;
    }
    Ok(list)
}

/// Distributes the whole revenue balance: the protocol's fee first, then the destinations'
/// shares. Anyone may trigger it.
pub fn handler(
    ctx: &Context<'_, DistributeRevenue>,
    revenue: &RevenueAccount,
    config: &RevenueConfig,
) -> (r: Result<DistributeOutcome, ProgramError>)
    requires
        config.wf(),
    ensures
        match (
            r,
            distribution_balance(
                *ctx.accounts,
                ctx.remaining_accounts@,
                *revenue,
                *config,
                ctx.now,
            ),
        ) {
            (Err(e), Err(expected)) => e == expected,
            (Ok(o), Ok(balance)) => {
                &&& o.in_progress == marked(distributed(*revenue, balance, ctx.now))
                &&& o.revenue == distributed(*revenue, balance, ctx.now)
                &&& o.fee == transfer_if_any(
                    ctx.accounts.revenue_token_account.address,
                    ctx.accounts.areal_fee_account.address,
                    ctx.accounts.revenue_account.address,
                    protocol_fee(balance) as u64,
                    SignedBy::Revenue { ot_mint: revenue.ot_mint, bump: revenue.bump },
                )
                &&& o.payouts@.len() == config.active_count
                &&& forall|i: int|
                    0 <= i < o.payouts@.len() ==> #[trigger] o.payouts@[i] == payout(
                        *ctx.accounts,
                        ctx.remaining_accounts@,
                        *revenue,
                        *config,
                        balance,
                        i,
                    )
                &&& o.event == (RevenueDistributed {
                    ot_mint: revenue.ot_mint,
                    total_amount: balance,
                    protocol_fee: protocol_fee(balance) as u64,
                    distribution_count: (revenue.distribution_count + 1) as u64,
                    num_destinations: config.active_count,
                    timestamp: ctx.now,
                })
            },
            _ => false,
        },
{
    let a = ctx.accounts;
    let balance: u64 = match revenue_balance(a, revenue, ctx.now) {
        Err(e) => {
            return Err(e);
        },
        Ok(balance) => balance,
    };
    if let Err(e) = check_receivers(a, ctx.remaining_accounts, config) {
        return Err(e);
    }
    proof {
        fee_is_part(balance);
    }
    let fee: u64 = match mul_div_u64_round_up(balance, AREAL_PROTOCOL_FEE_BPS, BPS_DENOMINATOR) {
        None => {
            return Err(ProgramError::Ot(OtError::MathOverflow));
        },
        Some(fee) => fee,
    };
    let total_distributed: u64 = match revenue.total_distributed.checked_add(balance) {
        None => {
            return Err(ProgramError::Ot(OtError::MathOverflow));
        },
        Some(total) => total,
    };
    let distribution_count: u64 = match revenue.distribution_count.checked_add(1) {
        None => {
            return Err(ProgramError::Ot(OtError::MathOverflow));
        },
        Some(count) => count,
    };
    let signed_by = SignedBy::Revenue { ot_mint: revenue.ot_mint, bump: revenue.bump };
    let payouts = match payouts(a, ctx.remaining_accounts, revenue, config, balance, fee) {
        Err(e) => {
            return Err(e);
        },
        Ok(payouts) => payouts,
    };
    let mut updated = *revenue;
    updated.total_distributed = total_distributed;
    updated.distribution_count = distribution_count;
    updated.last_distribution_ts = ctx.now;
    let mut in_progress = updated;
    in_progress.is_distributing = true;
    Ok(
        DistributeOutcome {
            in_progress,
            revenue: updated,
            fee: transfer_unless_zero(
                &a.revenue_token_account.address,
                &a.areal_fee_account.address,
                &a.revenue_account.address,
                fee,
                &signed_by,
            ),
            payouts,
            event: RevenueDistributed {
                ot_mint: revenue.ot_mint,
                total_amount: balance,
                protocol_fee: fee,
                distribution_count,
                num_destinations: config.active_count,
                timestamp: ctx.now,
            },
        },
    )
}

/// The shares up to the last one are the allotments.
proof fn shares_are_allotments(amount: int, destinations: Seq<RevenueDestination>, n: nat)
    requires
        n < destinations.len(),
    ensures
        shares_of_first(amount, destinations, n) == allotted_to_first(amount, destinations, n),
    decreases n,
{
    if n > 0 {
        shares_are_allotments(amount, destinations, (n - 1) as nat);
    }
}

/// A distribution hands out the whole balance, no more and no less: the protocol's fee and the
/// destinations' shares add up to it.
pub proof fn whole_balance_is_paid(balance: u64, destinations: Seq<RevenueDestination>)
    requires
        destinations.len() > 0,
    ensures
        protocol_fee(balance) + shares_of_first(
            balance - protocol_fee(balance),
            destinations,
            destinations.len(),
        ) == balance,
{
    shares_are_allotments(
        balance - protocol_fee(balance),
        destinations,
        (destinations.len() - 1) as nat,
    );
}

/// Every destination receives at least its allotment, and the last one less than one unit per
/// destination more than that.
pub proof fn shares_are_fair(balance: u64, destinations: Seq<RevenueDestination>, i: int)
    requires
        bps_of_first(destinations, destinations.len()) == BPS_DENOMINATOR,
        0 <= i < destinations.len(),
    ensures
        ({
            let amount = balance - protocol_fee(balance);
            &&& allotment(amount, destinations[i]) <= share(amount, destinations, i)
            &&& share(amount, destinations, i) < allotment(amount, destinations[i])
                + destinations.len()
            &&& 0 <= share(amount, destinations, i) <= amount
        }),
{
    let amount = balance - protocol_fee(balance);
    fee_is_part(balance);
    prefix_fits(amount, destinations, i as nat);
    prefix_fits(amount, destinations, (i + 1) as nat);
    allotments_fit(amount, destinations, i as nat);
    allotments_are_near(amount, destinations, destinations.len());
    let a = destinations[i].allocation_bps as int;
    assert(amount * a >= 0) by (nonlinear_arith)
        requires
            amount >= 0,
            a >= 0,
    ;
}

/// Rounding takes less than one unit from each allotment.
proof fn allotments_are_near(amount: int, destinations: Seq<RevenueDestination>, n: nat)
    requires
        0 <= amount,
        n <= destinations.len(),
    ensures
        allotted_to_first(amount, destinations, n) * BPS_DENOMINATOR + n * BPS_DENOMINATOR >= amount
            * bps_of_first(destinations, n),
        n > 0 ==> allotted_to_first(amount, destinations, n) * BPS_DENOMINATOR + n * BPS_DENOMINATOR
            > amount * bps_of_first(destinations, n),
    decreases n,
{
    if n > 0 {
        allotments_are_near(amount, destinations, (n - 1) as nat);
        let bps = destinations[n - 1].allocation_bps as int;
        let before = bps_of_first(destinations, (n - 1) as nat);
        assert(amount * (before + bps) == amount * before + amount * bps) by (nonlinear_arith);
        assert(amount * bps >= 0) by (nonlinear_arith)
            requires
                amount >= 0,
                bps >= 0,
        ;
        let part = (amount * bps) / (BPS_DENOMINATOR as int);
        assert(part * BPS_DENOMINATOR + BPS_DENOMINATOR > amount * bps);
    }
}

/// The protocol's fee is never less than its rate, and never a whole unit more.
pub proof fn fee_rounds_up(balance: u64)
    ensures
        protocol_fee(balance) * BPS_DENOMINATOR >= balance * AREAL_PROTOCOL_FEE_BPS,
        protocol_fee(balance) * BPS_DENOMINATOR < balance * AREAL_PROTOCOL_FEE_BPS + BPS_DENOMINATOR,
{
}

/// While a distribution is in progress no other one is accepted, and once it is over the mark is
/// gone.
pub proof fn distributions_do_not_overlap(
    accounts: DistributeRevenue,
    remaining: Seq<AccountInfo>,
    revenue: RevenueAccount,
    config: RevenueConfig,
    now: i64,
    accounts_next: DistributeRevenue,
    remaining_next: Seq<AccountInfo>,
    config_next: RevenueConfig,
    later: i64,
)
    ensures
        distribution_balance(accounts, remaining, revenue, config, now) matches Ok(balance) ==> {
            let after = distributed(revenue, balance, now);
            &&& distribution_balance(
                accounts_next,
                remaining_next,
                marked(after),
                config_next,
                later,
            ) is Err
            &&& !after.is_distributing
        },
{
}

/// After a distribution the next one is refused for seven days. A distribution at time zero is
/// left out: zero marks an account that was never distributed.
pub proof fn cooldown_holds(
    accounts: DistributeRevenue,
    remaining: Seq<AccountInfo>,
    revenue: RevenueAccount,
    config: RevenueConfig,
    now: i64,
    accounts_next: DistributeRevenue,
    remaining_next: Seq<AccountInfo>,
    config_next: RevenueConfig,
    later: i64,
)
    requires
        now != 0,
        later < now + DISTRIBUTION_COOLDOWN,
    ensures
        distribution_balance(accounts, remaining, revenue, config, now) matches Ok(balance)
            ==> distribution_balance(
            accounts_next,
            remaining_next,
            distributed(revenue, balance, now),
            config_next,
            later,
        ) is Err,
{
}

} // verus!
