//! What a distribution of revenue pays, and when it is made.
use vstd::prelude::*;

use crate::account::AccountInfo;
use crate::actions::{transfer_if_any, TokenTransfer};
use crate::address::Address;
use crate::error::{OtError, ProgramError};
use crate::ownership_token::instructions::distribute_revenue::{
    allotments_fit, allotted_to_first, bps_of_first, destination_check, destinations_check,
    distributable, distributed, distribution_balance, fee_is_part, marked, payout, prefix_fits,
    protocol_fee, receivers_check, share, shares_of_first, DistributeRevenue,
};
use crate::ownership_token::state::{RevenueAccount, RevenueConfig, RevenueDestination};
use crate::programs::spl_token_program;
use crate::seeds::SignedBy;

verus! {

/// Whether `account` can take the part of `destination`: it sits at the listed address and is a
/// token account of `mint`.
pub open spec fn takes_its_part(
    destination: RevenueDestination,
    account: AccountInfo,
    mint: Address,
) -> bool {
    &&& account.address == destination.address
    &&& account.owner == spl_token_program()
    &&& account.data@.len() >= 32
    &&& account.data@.subrange(0, 32) == mint@
}

/// The sums over a list of destinations start at nothing and grow by one entry at a time: an
/// allocation, its part of the amount rounded down, or what is paid.
pub proof fn sums_grow_by_entries(amount: int, destinations: Seq<RevenueDestination>, n: nat)
    ensures
        bps_of_first(destinations, 0) == 0,
        bps_of_first(destinations, n + 1) == bps_of_first(destinations, n)
            + destinations[n as int].allocation_bps,
        allotted_to_first(amount, destinations, 0) == 0,
        allotted_to_first(amount, destinations, n + 1) == allotted_to_first(amount, destinations, n)
            + (amount * destinations[n as int].allocation_bps) / 10_000,
        shares_of_first(amount, destinations, 0) == 0,
        shares_of_first(amount, destinations, n + 1) == shares_of_first(amount, destinations, n)
            + share(amount, destinations, n as int),
{
}

/// The token account's mint, as an address and as bytes.
proof fn mint_is_read(account: AccountInfo, mint: Address)
    requires
        account.data@.len() >= 32,
    ensures
        (account.token_mint() == Ok::<Address, ProgramError>(mint)) <==> account.data@.subrange(
            0,
            32,
        ) == mint@,
{
    crate::laws::address_is_its_bytes(account.data@, 0, mint);
}

/// The destinations are right together where each of them is.
proof fn destinations_are_right(
    destinations: Seq<RevenueDestination>,
    accounts: Seq<AccountInfo>,
    mint: Address,
    i: nat,
)
    requires
        i <= destinations.len(),
    ensures
        destinations_check(destinations, accounts, mint, i) is Ok <==> forall|k: int|
            i <= k < destinations.len() ==> takes_its_part(
                #[trigger] destinations[k],
                accounts[k],
                mint,
            ),
    decreases destinations.len() - i,
{
    if i < destinations.len() {
        destinations_are_right(destinations, accounts, mint, i + 1);
        let d = destinations[i as int];
        let a = accounts[i as int];
        if a.data@.len() >= 32 {
            mint_is_read(a, mint);
        }
        assert(destination_check(d, a, mint) is Ok <==> takes_its_part(d, a, mint));
        if destinations_check(destinations, accounts, mint, i) is Ok {
            assert forall|k: int| i <= k < destinations.len() implies takes_its_part(
                #[trigger] destinations[k],
                accounts[k],
                mint,
            ) by {
                if k > i {
                    assert(i + 1 <= k);
                }
            }
        } else if destination_check(d, a, mint) is Ok {
            let k = choose|k: int|
                i + 1 <= k < destinations.len() && !takes_its_part(
                    #[trigger] destinations[k],
                    accounts[k],
                    mint,
                );
            assert(!takes_its_part(destinations[k], accounts[k], mint));
        }
    }
}

/// When a distribution is made: from the revenue's own token account, while no other one is in
/// progress, of at least the least balance, a week after the last one; to destinations whose parts
/// make a whole, each with its own account of the same token, and to the protocol's fee account of
/// the same token. It hands out the whole balance of the token account.
pub proof fn distribution_is_owed(
    accounts: DistributeRevenue,
    remaining: Seq<AccountInfo>,
    revenue: RevenueAccount,
    config: RevenueConfig,
    now: i64,
)
    requires
        config.active_count <= 10,
    ensures
        ({
            let source = accounts.revenue_token_account;
            let fee_account = accounts.areal_fee_account;
            let mint = source.data@.subrange(0, 32);
            let r = distribution_balance(accounts, remaining, revenue, config, now);
            &&& r is Ok <==> {
                &&& source.address == revenue.revenue_token_account
                &&& !revenue.is_distributing
                &&& source.data@.len() >= 72
                &&& source.data@.subrange(32, 64) == accounts.revenue_account.address@
                &&& source.token_amount()->Ok_0 >= revenue.min_distribution_amount
                &&& revenue.last_distribution_ts == 0 || now >= revenue.last_distribution_ts
                    + 604_800
                &&& config.active_count > 0
                &&& bps_of_first(config.active(), config.active_count as nat) == 10_000
                &&& fee_account.address == config.areal_fee_destination
                &&& fee_account.data@.len() >= 32
                &&& fee_account.data@.subrange(0, 32) == mint
                &&& remaining.len() >= config.active_count
                &&& forall|k: int|
                    0 <= k < config.active_count ==> {
                        &&& (#[trigger] remaining[k]).address == config.destinations[k].address
                        &&& remaining[k].owner == spl_token_program()
                        &&& remaining[k].data@.len() >= 32
                        &&& remaining[k].data@.subrange(0, 32) == mint
                    }
                &&& revenue.total_distributed + source.token_amount()->Ok_0 <= u64::MAX
                &&& revenue.distribution_count < u64::MAX
            }
            &&& r matches Ok(balance) ==> source.token_amount() == Ok::<u64, ProgramError>(balance)
        }),
{
    let source = accounts.revenue_token_account;
    let fee_account = accounts.areal_fee_account;
    let mint = crate::bytes::address_at(source.data@, 0);
    let active = config.active();
    assert(active.len() == config.active_count);
    destinations_are_right(active, remaining, mint, 0);
    if source.data@.len() >= 72 {
        crate::laws::address_is_its_bytes(source.data@, 0, mint);
        crate::laws::address_is_its_bytes(source.data@, 32, accounts.revenue_account.address);
        if fee_account.data@.len() >= 32 {
            mint_is_read(fee_account, mint);
        }
        assert forall|k: int| 0 <= k < config.active_count implies #[trigger] active[k]
            == config.destinations[k] by {
        }
        if forall|k: int|
            0 <= k < active.len() ==> takes_its_part(#[trigger] active[k], remaining[k], mint) {
            assert forall|k: int| 0 <= k < config.active_count implies {
                &&& (#[trigger] remaining[k]).address == config.destinations[k].address
                &&& remaining[k].owner == spl_token_program()
                &&& remaining[k].data@.len() >= 32
                &&& remaining[k].data@.subrange(0, 32) == mint@
            } by {
                assert(takes_its_part(active[k], remaining[k], mint));
            }
        } else {
            let k = choose|k: int|
                0 <= k < active.len() && !takes_its_part(#[trigger] active[k], remaining[k], mint);
            assert(!takes_its_part(active[k], remaining[k], mint));
            assert(active[k] == config.destinations[k]);
            let named = remaining[k];
        }
    }
}

/// Why a distribution is refused on account of the revenue itself.
pub proof fn early_distribution_is_refused(
    accounts: DistributeRevenue,
    remaining: Seq<AccountInfo>,
    revenue: RevenueAccount,
    config: RevenueConfig,
    now: i64,
)
    ensures
        ({
            let source = accounts.revenue_token_account;
            let r = distribution_balance(accounts, remaining, revenue, config, now);
            let told = |e: OtError| r == Err::<u64, ProgramError>(ProgramError::Ot(e));
            let own = source.address == revenue.revenue_token_account;
            let idle = own && !revenue.is_distributing;
            let held = idle && source.data@.len() >= 72 && source.token_owner() == Ok::<
                Address,
                ProgramError,
            >(accounts.revenue_account.address);
            let enough = held && source.token_amount()->Ok_0 >= revenue.min_distribution_amount;
            let due = revenue.last_distribution_ts == 0 || now >= revenue.last_distribution_ts
                + 604_800;
            &&& !own ==> told(OtError::InvalidTokenAccountOwner)
            &&& told(OtError::DistributionInProgress) <==> own && revenue.is_distributing
            &&& idle && source.data@.len() < 72 ==> r == Err::<u64, ProgramError>(
                ProgramError::InvalidAccountData,
            )
            &&& idle && source.data@.len() >= 72 && !held ==> told(
                OtError::InvalidTokenAccountOwner,
            )
            &&& told(OtError::BelowMinDistribution) <==> held && !enough
            &&& told(OtError::DistributionCooldown) <==> enough && !due
        }),
{
    receivers_tell(accounts, remaining, config);
}

/// Checking the receivers never reports a matter of the revenue itself.
proof fn receivers_tell(accounts: DistributeRevenue, remaining: Seq<AccountInfo>, config: RevenueConfig)
    ensures
        receivers_check(accounts, remaining, config) matches Err(e) ==> {
            &&& e != ProgramError::Ot(OtError::DistributionInProgress)
            &&& e != ProgramError::Ot(OtError::BelowMinDistribution)
            &&& e != ProgramError::Ot(OtError::DistributionCooldown)
            &&& e != ProgramError::Ot(OtError::MathOverflow)
        },
{
    let mint = crate::bytes::address_at(accounts.revenue_token_account.data@, 0);
    destinations_tell(config.active(), remaining, mint, 0);
}

/// Checking the destinations reports a wrong address, a wrong owner or a wrong token.
proof fn destinations_tell(
    destinations: Seq<RevenueDestination>,
    accounts: Seq<AccountInfo>,
    mint: Address,
    i: nat,
)
    ensures
        destinations_check(destinations, accounts, mint, i) matches Err(e) ==> {
            ||| e == ProgramError::Ot(OtError::DestinationAccountMismatch)
            ||| e == ProgramError::Ot(OtError::InvalidTokenAccountOwner)
            ||| e == ProgramError::Ot(OtError::TokenMintMismatch)
        },
    decreases destinations.len() - i,
{
    if i < destinations.len() {
        destinations_tell(destinations, accounts, mint, i + 1);
    }
}

/// Why a distribution that is due is refused on account of its receivers: no destinations or parts
/// that make no whole, another fee account or token, missing accounts.
pub proof fn misdirected_distribution_is_refused(
    accounts: DistributeRevenue,
    remaining: Seq<AccountInfo>,
    revenue: RevenueAccount,
    config: RevenueConfig,
    now: i64,
)
    requires
        config.active_count <= 10,
        distributable(accounts, revenue, now) is Ok,
    ensures
        ({
            let fee_account = accounts.areal_fee_account;
            let r = distribution_balance(accounts, remaining, revenue, config, now);
            let told = |e: OtError| r == Err::<u64, ProgramError>(ProgramError::Ot(e));
            let whole = config.active_count > 0 && bps_of_first(
                config.active(),
                config.active_count as nat,
            ) == 10_000;
            let fee_known = whole && fee_account.address == config.areal_fee_destination;
            let fee_held = fee_known && fee_account.token_mint()
                == accounts.revenue_token_account.token_mint();
            let count = accounts.revenue_token_account.token_amount()->Ok_0;
            &&& told(OtError::ActiveBpsSumMismatch) <==> !whole
            &&& told(OtError::InvalidFeeAccount) <==> whole && !fee_known
            &&& fee_known && fee_account.data@.len() < 32 ==> r == Err::<u64, ProgramError>(
                ProgramError::InvalidAccountData,
            )
            &&& fee_known && fee_account.data@.len() >= 32 && !fee_held ==> told(
                OtError::TokenMintMismatch,
            )
            &&& told(OtError::InsufficientRemainingAccounts) <==> fee_held && remaining.len()
                < config.active_count
            &&& told(OtError::MathOverflow) <==> receivers_check(accounts, remaining, config) is Ok
                && (revenue.total_distributed + count > u64::MAX || revenue.distribution_count
                == u64::MAX)
        }),
{
    receivers_tell(accounts, remaining, config);
    let mint = crate::bytes::address_at(accounts.revenue_token_account.data@, 0);
    destinations_tell(config.active(), remaining, mint, 0);
}

/// What is told of the first destination whose account is not right.
pub proof fn first_wrong_destination_is_told(
    destinations: Seq<RevenueDestination>,
    accounts: Seq<AccountInfo>,
    mint: Address,
    i: nat,
    k: nat,
)
    requires
        i <= k < destinations.len(),
        forall|j: int|
            i <= j < k ==> takes_its_part(#[trigger] destinations[j], accounts[j], mint),
        !takes_its_part(destinations[k as int], accounts[k as int], mint),
    ensures
        ({
            let account = accounts[k as int];
            let r = destinations_check(destinations, accounts, mint, i);
            let told = |e: OtError| r == Err::<(), ProgramError>(ProgramError::Ot(e));
            let there = account.address == destinations[k as int].address;
            &&& told(OtError::DestinationAccountMismatch) <==> !there
            &&& told(OtError::InvalidTokenAccountOwner) <==> there && account.owner
                != spl_token_program()
            &&& told(OtError::TokenMintMismatch) <==> there && account.owner == spl_token_program()
        }),
    decreases k - i,
{
    let a = accounts[i as int];
    if a.data@.len() >= 32 {
        mint_is_read(a, mint);
    }
    if i < k {
        assert(takes_its_part(destinations[i as int], a, mint));
        first_wrong_destination_is_told(destinations, accounts, mint, i + 1, k);
    }
}

/// What a distribution pays: the protocol takes a quarter of a percent, rounded up; of the rest
/// every destination but the last takes its ten-thousandths, rounded down, and the last takes all
/// that is left. Each payment comes out of the revenue's token account, to the destination's own
/// account, under the signature of the revenue account; a payment of nothing is not made.
pub proof fn distribution_pays_the_parts(
    accounts: DistributeRevenue,
    remaining: Seq<AccountInfo>,
    revenue: RevenueAccount,
    config: RevenueConfig,
    balance: u64,
    i: int,
)
    requires
        0 <= i < config.active_count <= 10,
        bps_of_first(config.active(), config.active_count as nat) == 10_000,
    ensures
        ({
            let fee = protocol_fee(balance);
            let rest = balance - fee;
            let part = if i < config.active_count - 1 {
                (rest * config.destinations[i].allocation_bps) / 10_000
            } else {
                rest - shares_of_first(rest, config.active(), i as nat)
            };
            let paid = payout(accounts, remaining, revenue, config, balance, i);
            &&& fee == (balance * 25 + 9_999) / 10_000
            &&& 0 <= part <= rest <= balance
            &&& paid is None <==> part == 0
            &&& paid matches Some(t) ==> {
                &&& t.amount == part
                &&& t.from == accounts.revenue_token_account.address
                &&& t.to == remaining[i].address
                &&& t.authority == accounts.revenue_account.address
                &&& t.signed_by == (SignedBy::Revenue {
                    ot_mint: revenue.ot_mint,
                    bump: revenue.bump,
                })
            }
        }),
{
    let active = config.active();
    let rest = balance - protocol_fee(balance);
    fee_is_part(balance);
    assert(active[i] == config.destinations[i]);
    prefix_fits(rest, active, i as nat);
    prefix_fits(rest, active, (i + 1) as nat);
    allotments_fit(rest, active, i as nat);
    parts_before_are_allotted(rest, active, i as nat);
    let bps = active[i].allocation_bps as int;
    assert(rest * bps >= 0) by (nonlinear_arith)
        requires
            rest >= 0,
            bps >= 0,
    ;
}

/// What the destinations before the last one are paid is what they are allotted.
proof fn parts_before_are_allotted(amount: int, destinations: Seq<RevenueDestination>, n: nat)
    requires
        n < destinations.len(),
    ensures
        shares_of_first(amount, destinations, n) == allotted_to_first(amount, destinations, n),
    decreases n,
{
    if n > 0 {
        parts_before_are_allotted(amount, destinations, (n - 1) as nat);
    }
}

/// What a distribution records: the balance is counted as distributed, the distribution itself is
/// counted, and its time is kept. Nothing else of the revenue account changes, but for the mark
/// that it carries while the payments are made.
pub proof fn distribution_is_recorded(revenue: RevenueAccount, balance: u64, now: i64)
    requires
        revenue.total_distributed + balance <= u64::MAX,
        revenue.distribution_count < u64::MAX,
    ensures
        ({
            let after = distributed(revenue, balance, now);
            &&& after.total_distributed - revenue.total_distributed == balance
            &&& after.distribution_count - revenue.distribution_count == 1
            &&& after.last_distribution_ts == now
            &&& after.ot_mint == revenue.ot_mint
            &&& after.revenue_token_account == revenue.revenue_token_account
            &&& after.min_distribution_amount == revenue.min_distribution_amount
            &&& after.is_distributing == revenue.is_distributing
            &&& after.bump == revenue.bump
            &&& marked(after).is_distributing
            &&& (RevenueAccount { is_distributing: after.is_distributing, ..marked(after) })
                == after
        }),
{
}

/// A transfer is made of what it names, and of nothing only where there is nothing to move.
pub proof fn transfer_moves_its_amount(
    from: Address,
    to: Address,
    authority: Address,
    amount: u64,
    signed_by: SignedBy,
)
    ensures
        ({
            let t = transfer_if_any(from, to, authority, amount, signed_by);
            &&& t is None <==> amount == 0
            &&& t matches Some(t) ==> t == (TokenTransfer { from, to, authority, amount, signed_by })
            &&& crate::actions::moved(t) == amount
        }),
{
}

} // verus!
