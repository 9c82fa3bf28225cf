//! What the governance of an ownership token changes.
use vstd::prelude::*;

use crate::address::{zero_address, Address};
use crate::error::{OtError, ProgramError};
use crate::ownership_token::events::{AuthorityTransferAccepted, AuthorityTransferProposed};
use crate::ownership_token::instructions::authority_transfer::{accept_result, propose_result};
use crate::ownership_token::instructions::batch_update_destinations::{
    batch_bps, batch_check, batch_entries_check, batch_entry_check, replaced,
};
use crate::ownership_token::state::{BatchDestination, OtGovernance, RevenueConfig};

verus! {

/// A proposal is taken for anyone but the zero address and the present authority. It replaces the
/// successor in waiting and changes nothing else.
pub proof fn proposal_names_a_successor(
    governance: OtGovernance,
    new_authority: Address,
    now: i64,
)
    ensures
        ({
            let r = propose_result(governance, new_authority, now);
            let told = |e: OtError| r == Err::<
                (OtGovernance, AuthorityTransferProposed),
                ProgramError,
            >(ProgramError::Ot(e));
            &&& r is Ok <==> new_authority != zero_address() && new_authority
                != governance.authority
            &&& told(OtError::ZeroAuthority) <==> new_authority == zero_address()
            &&& told(OtError::AuthorityTransferToSelf) <==> new_authority != zero_address()
                && new_authority == governance.authority
            &&& r matches Ok((after, event)) ==> {
                &&& after.pending_authority == new_authority
                &&& after.has_pending
                &&& after.authority == governance.authority
                &&& after.ot_mint == governance.ot_mint
                &&& after.is_active == governance.is_active
                &&& after.bump == governance.bump
                &&& event.ot_mint == governance.ot_mint
                &&& event.current_authority == governance.authority
                &&& event.pending_authority == new_authority
                &&& event.timestamp == now
            }
        }),
{
}

/// The successor in waiting, and nobody else, takes over. Then nobody is in waiting, and nothing
/// else has changed.
pub proof fn successor_takes_over(governance: OtGovernance, signer: Address, now: i64)
    ensures
        ({
            let r = accept_result(governance, signer, now);
            let told = |e: OtError| r == Err::<
                (OtGovernance, AuthorityTransferAccepted),
                ProgramError,
            >(ProgramError::Ot(e));
            &&& r is Ok <==> governance.has_pending && signer == governance.pending_authority
            &&& told(OtError::NoPendingAuthority) <==> !governance.has_pending
            &&& told(OtError::InvalidPendingAuthority) <==> governance.has_pending && signer
                != governance.pending_authority
            &&& r matches Ok((after, event)) ==> {
                &&& after.authority == signer
                &&& after.pending_authority == zero_address()
                &&& !after.has_pending
                &&& after.ot_mint == governance.ot_mint
                &&& after.is_active == governance.is_active
                &&& after.bump == governance.bump
                &&& event.ot_mint == governance.ot_mint
                &&& event.old_authority == governance.authority
                &&& event.new_authority == signer
                &&& event.timestamp == now
            }
        }),
{
}

/// Whether destination `k` of a list may stand in it: it has an address, takes between one
/// ten-thousandth and everything, is not the protocol's fee account, and does not stand in the list
/// before.
pub open spec fn may_be_listed(
    destinations: Seq<BatchDestination>,
    k: int,
    fee_account: Address,
) -> bool {
    &&& destinations[k].address != zero_address()
    &&& 1 <= destinations[k].allocation_bps <= 10_000
    &&& destinations[k].address != fee_account
    &&& forall|j: int| 0 <= j < k ==> (#[trigger] destinations[j]).address != destinations[k].address
}

/// The allocations of a list are summed entry by entry.
pub proof fn allocations_are_summed(destinations: Seq<BatchDestination>, n: nat)
    ensures
        batch_bps(destinations, 0) == 0,
        batch_bps(destinations, n + 1) == batch_bps(destinations, n)
            + destinations[n as int].allocation_bps,
{
}

/// One entry passes where it may be listed.
proof fn entry_passes(destinations: Seq<BatchDestination>, k: int, fee_account: Address)
    ensures
        batch_entry_check(destinations, k, fee_account) is Ok <==> may_be_listed(
            destinations,
            k,
            fee_account,
        ),
{
}

/// The entries pass together where each of them may be listed.
proof fn entries_pass_together(destinations: Seq<BatchDestination>, fee_account: Address, i: nat)
    requires
        i <= destinations.len(),
    ensures
        batch_entries_check(destinations, fee_account, i) is Ok <==> forall|k: int|
            i <= k < destinations.len() ==> #[trigger] may_be_listed(destinations, k, fee_account),
    decreases destinations.len() - i,
{
    if i < destinations.len() {
        entries_pass_together(destinations, fee_account, i + 1);
        entry_passes(destinations, i as int, fee_account);
        if batch_entries_check(destinations, fee_account, i) is Ok {
            assert forall|k: int| i <= k < destinations.len() implies #[trigger] may_be_listed(
                destinations,
                k,
                fee_account,
            ) by {
                if k > i {
                    assert(i + 1 <= k);
                }
            }
        } else if batch_entry_check(destinations, i as int, fee_account) is Err {
            assert(!may_be_listed(destinations, i as int, fee_account));
        } else {
            let k = choose|k: int|
                i + 1 <= k < destinations.len() && !#[trigger] may_be_listed(
                    destinations,
                    k,
                    fee_account,
                );
            assert(!may_be_listed(destinations, k, fee_account));
        }
    }
}

/// When the destinations are replaced: by an active governance, with one to ten destinations that
/// may be listed and whose parts make a whole.
pub proof fn replacement_is_owed(
    governance: OtGovernance,
    config: RevenueConfig,
    destinations: Seq<BatchDestination>,
)
    ensures
        batch_check(governance, config, destinations) is Ok <==> {
            &&& governance.is_active
            &&& 1 <= destinations.len() <= 10
            &&& forall|k: int|
                0 <= k < destinations.len() ==> #[trigger] may_be_listed(
                    destinations,
                    k,
                    config.areal_fee_destination,
                )
            &&& batch_bps(destinations, destinations.len()) == 10_000
            &&& config.config_version < u64::MAX
        },
{
    entries_pass_together(destinations, config.areal_fee_destination, 0);
}

/// Why a replacement is refused as a whole.
pub proof fn replacement_refusals_are_told(
    governance: OtGovernance,
    config: RevenueConfig,
    destinations: Seq<BatchDestination>,
)
    ensures
        ({
            let r = batch_check(governance, config, destinations);
            let told = |e: OtError| r == Err::<(), ProgramError>(ProgramError::Ot(e));
            let sized = governance.is_active && 1 <= destinations.len() <= 10;
            let listed = sized && forall|k: int|
                0 <= k < destinations.len() ==> #[trigger] may_be_listed(
                    destinations,
                    k,
                    config.areal_fee_destination,
                );
            let whole = listed && batch_bps(destinations, destinations.len()) == 10_000;
            &&& told(OtError::GovernanceInactive) <==> !governance.is_active
            &&& told(OtError::EmptyDestinationList) <==> governance.is_active && destinations.len()
                == 0
            &&& told(OtError::TooManyDestinations) <==> governance.is_active && destinations.len()
                > 10
            &&& told(OtError::InvalidBpsTotal) <==> listed && !whole
            &&& told(OtError::MathOverflow) <==> whole && config.config_version == u64::MAX
        }),
{
    entries_pass_together(destinations, config.areal_fee_destination, 0);
    entries_tell(destinations, config.areal_fee_destination, 0);
}

/// Checking the entries reports only what is wrong with an entry.
proof fn entries_tell(destinations: Seq<BatchDestination>, fee_account: Address, i: nat)
    ensures
        batch_entries_check(destinations, fee_account, i) matches Err(e) ==> {
            ||| e == ProgramError::Ot(OtError::ZeroDestinationAddress)
            ||| e == ProgramError::Ot(OtError::InvalidAllocationBps)
            ||| e == ProgramError::Ot(OtError::FeeDestinationCollision)
            ||| e == ProgramError::Ot(OtError::DuplicateDestination)
        },
    decreases destinations.len() - i,
{
    if i < destinations.len() {
        entries_tell(destinations, fee_account, i + 1);
    }
}

/// What is told of the first destination that may not be listed: that it has no address, else that
/// its part is nothing or more than everything, else that it is the protocol's fee account, else
/// that it stands in the list before.
pub proof fn first_wrong_entry_is_told(
    destinations: Seq<BatchDestination>,
    fee_account: Address,
    i: nat,
    k: nat,
)
    requires
        i <= k < destinations.len(),
        forall|j: int|
            i <= j < k ==> #[trigger] may_be_listed(destinations, j, fee_account),
        !may_be_listed(destinations, k as int, fee_account),
    ensures
        ({
            let entry = destinations[k as int];
            let r = batch_entries_check(destinations, fee_account, i);
            let told = |e: OtError| r == Err::<(), ProgramError>(ProgramError::Ot(e));
            let named = entry.address != zero_address();
            let sized = named && 1 <= entry.allocation_bps <= 10_000;
            &&& told(OtError::ZeroDestinationAddress) <==> !named
            &&& told(OtError::InvalidAllocationBps) <==> named && !sized
            &&& told(OtError::FeeDestinationCollision) <==> sized && entry.address == fee_account
            &&& told(OtError::DuplicateDestination) <==> sized && entry.address != fee_account
        }),
    decreases k - i,
{
    entry_passes(destinations, i as int, fee_account);
    if i < k {
        assert(may_be_listed(destinations, i as int, fee_account));
        first_wrong_entry_is_told(destinations, fee_account, i + 1, k);
    }
}

/// What a replacement leaves: the named destinations in their order, each with its address, part
/// and label; empty slots behind them; the version raised by one; and everything else as it was.
pub proof fn replacement_keeps_the_list(
    before: RevenueConfig,
    after: RevenueConfig,
    destinations: Seq<BatchDestination>,
    k: int,
)
    requires
        destinations.len() <= 10,
        replaced(before, after, destinations),
        0 <= k < 10,
    ensures
        after.active_count == destinations.len(),
        after.config_version - before.config_version == 1,
        after.ot_mint == before.ot_mint,
        after.areal_fee_destination == before.areal_fee_destination,
        after.bump == before.bump,
        k < destinations.len() ==> {
            &&& after.destinations[k].address == destinations[k].address
            &&& after.destinations[k].allocation_bps == destinations[k].allocation_bps
            &&& after.destinations[k].label == destinations[k].label
        },
        k >= destinations.len() ==> {
            &&& after.destinations[k].address == zero_address()
            &&& after.destinations[k].allocation_bps == 0
            &&& after.destinations[k].label == zero_address()
        },
{
}

} // verus!
