//! Replacement of the revenue destinations.
use vstd::prelude::*;

use crate::account::{AccountInfo, Context};
use crate::address::{address_eq, is_zero_address, zero_address, Address};
use crate::error::{OtError, ProgramError};
use crate::ownership_token::constants::{BPS_DENOMINATOR, MAX_DESTINATIONS};
use crate::ownership_token::events::DestinationConfigUpdated;
use crate::ownership_token::instructions::distribute_revenue::bps_of_first;
use crate::ownership_token::state::{
    BatchDestination, OtGovernance, RevenueConfig, RevenueDestination,
};

verus! {

/// The accounts of a replacement.
pub struct BatchUpdateDestinations {
    pub authority: AccountInfo,
    pub ot_mint: AccountInfo,
    pub ot_governance: AccountInfo,
    pub revenue_config: AccountInfo,
}

/// Whether `address` is among the first `n` destinations.
pub open spec fn named_before(destinations: Seq<BatchDestination>, n: int, address: Address) -> bool {
    exists|j: int| 0 <= j < n && #[trigger] destinations[j].address == address
}

/// What is wrong with destination `i`, if anything.
pub open spec fn batch_entry_check(
    destinations: Seq<BatchDestination>,
    i: int,
    areal_fee_destination: Address,
) -> Result<(), ProgramError> {
    let destination = destinations[i];
    if destination.address == zero_address() {
        Err(ProgramError::Ot(OtError::ZeroDestinationAddress))
    } else if destination.allocation_bps == 0 || destination.allocation_bps > BPS_DENOMINATOR {
        Err(ProgramError::Ot(OtError::InvalidAllocationBps))
    } else if destination.address == areal_fee_destination {
        Err(ProgramError::Ot(OtError::FeeDestinationCollision))
    } else if named_before(destinations, i, destination.address) {
        Err(ProgramError::Ot(OtError::DuplicateDestination))
    } else {
        Ok(())
    }
}

/// What is wrong with the first destination, from number `i` on, that is not acceptable.
pub open spec fn batch_entries_check(
    destinations: Seq<BatchDestination>,
    areal_fee_destination: Address,
    i: nat,
) -> Result<(), ProgramError>
    decreases destinations.len() - i,
{
    if i >= destinations.len() {
        Ok(())
    } else {
        match batch_entry_check(destinations, i as int, areal_fee_destination) {
            Err(e) => Err(e),
            Ok(_) => batch_entries_check(destinations, areal_fee_destination, i + 1),
        }
    }
}

/// Sum of the first `n` allocations.
pub open spec fn batch_bps(destinations: Seq<BatchDestination>, n: nat) -> int
    decreases n,
{
    if n == 0 {
        0
    } else {
        batch_bps(destinations, (n - 1) as nat) + destinations[n - 1].allocation_bps
    }
}

/// Whether a replacement is accepted.
pub open spec fn batch_check(
    governance: OtGovernance,
    config: RevenueConfig,
    destinations: Seq<BatchDestination>,
) -> Result<(), ProgramError> {
    if !governance.is_active {
        Err(ProgramError::Ot(OtError::GovernanceInactive))
    } else if destinations.len() == 0 {
        Err(ProgramError::Ot(OtError::EmptyDestinationList))
    } else if destinations.len() > MAX_DESTINATIONS {
        Err(ProgramError::Ot(OtError::TooManyDestinations))
    } else {
        match batch_entries_check(destinations, config.areal_fee_destination, 0) {
            Err(e) => Err(e),
            Ok(_) => if batch_bps(destinations, destinations.len()) != BPS_DENOMINATOR {
                Err(ProgramError::Ot(OtError::InvalidBpsTotal))
            } else if config.config_version == u64::MAX {
                Err(ProgramError::Ot(OtError::MathOverflow))
            } else {
                Ok(())
            },
        }
    }
}

/// A named destination as it is kept.
pub open spec fn kept(destination: BatchDestination) -> RevenueDestination {
    RevenueDestination {
        address: destination.address,
        allocation_bps: destination.allocation_bps,
        label: destination.label,
    }
}

/// Whether `after` is `before` with its destinations replaced: the named ones come first, in
/// their order, and every other slot is unused.
pub open spec fn replaced(
    before: RevenueConfig,
    after: RevenueConfig,
    destinations: Seq<BatchDestination>,
) -> bool {
    &&& after.ot_mint == before.ot_mint
    &&& after.areal_fee_destination == before.areal_fee_destination
    &&& after.bump == before.bump
    &&& after.active_count == destinations.len()
    &&& after.config_version == before.config_version + 1
    &&& forall|i: int|
        0 <= i < MAX_DESTINATIONS ==> #[trigger] after.destinations[i] == if i
            < destinations.len() {
            kept(destinations[i])
        } else {
            RevenueDestination::zeroed()
        }
}

/// Checks every destination and adds up the allocations.
pub fn check_batch(destinations: &Vec<BatchDestination>, areal_fee_destination: &Address) -> (r:
    Result<u64, ProgramError>)
    requires
        destinations@.len() <= MAX_DESTINATIONS,
    ensures
        match (r, batch_entries_check(destinations@, *areal_fee_destination, 0)) {
            (Err(e), Err(expected)) => e == expected,
            (Ok(total), Ok(_)) => total == batch_bps(destinations@, destinations@.len()),
            _ => false,
        },
{
    let mut total: u64 = 0;
    let mut i: usize = 0;
    while i < destinations.len()
        invariant
            destinations@.len() <= MAX_DESTINATIONS,
            i <= destinations@.len(),
            total <= i * BPS_DENOMINATOR,
            total == batch_bps(destinations@, i as nat),
            batch_entries_check(destinations@, *areal_fee_destination, 0) == batch_entries_check(
                destinations@,
                *areal_fee_destination,
                i as nat,
            ),
        decreases destinations@.len() - i,
    {
        let destination = &destinations[i];
        if is_zero_address(&destination.address) {
            return Err(ProgramError::Ot(OtError::ZeroDestinationAddress));
        }
        if destination.allocation_bps == 0 || destination.allocation_bps as u64 > BPS_DENOMINATOR {
            return Err(ProgramError::Ot(OtError::InvalidAllocationBps));
        }
        if address_eq(&destination.address, areal_fee_destination) {
            return Err(ProgramError::Ot(OtError::FeeDestinationCollision));
        }
        let mut j: usize = 0;
        while j < i
            invariant
                j <= i < destinations@.len(),
                *destination == destinations@[i as int],
                batch_entry_check(destinations@, i as int, *areal_fee_destination)
                    == if named_before(destinations@, i as int, destination.address) {
                    Err::<(), ProgramError>(ProgramError::Ot(OtError::DuplicateDestination))
                } else {
                    Ok(())
                },
                batch_entries_check(destinations@, *areal_fee_destination, 0)
                    == batch_entries_check(destinations@, *areal_fee_destination, i as nat),
                forall|k: int| 0 <= k < j ==> destinations@[k].address != destination.address,
            decreases i - j,
        {
            if address_eq(&destination.address, &destinations[j].address) {
                return Err(ProgramError::Ot(OtError::DuplicateDestination));
            }
            j += 1;
        }
        total += destination.allocation_bps as u64;
        i += 1;
    }
    Ok(total)
}

/// Replaces all revenue destinations at once.
pub fn handler(
    ctx: &Context<'_, BatchUpdateDestinations>,
    governance: &OtGovernance,
    config: &RevenueConfig,
    destinations: &Vec<BatchDestination>,
) -> (r: Result<(RevenueConfig, DestinationConfigUpdated), ProgramError>)
    ensures
        match (r, batch_check(*governance, *config, destinations@)) {
            (Err(e), Err(expected)) => e == expected,
            (Ok((after, event)), Ok(_)) => {
                &&& replaced(*config, after, destinations@)
                &&& event == (DestinationConfigUpdated {
                    ot_mint: config.ot_mint,
                    config_version: (config.config_version + 1) as u64,
                    active_count: destinations@.len() as u8,
                    timestamp: ctx.now,
                })
            },
            _ => false,
        },
{
    if !governance.is_active {
        return Err(ProgramError::Ot(OtError::GovernanceInactive));
    }
    if destinations.len() == 0 {
        return Err(ProgramError::Ot(OtError::EmptyDestinationList));
    }
    if destinations.len() > MAX_DESTINATIONS {
        return Err(ProgramError::Ot(OtError::TooManyDestinations));
    }
    match check_batch(destinations, &config.areal_fee_destination) {
        Err(e) => {
            return Err(e);
        },
        Ok(total) => {
            if total != BPS_DENOMINATOR {
                return Err(ProgramError::Ot(OtError::InvalidBpsTotal));
            }
        },
    }
    let config_version: u64 = match config.config_version.checked_add(1) {
        None => {
            return Err(ProgramError::Ot(OtError::MathOverflow));
        },
        Some(version) => version,
    };
    let mut list: [RevenueDestination; 10] = [RevenueDestination::zeroed();10];
    let mut i: usize = 0;
    while i < destinations.len()
        invariant
            i <= destinations@.len() <= MAX_DESTINATIONS,
            forall|k: int|
                0 <= k < MAX_DESTINATIONS ==> #[trigger] list[k] == if k < i {
                    kept(destinations@[k])
                } else {
                    RevenueDestination::zeroed()
                },
        decreases destinations@.len() - i,
    {
        let destination = &destinations[i];
        list[i] = RevenueDestination {
            address: destination.address,
            allocation_bps: destination.allocation_bps,
            label: destination.label,
        };
        i += 1;
    }
    let mut after = *config;
    after.destinations = list;
    after.active_count = destinations.len() as u8;
    after.config_version = config_version;
    Ok(
        (
            after,
            DestinationConfigUpdated {
                ot_mint: config.ot_mint,
                config_version,
                active_count: destinations.len() as u8,
                timestamp: ctx.now,
            },
        ),
    )
}

/// A list whose check from `i` on passes passes at every later place.
proof fn entries_pass(destinations: Seq<BatchDestination>, fee: Address, i: nat, k: int)
    requires
        batch_entries_check(destinations, fee, i) is Ok,
        i <= k < destinations.len(),
    ensures
        batch_entry_check(destinations, k, fee) is Ok,
    decreases destinations.len() - i,
{
    if i < k {
        entries_pass(destinations, fee, i + 1, k);
    }
}

/// The kept allocations add up as the named ones do.
proof fn kept_bps(
    active: Seq<RevenueDestination>,
    destinations: Seq<BatchDestination>,
    n: nat,
)
    requires
        n <= destinations.len() == active.len(),
        forall|i: int| 0 <= i < active.len() ==> #[trigger] active[i] == kept(destinations[i]),
    ensures
        bps_of_first(active, n) == batch_bps(destinations, n),
    decreases n,
{
    if n > 0 {
        kept_bps(active, destinations, (n - 1) as nat);
        assert(active[n - 1] == kept(destinations[n - 1]));
    }
}

/// Whatever replacement is accepted, the list it leaves can be distributed to: at least one
/// destination, allocations that sum to a whole, no address twice, none zero, and none the
/// protocol's fee account.
pub proof fn accepted_lists_are_sound(
    governance: OtGovernance,
    before: RevenueConfig,
    after: RevenueConfig,
    destinations: Seq<BatchDestination>,
)
    requires
        batch_check(governance, before, destinations) is Ok,
        replaced(before, after, destinations),
    ensures
        after.wf(),
        after.active_count > 0,
        bps_of_first(after.active(), after.active_count as nat) == BPS_DENOMINATOR,
        forall|i: int|
            0 <= i < after.active_count ==> {
                &&& (#[trigger] after.active()[i]).address != zero_address()
                &&& after.active()[i].address != after.areal_fee_destination
                &&& 0 < after.active()[i].allocation_bps <= BPS_DENOMINATOR
            },
        forall|i: int, j: int|
            0 <= i < j < after.active_count ==> (#[trigger] after.active()[i]).address != (
            #[trigger] after.active()[j]).address,
{
    let active = after.active();
    assert(active.len() == destinations.len());
    assert forall|i: int| 0 <= i < active.len() implies #[trigger] active[i] == kept(
        destinations[i],
    ) by {
        assert(active[i] == after.destinations[i]);
    }
    kept_bps(active, destinations, destinations.len());
    assert forall|i: int| 0 <= i < after.active_count implies {
        &&& (#[trigger] after.active()[i]).address != zero_address()
        &&& after.active()[i].address != after.areal_fee_destination
        &&& 0 < after.active()[i].allocation_bps <= BPS_DENOMINATOR
    } by {
        entries_pass(destinations, before.areal_fee_destination, 0, i);
    }
    assert forall|i: int, j: int| 0 <= i < j < after.active_count implies (
    #[trigger] after.active()[i]).address != (#[trigger] after.active()[j]).address by {
        entries_pass(destinations, before.areal_fee_destination, 0, j);
        assert(active[i] == kept(destinations[i]) && active[j] == kept(destinations[j]));
        if destinations[i].address == destinations[j].address {
            assert(named_before(destinations, j, destinations[j].address));
        }
    }
}

} // verus!
