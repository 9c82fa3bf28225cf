//! Changes of the creator list.
use vstd::prelude::*;

use crate::account::{AccountInfo, Context};
use crate::address::{is_zero_address, zero_address, Address};
use crate::error::{DexError, ProgramError};
use crate::native_dex::constants::MAX_POOL_CREATORS;
use crate::native_dex::events::PoolCreatorsUpdated;
use crate::native_dex::pool_creation::find_creator;
use crate::native_dex::state::PoolCreators;

verus! {

/// Puts a wallet on the list.
pub const ACTION_ADD: u8 = 0;

/// Takes a wallet off the list.
pub const ACTION_REMOVE: u8 = 1;

/// The accounts of a list change.
pub struct UpdatePoolCreators {
    pub authority: AccountInfo,
    pub dex_config: AccountInfo,
    pub pool_creators: AccountInfo,
}

/// Why a list change is refused, or nothing where it is accepted.
pub open spec fn list_change_refusal(creators: PoolCreators, wallet: Address, action: u8) -> Option<
    ProgramError,
> {
    if wallet == zero_address() {
        Some(ProgramError::Dex(DexError::ZeroAddress))
    } else if action == ACTION_ADD {
        if creators.listed().contains(wallet) {
            Some(ProgramError::Dex(DexError::CreatorAlreadyExists))
        } else if creators.active_count >= MAX_POOL_CREATORS {
            Some(ProgramError::Dex(DexError::WhitelistFull))
        } else {
            None
        }
    } else if action == ACTION_REMOVE {
        if creators.listed().contains(wallet) {
            None
        } else {
            Some(ProgramError::Dex(DexError::CreatorNotFound))
        }
    } else {
        Some(ProgramError::InvalidArgument)
    }
}

/// The list of `list` once `wallet` at `place` left it: the last wallet takes its place.
pub open spec fn without(list: Seq<Address>, place: int) -> Seq<Address> {
    list.update(place, list.last()).drop_last()
}

/// Whether `place` is the first place of `wallet` on `list`.
pub open spec fn first_place(list: Seq<Address>, wallet: Address, place: int) -> bool {
    0 <= place < list.len() && list[place] == wallet && forall|j: int|
        0 <= j < place ==> list[j] != wallet
}

/// The list after an accepted change.
pub open spec fn list_changed(
    before: Seq<Address>,
    after: Seq<Address>,
    wallet: Address,
    action: u8,
) -> bool {
    if action == ACTION_ADD {
        after == before.push(wallet)
    } else {
        exists|place: int| first_place(before, wallet, place) && after == without(before, place)
    }
}

/// Whether the slots past the listed wallets are kept, but for the one that a removed wallet
/// leaves empty.
pub open spec fn rest_kept(before: PoolCreators, after: PoolCreators, action: u8) -> bool {
    forall|i: int|
        after.active_count <= i < 10 ==> #[trigger] after.creators[i] == if action == ACTION_REMOVE
            && i == after.active_count {
            zero_address()
        } else {
            before.creators[i]
        }
}

/// Adds a wallet to the creator list or removes one from it.
pub fn handler(
    ctx: &Context<'_, UpdatePoolCreators>,
    creators: &PoolCreators,
    wallet: Address,
    action: u8,
) -> (r: Result<(PoolCreators, PoolCreatorsUpdated), ProgramError>)
    requires
        creators.wf(),
    ensures
        match (r, list_change_refusal(*creators, wallet, action)) {
            (Err(e), Some(refusal)) => e == refusal,
            (Ok((after, event)), None) => {
                &&& after.wf()
                &&& list_changed(creators.listed(), after.listed(), wallet, action)
                &&& rest_kept(*creators, after, action)
                &&& after.authority == creators.authority
                &&& after.bump == creators.bump
                &&& event == (PoolCreatorsUpdated {
                    wallet,
                    action,
                    active_count: after.active_count,
                    timestamp: ctx.now,
                })
            },
            _ => false,
        },
{
    if is_zero_address(&wallet) {
        return Err(ProgramError::Dex(DexError::ZeroAddress));
    }
    let mut updated = *creators;
    let place = find_creator(creators, &wallet);
    if action == ACTION_ADD {
        if place.is_some() {
            return Err(ProgramError::Dex(DexError::CreatorAlreadyExists));
        }
        if creators.active_count as usize >= MAX_POOL_CREATORS {
            return Err(ProgramError::Dex(DexError::WhitelistFull));
        }
        let next: usize = creators.active_count as usize;
        updated.creators[next] = wallet;
        updated.active_count = creators.active_count + 1;
        assert(updated.listed() =~= creators.listed().push(wallet));
    } else if action == ACTION_REMOVE {
        let idx: usize = match place {
            None => {
                return Err(ProgramError::Dex(DexError::CreatorNotFound));
            },
            Some(idx) => idx,
        };
        let last: usize = (creators.active_count - 1) as usize;
        let last_wallet = creators.creators[last];
        updated.creators[idx] = last_wallet;
        updated.creators[last] = zero_address();
        updated.active_count = creators.active_count - 1;
        proof {
            let before = creators.listed();
            assert forall|j: int| 0 <= j < before.len() implies before[j] == creators.creators[j] by {
            }
            assert(first_place(before, wallet, idx as int));
            assert(updated.listed() =~= without(before, idx as int));
        }
    } else {
        return Err(ProgramError::InvalidArgument);
    }
    Ok(
        (
            updated,
            PoolCreatorsUpdated {
                wallet,
                action,
                active_count: updated.active_count,
                timestamp: ctx.now,
            },
        ),
    )
}

/// A list without repetitions stays without them under every accepted change, and gains or loses
/// exactly the changed wallet.
pub proof fn list_stays_distinct(
    creators: PoolCreators,
    after: Seq<Address>,
    wallet: Address,
    action: u8,
)
    requires
        creators.wf(),
        creators.listed().no_duplicates(),
        list_change_refusal(creators, wallet, action) is None,
        list_changed(creators.listed(), after, wallet, action),
    ensures
        after.no_duplicates(),
        action == ACTION_ADD ==> forall|w: Address| #[trigger]
            after.contains(w) <==> creators.listed().contains(w) || w == wallet,
        action == ACTION_REMOVE ==> forall|w: Address| #[trigger]
            after.contains(w) <==> creators.listed().contains(w) && w != wallet,
{
    let before = creators.listed();
    if action == ACTION_ADD {
        assert forall|w: Address| #[trigger] after.contains(w) implies before.contains(w) || w
            == wallet by {
            let k = choose|k: int| 0 <= k < after.len() && after[k] == w;
            if k < before.len() {
                assert(before[k] == w);
            }
        }
        assert forall|w: Address| before.contains(w) || w == wallet implies #[trigger] after.contains(
            w,
        ) by {
            if w == wallet {
                assert(after[before.len() as int] == w);
            } else {
                let k = choose|k: int| 0 <= k < before.len() && before[k] == w;
                assert(after[k] == w);
            }
        }
        assert forall|i: int, j: int| 0 <= i < j < after.len() implies after[i] != after[j] by {
            if j == before.len() {
                assert(before.contains(before[i]));
            }
        }
    } else {
        let place = choose|place: int|
            first_place(before, wallet, place) && after == without(before, place);
        let last = before.len() - 1;
        assert forall|w: Address| #[trigger] after.contains(w) implies before.contains(w) && w
            != wallet by {
            let k = choose|k: int| 0 <= k < after.len() && after[k] == w;
            if k == place {
                assert(w == before[last]);
            } else {
                assert(w == before[k]);
            }
        }
        assert forall|w: Address| before.contains(w) && w != wallet implies #[trigger] after.contains(
            w,
        ) by {
            let k = choose|k: int| 0 <= k < before.len() && before[k] == w;
            if k == last {
                assert(after[place] == w);
            } else {
                assert(after[k] == w);
            }
        }
        assert forall|i: int, j: int| 0 <= i < j < after.len() implies after[i] != after[j] by {
            let bi = if i == place { last } else { i };
            let bj = if j == place { last } else { j };
            assert(after[i] == before[bi]);
            assert(after[j] == before[bj]);
        }
    }
}

/// Taking off a wallet that was just put on gives the list back.
pub proof fn remove_undoes_add(before: Seq<Address>, added: Seq<Address>, wallet: Address, after: Seq<Address>)
    requires
        !before.contains(wallet),
        list_changed(before, added, wallet, ACTION_ADD),
        list_changed(added, after, wallet, ACTION_REMOVE),
    ensures
        after == before,
{
    let place = choose|place: int|
        first_place(added, wallet, place) && after == without(added, place);
    if place < before.len() {
        assert(before[place] == wallet);
    }
    assert(after =~= before);
}

} // verus!
