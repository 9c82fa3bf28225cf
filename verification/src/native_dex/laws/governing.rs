//! What the exchange's governance changes, in the terms of the inputs.
use vstd::prelude::*;

use crate::account::AccountInfo;
use crate::address::{zero_address, Address};
use crate::error::{DexError, ProgramError};
use crate::native_dex::constants::DexParams;
use crate::native_dex::events::{
    ArealFeeDestinationUpdated, AuthorityTransferProposed, DexConfigUpdated, PoolPaused,
    PoolUnpaused,
};
use crate::native_dex::instructions::authority_transfer::{
    accept_result, propose_result, AcceptOutcome,
};
use crate::native_dex::instructions::pause::{pause_result, unpause_result, PausePool, UnpausePool};
use crate::native_dex::instructions::update_areal_fee_destination::update_destination_result;
use crate::native_dex::instructions::update_dex_config::update_config_result;
use crate::native_dex::instructions::update_pool_creators::{
    first_place, list_change_refusal, list_changed, rest_kept,
};
use crate::native_dex::state::{DexConfig, PoolCreators, PoolState};

verus! {

/// A configuration change is taken within the fee limit and with a share of at most everything. It
/// sets the four named values, and leaves who governs, who pauses, the successor in waiting and the
/// fee account alone.
pub proof fn configuration_changes_what_it_names(
    params: DexParams,
    config: DexConfig,
    base_fee_bps: u16,
    lp_fee_share_bps: u16,
    rebalancer: Address,
    is_active: bool,
    now: i64,
)
    ensures
        ({
            let r = update_config_result(
                params,
                config,
                base_fee_bps,
                lp_fee_share_bps,
                rebalancer,
                is_active,
                now,
            );
            let told = |e: DexError| r == Err::<(DexConfig, DexConfigUpdated), ProgramError>(
                ProgramError::Dex(e),
            );
            &&& r is Ok <==> base_fee_bps <= params.max_fee_bps && lp_fee_share_bps <= 10_000
            &&& told(DexError::InvalidFee) <==> base_fee_bps > params.max_fee_bps
            &&& told(DexError::InvalidFeeShare) <==> base_fee_bps <= params.max_fee_bps
                && lp_fee_share_bps > 10_000
            &&& r matches Ok((after, event)) ==> {
                &&& after.base_fee_bps == base_fee_bps
                &&& after.lp_fee_share_bps == lp_fee_share_bps
                &&& after.rebalancer == rebalancer
                &&& after.is_active == is_active
                &&& after.authority == config.authority
                &&& after.pending_authority == config.pending_authority
                &&& after.has_pending == config.has_pending
                &&& after.pause_authority == config.pause_authority
                &&& after.areal_fee_destination == config.areal_fee_destination
                &&& after.bump == config.bump
                &&& event.base_fee_bps == base_fee_bps
                &&& event.lp_fee_share_bps == lp_fee_share_bps
                &&& event.rebalancer == rebalancer
                &&& event.is_active == is_active
                &&& event.timestamp == now
            }
        }),
{
}

/// A change of the fee account is taken for any account of reward tokens but the zero address. It
/// changes nothing else, and reports the old and the new account where they differ.
pub proof fn fee_account_changes_alone(
    params: DexParams,
    config: DexConfig,
    new_account: AccountInfo,
    now: i64,
)
    ensures
        ({
            let r = update_destination_result(params, config, new_account, now);
            let told = |e: DexError| r == Err::<
                (DexConfig, Option<ArealFeeDestinationUpdated>),
                ProgramError,
            >(ProgramError::Dex(e));
            let mint = new_account.token_mint();
            let rewards = mint == Ok::<Address, ProgramError>(params.rwt_mint);
            &&& r is Ok <==> rewards && new_account.address != zero_address()
            &&& mint is Ok && !rewards ==> told(DexError::InvalidProtocolFeeDestination)
            &&& rewards && new_account.address == zero_address() ==> told(
                DexError::InvalidFeeDestination,
            )
            &&& r matches Ok((after, event)) ==> {
                &&& after == (DexConfig { areal_fee_destination: new_account.address, ..config })
                &&& event is Some <==> new_account.address != config.areal_fee_destination
                &&& event matches Some(e) ==> e.old_destination == config.areal_fee_destination
                    && e.new_destination == new_account.address && e.timestamp == now
            }
        }),
{
}

/// Only the pause authority pauses and resumes a pool, and of the pool nothing else changes.
pub proof fn pausing_changes_the_switch_alone(
    pausing: PausePool,
    resuming: UnpausePool,
    config: DexConfig,
    pool: PoolState,
    now: i64,
)
    ensures
        ({
            let p = pause_result(pausing, config, pool, now);
            let u = unpause_result(resuming, config, pool, now);
            let refusal = ProgramError::Dex(DexError::UnauthorizedPause);
            &&& p is Ok <==> pausing.pause_authority.address == config.pause_authority
            &&& u is Ok <==> resuming.pause_authority.address == config.pause_authority
            &&& p is Err ==> p == Err::<(PoolState, PoolPaused), ProgramError>(refusal)
            &&& u is Err ==> u == Err::<(PoolState, PoolUnpaused), ProgramError>(refusal)
            &&& p matches Ok((after, event)) ==> after == (PoolState { is_active: false, ..pool })
                && event.pool == pausing.pool_state.address && event.timestamp == now
            &&& u matches Ok((after, event)) ==> after == (PoolState { is_active: true, ..pool })
                && event.pool == resuming.pool_state.address && event.timestamp == now
        }),
{
}

/// A proposal is taken for anyone but the zero address and the present authority. It replaces the
/// successor in waiting and changes nothing else. The successor alone takes over: of the exchange
/// and of the creator list, leaving nobody in waiting and everything else as it is.
pub proof fn authority_changes_alone(
    config: DexConfig,
    creators: PoolCreators,
    new_authority: Address,
    signer: Address,
    now: i64,
)
    ensures
        ({
            let p = propose_result(config, new_authority, now);
            let told = |e: DexError| p == Err::<(DexConfig, AuthorityTransferProposed), ProgramError>(
                ProgramError::Dex(e),
            );
            &&& p is Ok <==> new_authority != zero_address() && new_authority != config.authority
            &&& told(DexError::ZeroAddress) <==> new_authority == zero_address()
            &&& told(DexError::SelfTransfer) <==> new_authority != zero_address() && new_authority
                == config.authority
            &&& p matches Ok((after, event)) ==> {
                &&& after == (DexConfig {
                    pending_authority: new_authority,
                    has_pending: true,
                    ..config
                })
                &&& event.current_authority == config.authority
                &&& event.pending_authority == new_authority
                &&& event.timestamp == now
            }
        }),
        ({
            let a = accept_result(config, creators, signer, now);
            let told = |e: DexError| a == Err::<AcceptOutcome, ProgramError>(ProgramError::Dex(e));
            &&& a is Ok <==> config.has_pending && signer == config.pending_authority
            &&& told(DexError::NoPendingAuthority) <==> !config.has_pending
            &&& told(DexError::InvalidPendingAuthority) <==> config.has_pending && signer
                != config.pending_authority
            &&& a matches Ok(o) ==> {
                &&& o.config == (DexConfig {
                    authority: signer,
                    pending_authority: zero_address(),
                    has_pending: false,
                    ..config
                })
                &&& o.creators == (PoolCreators { authority: signer, ..creators })
                &&& o.event.old_authority == config.authority
                &&& o.event.new_authority == signer
                &&& o.event.timestamp == now
            }
        }),
{
}

/// When a change of the creator list is taken: of any wallet but the zero address, onto the list
/// where it does not stand on it and there is room, off the list where it stands on it.
pub proof fn list_change_is_owed(creators: PoolCreators, wallet: Address, action: u8)
    ensures
        ({
            let refusal = list_change_refusal(creators, wallet, action);
            let told = |e: DexError| refusal == Some(ProgramError::Dex(e));
            let listed = creators.creators@.take(creators.active_count as int).contains(wallet);
            let named = wallet != zero_address();
            &&& refusal is None <==> named && ((action == 0 && !listed
                && creators.active_count < 10)
                || (action == 1 && listed))
            &&& told(DexError::ZeroAddress) <==> !named
            &&& told(DexError::CreatorAlreadyExists) <==> named && action == 0 && listed
            &&& told(DexError::WhitelistFull) <==> named && action == 0 && !listed
                && creators.active_count >= 10
            &&& told(DexError::CreatorNotFound) <==> named && action == 1 && !listed
            &&& refusal == Some(ProgramError::InvalidArgument) <==> named && action > 1
        }),
{
}

/// What a change of the creator list does: a wallet that is put on comes last and everyone else
/// keeps their place; a wallet that is taken off leaves its place to the last one, everyone else
/// keeps theirs, and the freed slot is emptied. The list grows or shrinks by one.
pub proof fn list_changes_by_one_wallet(
    before: PoolCreators,
    after: PoolCreators,
    wallet: Address,
    action: u8,
)
    requires
        before.active_count <= 10,
        after.active_count <= 10,
        action <= 1,
        list_changed(before.listed(), after.listed(), wallet, action),
        rest_kept(before, after, action),
    ensures
        action == 0 ==> {
            &&& after.active_count == before.active_count + 1
            &&& after.creators[before.active_count as int] == wallet
            &&& forall|i: int|
                0 <= i < before.active_count ==> #[trigger] after.creators[i] == before.creators[i]
        },
        action == 1 ==> {
            &&& after.active_count == before.active_count - 1
            &&& after.creators[after.active_count as int] == zero_address()
            &&& exists|place: int|
                {
                    &&& #[trigger] first_place(before.listed(), wallet, place)
                    &&& place < after.active_count ==> after.creators[place]
                        == before.creators[after.active_count as int]
                    &&& forall|i: int|
                        0 <= i < after.active_count && i != place
                            ==> #[trigger] after.creators[i] == before.creators[i]
                }
        },
{
    let b = before.listed();
    let a = after.listed();
    assert(b.len() == before.active_count);
    assert(a.len() == after.active_count);
    assert forall|i: int| 0 <= i < a.len() implies #[trigger] a[i] == after.creators[i] by {
    }
    assert forall|i: int| 0 <= i < b.len() implies #[trigger] b[i] == before.creators[i] by {
    }
    if action == 0 {
        assert(a == b.push(wallet));
        assert(a[b.len() as int] == wallet);
        assert forall|i: int| 0 <= i < before.active_count implies #[trigger] after.creators[i]
            == before.creators[i] by {
            assert(a[i] == b[i]);
        }
    } else {
        let place = choose|place: int|
            first_place(b, wallet, place)
                && a == crate::native_dex::instructions::update_pool_creators::without(b, place);
        assert(first_place(b, wallet, place));
        assert(a.len() == b.len() - 1);
        if place < a.len() {
            assert(a[place] == b[a.len() as int]);
        }
        assert forall|i: int| 0 <= i < after.active_count
            && i != place implies #[trigger] after.creators[i]
            == before.creators[i] by {
            assert(a[i] == b[i]);
        }
    }
}

} // verus!
