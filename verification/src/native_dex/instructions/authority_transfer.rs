//! The two steps by which the exchange changes hands.
use vstd::prelude::*;

use crate::account::{AccountInfo, Context};
use crate::address::{address_eq, is_zero_address, zero_address, Address};
use crate::error::{DexError, ProgramError};
use crate::native_dex::events::{AuthorityTransferAccepted, AuthorityTransferProposed};
use crate::native_dex::state::{DexConfig, PoolCreators};

verus! {

/// The accounts of a proposal.
pub struct ProposeAuthorityTransfer {
    pub authority: AccountInfo,
    pub dex_config: AccountInfo,
}

/// The accounts of an acceptance.
pub struct AcceptAuthorityTransfer {
    pub new_authority: AccountInfo,
    pub dex_config: AccountInfo,
    pub pool_creators: AccountInfo,
}

/// What a proposal does, or why it is refused. It replaces an earlier one.
pub open spec fn propose_result(config: DexConfig, new_authority: Address, now: i64) -> Result<
    (DexConfig, AuthorityTransferProposed),
    ProgramError,
> {
    if new_authority == zero_address() {
        Err(ProgramError::Dex(DexError::ZeroAddress))
    } else if new_authority == config.authority {
        Err(ProgramError::Dex(DexError::SelfTransfer))
    } else {
        Ok(
            (
                DexConfig { pending_authority: new_authority, has_pending: true, ..config },
                AuthorityTransferProposed {
                    current_authority: config.authority,
                    pending_authority: new_authority,
                    timestamp: now,
                },
            ),
        )
    }
}

/// Proposes a new authority.
pub fn propose_handler(
    ctx: &Context<'_, ProposeAuthorityTransfer>,
    config: &DexConfig,
    new_authority: Address,
) -> (r: Result<(DexConfig, AuthorityTransferProposed), ProgramError>)
    ensures
        r == propose_result(*config, new_authority, ctx.now),
{
    if is_zero_address(&new_authority) {
        return Err(ProgramError::Dex(DexError::ZeroAddress));
    }
    if address_eq(&new_authority, &config.authority) {
        return Err(ProgramError::Dex(DexError::SelfTransfer));
    }
    let mut updated = *config;
    updated.pending_authority = new_authority;
    updated.has_pending = true;
    Ok(
        (
            updated,
            AuthorityTransferProposed {
                current_authority: config.authority,
                pending_authority: new_authority,
                timestamp: ctx.now,
            },
        ),
    )
}

/// An accepted transfer of authority.
#[derive(Clone, Copy, Debug, PartialEq, Eq)]
pub struct AcceptOutcome {
    pub config: DexConfig,
    pub creators: PoolCreators,
    pub event: AuthorityTransferAccepted,
}

/// What an acceptance does, or why it is refused. The configuration and the creator list change
/// hands together.
pub open spec fn accept_result(
    config: DexConfig,
    creators: PoolCreators,
    signer: Address,
    now: i64,
) -> Result<AcceptOutcome, ProgramError> {
    if !config.has_pending {
        Err(ProgramError::Dex(DexError::NoPendingAuthority))
    } else if signer != config.pending_authority {
        Err(ProgramError::Dex(DexError::InvalidPendingAuthority))
    } else {
        Ok(
            AcceptOutcome {
                config: DexConfig {
                    authority: signer,
                    pending_authority: zero_address(),
                    has_pending: false,
                    ..config
                },
                creators: PoolCreators { authority: signer, ..creators },
                event: AuthorityTransferAccepted {
                    old_authority: config.authority,
                    new_authority: signer,
                    timestamp: now,
                },
            },
        )
    }
}

/// Lets the proposed authority take over.
pub fn accept_handler(
    ctx: &Context<'_, AcceptAuthorityTransfer>,
    config: &DexConfig,
    creators: &PoolCreators,
) -> (r: Result<AcceptOutcome, ProgramError>)
    ensures
        r == accept_result(*config, *creators, ctx.accounts.new_authority.address, ctx.now),
{
    let signer = ctx.accounts.new_authority.address;
    if !config.has_pending {
        return Err(ProgramError::Dex(DexError::NoPendingAuthority));
    }
    if !address_eq(&signer, &config.pending_authority) {
        return Err(ProgramError::Dex(DexError::InvalidPendingAuthority));
    }
    let mut config_after = *config;
    config_after.authority = signer;
    config_after.pending_authority = zero_address();
    config_after.has_pending = false;
    let mut creators_after = *creators;
    creators_after.authority = signer;
    Ok(
        AcceptOutcome {
            config: config_after,
            creators: creators_after,
            event: AuthorityTransferAccepted {
                old_authority: config.authority,
                new_authority: signer,
                timestamp: ctx.now,
            },
        },
    )
}

/// Only the proposed wallet can take over after a proposal, it then holds both accounts, and
/// nobody can take over a second time.
pub proof fn transfer_takes_both_steps(
    config: DexConfig,
    creators: PoolCreators,
    proposed: Address,
    signer: Address,
    now: i64,
)
    ensures
        propose_result(config, proposed, now) matches Ok((pending, _)) ==> {
            &&& pending.authority == config.authority
            &&& accept_result(pending, creators, signer, now) is Ok <==> signer == proposed
            &&& accept_result(pending, creators, signer, now) matches Ok(o) ==> o.config.authority
                == proposed && o.creators.authority == proposed && accept_result(
                o.config,
                o.creators,
                signer,
                now,
            ) is Err
        },
{
}

} // verus!
