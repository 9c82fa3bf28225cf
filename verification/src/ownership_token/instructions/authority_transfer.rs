//! Transfer of an ownership token's governance, in two steps.
use vstd::prelude::*;

use crate::account::{AccountInfo, Context};
use crate::address::{address_eq, is_zero_address, zero_address, Address};
use crate::error::{OtError, ProgramError};
use crate::ownership_token::events::{AuthorityTransferAccepted, AuthorityTransferProposed};
use crate::ownership_token::state::OtGovernance;

verus! {

/// The accounts of a proposal.
pub struct ProposeAuthorityTransfer {
    pub authority: AccountInfo,
    pub ot_mint: AccountInfo,
    pub ot_governance: AccountInfo,
}

/// What a proposal does, or why it is refused. An inactive governance may propose too.
pub open spec fn propose_result(governance: OtGovernance, new_authority: Address, now: i64) -> Result<
    (OtGovernance, AuthorityTransferProposed),
    ProgramError,
> {
    if new_authority == zero_address() {
        Err(ProgramError::Ot(OtError::ZeroAuthority))
    } else if new_authority == governance.authority {
        Err(ProgramError::Ot(OtError::AuthorityTransferToSelf))
    } else {
        Ok(
            (
                OtGovernance { pending_authority: new_authority, has_pending: true, ..governance },
                AuthorityTransferProposed {
                    ot_mint: governance.ot_mint,
                    current_authority: governance.authority,
                    pending_authority: new_authority,
                    timestamp: now,
                },
            ),
        )
    }
}

/// The authority proposes its successor.
pub fn propose_handler(
    ctx: &Context<'_, ProposeAuthorityTransfer>,
    governance: &OtGovernance,
    new_authority: Address,
) -> (r: Result<(OtGovernance, AuthorityTransferProposed), ProgramError>)
    ensures
        r == propose_result(*governance, new_authority, ctx.now),
{
    if is_zero_address(&new_authority) {
        return Err(ProgramError::Ot(OtError::ZeroAuthority));
    }
    if address_eq(&new_authority, &governance.authority) {
        return Err(ProgramError::Ot(OtError::AuthorityTransferToSelf));
    }
    let mut updated = *governance;
    updated.pending_authority = new_authority;
    updated.has_pending = true;
    Ok(
        (
            updated,
            AuthorityTransferProposed {
                ot_mint: governance.ot_mint,
                current_authority: governance.authority,
                pending_authority: new_authority,
                timestamp: ctx.now,
            },
        ),
    )
}

/// The accounts of an acceptance.
pub struct AcceptAuthorityTransfer {
    pub new_authority: AccountInfo,
    pub ot_mint: AccountInfo,
    pub ot_governance: AccountInfo,
}

/// What an acceptance by `signer` does, or why it is refused.
pub open spec fn accept_result(governance: OtGovernance, signer: Address, now: i64) -> Result<
    (OtGovernance, AuthorityTransferAccepted),
    ProgramError,
> {
    if !governance.has_pending {
        Err(ProgramError::Ot(OtError::NoPendingAuthority))
    } else if signer != governance.pending_authority {
        Err(ProgramError::Ot(OtError::InvalidPendingAuthority))
    } else {
        Ok(
            (
                OtGovernance {
                    authority: signer,
                    pending_authority: zero_address(),
                    has_pending: false,
                    ..governance
                },
                AuthorityTransferAccepted {
                    ot_mint: governance.ot_mint,
                    old_authority: governance.authority,
                    new_authority: signer,
                    timestamp: now,
                },
            ),
        )
    }
}

/// The proposed successor takes over.
pub fn accept_handler(ctx: &Context<'_, AcceptAuthorityTransfer>, governance: &OtGovernance) -> (r:
    Result<(OtGovernance, AuthorityTransferAccepted), ProgramError>)
    ensures
        r == accept_result(*governance, ctx.accounts.new_authority.address, ctx.now),
{
    if !governance.has_pending {
        return Err(ProgramError::Ot(OtError::NoPendingAuthority));
    }
    let signer = ctx.accounts.new_authority.address;
    if !address_eq(&signer, &governance.pending_authority) {
        return Err(ProgramError::Ot(OtError::InvalidPendingAuthority));
    }
    let mut updated = *governance;
    updated.authority = signer;
    updated.pending_authority = zero_address();
    updated.has_pending = false;
    Ok(
        (
            updated,
            AuthorityTransferAccepted {
                ot_mint: governance.ot_mint,
                old_authority: governance.authority,
                new_authority: signer,
                timestamp: ctx.now,
            },
        ),
    )
}

/// Governance changes hands only when both sides have acted: a proposal leaves the authority in
/// place, only the proposed address can accept, acceptance makes it the authority and closes the
/// proposal, and a second acceptance is refused.
pub proof fn transfer_takes_both_steps(
    governance: OtGovernance,
    new_authority: Address,
    signer: Address,
    now: i64,
    later: i64,
)
    ensures
        propose_result(governance, new_authority, now) matches Ok((proposed, _)) ==> {
            &&& proposed.authority == governance.authority
            &&& accept_result(proposed, signer, later) is Ok <==> signer == new_authority
            &&& accept_result(proposed, signer, later) matches Ok((accepted, _)) ==> {
                &&& accepted.authority == new_authority
                &&& !accepted.has_pending
                &&& accepted.ot_mint == governance.ot_mint
                &&& accepted.is_active == governance.is_active
                &&& accept_result(accepted, signer, later) is Err
            }
        },
{
}

} // verus!
