//! The instructions of the ownership token as they are called: each checks its accounts first.
use vstd::prelude::*;

use crate::account::Context;
use crate::actions::{moved, transfer_if_any, TokenTransfer};
use crate::address::Address;
use crate::calls::{is_claim_call, Instruction};
use crate::error::ProgramError;
use crate::ownership_token::events::{
    AuthorityTransferAccepted, AuthorityTransferProposed, DestinationConfigUpdated,
    RevenueDistributed, TreasurySpent,
};
use crate::ownership_token::instructions::{
    authority_transfer, batch_update_destinations, claim_yd_for_treasury, create_ot_metadata,
    distribute_revenue, initialize_ot, mint_ot, spend_treasury,
};
use crate::ownership_token::instructions::authority_transfer::{
    accept_result, propose_result, AcceptAuthorityTransfer, ProposeAuthorityTransfer,
};
use crate::ownership_token::instructions::batch_update_destinations::{
    batch_check, replaced, BatchUpdateDestinations,
};
use crate::ownership_token::instructions::claim_yd_for_treasury::{
    treasury_claim_plan, ClaimYdForTreasury, TreasuryClaimPlan,
};
use crate::ownership_token::instructions::create_ot_metadata::{
    metadata_bytes, metadata_call, metadata_is_bounded, CreateMetadata, CreateOtMetadata,
};
use crate::ownership_token::instructions::distribute_revenue::{
    distributed, distribution_balance, marked, payout, payouts, protocol_fee, DistributeOutcome,
    DistributeRevenue,
};
use crate::ownership_token::instructions::initialize_ot::{
    initialize_ot_result, InitializeOt, InitializeOtOutcome,
};
use crate::ownership_token::instructions::mint_ot::{mint_result, MintOt, MintOutcome};
use crate::ownership_token::instructions::spend_treasury::{spend_result, SpendTreasury};
use crate::ownership_token::state::{
    BatchDestination, OtConfig, OtGovernance, OtTreasury, RevenueAccount, RevenueConfig,
};
use crate::seeds::SignedBy;

verus! {

/// Registers an existing mint as an ownership token.
pub fn initialize_ot(
    ctx: &Context<'_, InitializeOt>,
    name: [u8; 32],
    symbol: [u8; 10],
    uri: [u8; 200],
    initial_authority: Address,
) -> (r: Result<InitializeOtOutcome, ProgramError>)
    ensures
        r == if ctx.accounts.valid(*ctx.program_id) {
            initialize_ot_result(
            *ctx.accounts,
            *ctx.program_id,
            name,
            symbol,
            uri,
            initial_authority,
            ctx.now,
        )
        } else {
            Err(ProgramError::AccountConstraint)
        },
        r matches Ok(o) ==> {
            &&& ctx.accounts.deployer.is_signer
            &&& o.config.ot_mint == ctx.accounts.ot_mint.address
            &&& o.config.name == name
            &&& o.config.symbol == symbol
            &&& o.config.uri == uri
            &&& o.governance.authority == initial_authority
            &&& o.event.timestamp == ctx.now
        },
{
    if !ctx.accounts.check(ctx.program_id) {
        return Err(ProgramError::AccountConstraint);
    }
    initialize_ot::handler(ctx, name, symbol, uri, initial_authority)
}

/// The authority mints ownership tokens to any wallet.
pub fn mint_ot(
    ctx: &Context<'_, MintOt>,
    governance: &OtGovernance,
    config: &OtConfig,
    amount: u64,
) -> (r: Result<MintOutcome, ProgramError>)
    ensures
        r == if ctx.accounts.valid(*ctx.program_id, governance.authority) {
            mint_result(*ctx.accounts, *governance, *config, amount, ctx.now)
        } else {
            Err(ProgramError::AccountConstraint)
        },
        r matches Ok(o) ==> {
            &&& ctx.accounts.authority.is_signer
            &&& ctx.accounts.authority.address == governance.authority
            &&& o.mint.amount == amount
            &&& o.mint.account == ctx.accounts.recipient_token_account.address
            &&& o.config.total_minted == config.total_minted + amount
            &&& o.event.timestamp == ctx.now
        },
{
    if !ctx.accounts.check(ctx.program_id, &governance.authority) {
        return Err(ProgramError::AccountConstraint);
    }
    mint_ot::handler(ctx, governance, config, amount)
}

/// Anyone lets the revenue be distributed.
pub fn distribute_revenue(
    ctx: &Context<'_, DistributeRevenue>,
    revenue: &RevenueAccount,
    config: &RevenueConfig,
) -> (r: Result<DistributeOutcome, ProgramError>)
    requires
        config.wf(),
    ensures
        !ctx.accounts.valid(*ctx.program_id)
            ==> (r matches Err(e) && e == ProgramError::AccountConstraint),
        ctx.accounts.valid(*ctx.program_id) ==> match (
            r,
            distribution_balance(
                *ctx.accounts,
                ctx.remaining_accounts@,
                *revenue,
                *config,
                ctx.now,
            ),
        ) {
            (Err(e), Err(expected)) => e == expected,
            (Ok(o), Ok(balance)) => {
                &&& o.in_progress == marked(distributed(*revenue, balance, ctx.now))
                &&& o.revenue == distributed(*revenue, balance, ctx.now)
                &&& o.fee == transfer_if_any(
                    ctx.accounts.revenue_token_account.address,
                    ctx.accounts.areal_fee_account.address,
                    ctx.accounts.revenue_account.address,
                    protocol_fee(balance) as u64,
                    SignedBy::Revenue { ot_mint: revenue.ot_mint, bump: revenue.bump },
                )
                &&& o.payouts@.len() == config.active_count
                &&& forall|i: int|
                    0 <= i < o.payouts@.len() ==> #[trigger] o.payouts@[i] == payout(
                        *ctx.accounts,
                        ctx.remaining_accounts@,
                        *revenue,
                        *config,
                        balance,
                        i,
                    )
                &&& o.event == (RevenueDistributed {
                    ot_mint: revenue.ot_mint,
                    total_amount: balance,
                    protocol_fee: protocol_fee(balance) as u64,
                    distribution_count: (revenue.distribution_count + 1) as u64,
                    num_destinations: config.active_count,
                    timestamp: ctx.now,
                })
            },
            _ => false,
        },
        r matches Ok(o) ==> {
            &&& ctx.accounts.crank.is_signer
            &&& ctx.accounts.revenue_token_account.token_amount() == Ok::<u64, ProgramError>(
                o.event.total_amount,
            )
            &&& o.event.total_amount >= revenue.min_distribution_amount
            &&& o.event.protocol_fee == moved(o.fee)
            &&& o.event.num_destinations == o.payouts@.len()
            &&& o.event.distribution_count == revenue.distribution_count + 1
            &&& o.event.ot_mint == revenue.ot_mint
            &&& o.event.timestamp == ctx.now
            &&& o.revenue.total_distributed == revenue.total_distributed + o.event.total_amount
            &&& o.revenue.distribution_count == o.event.distribution_count
            &&& o.revenue.last_distribution_ts == ctx.now
            &&& !o.revenue.is_distributing
            &&& o.in_progress == (RevenueAccount { is_distributing: true, ..o.revenue })
            &&& o.fee matches Some(t) ==> t.to == ctx.accounts.areal_fee_account.address && t.from
                == ctx.accounts.revenue_token_account.address
        },
{
    if !ctx.accounts.check(ctx.program_id) {
        return Err(ProgramError::AccountConstraint);
    }
    distribute_revenue::handler(ctx, revenue, config)
}

/// The authority pays out of the treasury.
pub fn spend_treasury(
    ctx: &Context<'_, SpendTreasury>,
    governance: &OtGovernance,
    treasury: &OtTreasury,
    amount: u64,
) -> (r: Result<(TokenTransfer, TreasurySpent), ProgramError>)
    ensures
        r == if ctx.accounts.valid(*ctx.program_id, governance.authority) {
            spend_result(*ctx.accounts, *governance, *treasury, amount, ctx.now)
        } else {
            Err(ProgramError::AccountConstraint)
        },
        r matches Ok((transfer, event)) ==> {
            &&& ctx.accounts.authority.is_signer
            &&& ctx.accounts.authority.address == governance.authority
            &&& transfer.amount == amount
            &&& transfer.from == ctx.accounts.treasury_token_account.address
            &&& transfer.to == ctx.accounts.destination_token_account.address
            &&& event.timestamp == ctx.now
        },
{
    if !ctx.accounts.check(ctx.program_id, &governance.authority) {
        return Err(ProgramError::AccountConstraint);
    }
    spend_treasury::handler(ctx, governance, treasury, amount)
}

/// The authority replaces the revenue destinations.
pub fn batch_update_destinations(
    ctx: &Context<'_, BatchUpdateDestinations>,
    governance: &OtGovernance,
    config: &RevenueConfig,
    destinations: &Vec<BatchDestination>,
) -> (r: Result<(RevenueConfig, DestinationConfigUpdated), ProgramError>)
    ensures
        !ctx.accounts.valid(*ctx.program_id, governance.authority)
            ==> (r matches Err(e) && e == ProgramError::AccountConstraint),
        ctx.accounts.valid(*ctx.program_id, governance.authority)
            ==> match (r, batch_check(*governance, *config, destinations@)) {
            (Err(e), Err(expected)) => e == expected,
            (Ok((after, event)), Ok(_)) => {
                &&& replaced(*config, after, destinations@)
                &&& event == (DestinationConfigUpdated {
                    ot_mint: config.ot_mint,
                    config_version: (config.config_version + 1) as u64,
                    active_count: destinations@.len() as u8,
                    timestamp: ctx.now,
                })
            },
            _ => false,
        },
        r matches Ok((after, event)) ==> {
            &&& ctx.accounts.authority.is_signer
            &&& ctx.accounts.authority.address == governance.authority
            &&& after.active_count == destinations@.len()
            &&& event.active_count == after.active_count
            &&& event.config_version == after.config_version
            &&& event.config_version == config.config_version + 1
            &&& event.ot_mint == config.ot_mint
            &&& event.timestamp == ctx.now
        },
{
    if !ctx.accounts.check(ctx.program_id, &governance.authority) {
        return Err(ProgramError::AccountConstraint);
    }
    batch_update_destinations::handler(ctx, governance, config, destinations)
}

/// The authority proposes its successor.
pub fn propose_authority_transfer(
    ctx: &Context<'_, ProposeAuthorityTransfer>,
    governance: &OtGovernance,
    new_authority: Address,
) -> (r: Result<(OtGovernance, AuthorityTransferProposed), ProgramError>)
    ensures
        r == if ctx.accounts.valid(*ctx.program_id, governance.authority) {
            propose_result(*governance, new_authority, ctx.now)
        } else {
            Err(ProgramError::AccountConstraint)
        },
        r matches Ok((after, event)) ==> {
            &&& ctx.accounts.authority.is_signer
            &&& ctx.accounts.authority.address == governance.authority
            &&& after.pending_authority == new_authority
            &&& after.authority == governance.authority
            &&& event.timestamp == ctx.now
        },
{
    if !ctx.accounts.check(ctx.program_id, &governance.authority) {
        return Err(ProgramError::AccountConstraint);
    }
    authority_transfer::propose_handler(ctx, governance, new_authority)
}

/// The proposed successor takes over.
pub fn accept_authority_transfer(
    ctx: &Context<'_, AcceptAuthorityTransfer>,
    governance: &OtGovernance,
) -> (r: Result<(OtGovernance, AuthorityTransferAccepted), ProgramError>)
    ensures
        r == if ctx.accounts.valid(*ctx.program_id) {
            accept_result(*governance, ctx.accounts.new_authority.address, ctx.now)
        } else {
            Err(ProgramError::AccountConstraint)
        },
        r matches Ok((after, event)) ==> {
            &&& ctx.accounts.new_authority.is_signer
            &&& ctx.accounts.new_authority.address == governance.pending_authority
            &&& after.authority == ctx.accounts.new_authority.address
            &&& event.timestamp == ctx.now
        },
{
    if !ctx.accounts.check(ctx.program_id) {
        return Err(ProgramError::AccountConstraint);
    }
    authority_transfer::accept_handler(ctx, governance)
}

/// Anyone lets the treasury claim yield. `claim_yd_for_treasury::finish` completes it.
pub fn claim_yd_for_treasury(
    ctx: &Context<'_, ClaimYdForTreasury>,
    rwt_mint: &Address,
    cumulative_amount: u64,
    merkle_proof: &Vec<Address>,
) -> (r: Result<(TreasuryClaimPlan, Instruction), ProgramError>)
    requires
        merkle_proof@.len() <= u32::MAX,
    ensures
        !ctx.accounts.valid(*ctx.program_id)
            ==> (r matches Err(e) && e == ProgramError::AccountConstraint),
        ctx.accounts.valid(*ctx.program_id)
            ==> match (r, treasury_claim_plan(*ctx.accounts, *ctx.program_id, *rwt_mint)) {
            (Ok((plan, call)), Ok(expected)) => plan == expected && is_claim_call(
                call,
                expected.claim,
                cumulative_amount,
                merkle_proof@,
            ),
            (Err(e), Err(expected)) => e == expected,
            _ => false,
        },
        r matches Ok((plan, call)) ==> {
            &&& ctx.accounts.crank.is_signer
            &&& plan.claim.claimant == ctx.accounts.ot_treasury.address
            &&& plan.claim.claimant_token == ctx.accounts.treasury_rwt_ata.address
            &&& plan.claim.payer == ctx.accounts.crank.address
            &&& is_claim_call(call, plan.claim, cumulative_amount, merkle_proof@)
        },
{
    if !ctx.accounts.check(ctx.program_id) {
        return Err(ProgramError::AccountConstraint);
    }
    claim_yd_for_treasury::handler(ctx, rwt_mint, cumulative_amount, merkle_proof)
}

/// The authority publishes wallet metadata of the token.
pub fn create_ot_metadata(
    ctx: &Context<'_, CreateOtMetadata>,
    governance: &OtGovernance,
    config: &OtConfig,
    name: [u8; 32],
    name_len: u8,
    symbol: [u8; 10],
    symbol_len: u8,
    uri: [u8; 200],
    uri_len: u8,
) -> (r: Result<(CreateMetadata, Vec<u8>), ProgramError>)
    ensures
        !ctx.accounts.valid(*ctx.program_id, governance.authority)
            ==> (r matches Err(e) && e == ProgramError::AccountConstraint),
        ctx.accounts.valid(*ctx.program_id, governance.authority) ==> match (
            r,
            metadata_call(*ctx.accounts, *governance, *config, name_len, symbol_len, uri_len),
        ) {
            (Ok((call, data)), Ok(expected)) => call == expected && data@ == metadata_bytes(
                name@.take(name_len as int),
                symbol@.take(symbol_len as int),
                uri@.take(uri_len as int),
            ),
            (Err(e), Err(expected)) => e == expected,
            _ => false,
        },
        r matches Ok((call, data)) ==> {
            &&& ctx.accounts.authority.is_signer
            &&& ctx.accounts.authority.address == governance.authority
            &&& call.ot_mint == ctx.accounts.ot_mint.address
            &&& call.metadata_account == ctx.accounts.metadata_account.address
            &&& call.payer == ctx.accounts.payer.address
            &&& data@.len() == 20 + name_len + symbol_len + uri_len
        },
{
    if !ctx.accounts.check(ctx.program_id, &governance.authority) {
        return Err(ProgramError::AccountConstraint);
    }
    proof {
        if name_len <= 32 && symbol_len <= 10 && uri_len <= 200 {
            metadata_is_bounded(
                name@.take(name_len as int),
                symbol@.take(symbol_len as int),
                uri@.take(uri_len as int),
            );
        }
    }
    create_ot_metadata::handler(ctx, governance, config, name, name_len, symbol, symbol_len, uri, uri_len)
}

} // verus!
