//! In whose name each exchange instruction acts, and between which accounts.
use vstd::prelude::*;

use crate::native_dex::instructions::add_liquidity::AddLiquidity;
use crate::native_dex::instructions::claim_lp_fees::ClaimLpFees;
use crate::native_dex::instructions::nexus_add_liquidity::NexusAddLiquidity;
use crate::native_dex::instructions::nexus_claim_rewards::NexusClaimRewards;
use crate::native_dex::instructions::nexus_remove_liquidity::NexusRemoveLiquidity;
use crate::native_dex::instructions::nexus_swap::NexusSwap;
use crate::native_dex::instructions::remove_liquidity::RemoveLiquidity;
use crate::native_dex::instructions::swap::Swap;
use crate::native_dex::instructions::zap_liquidity::ZapLiquidity;

verus! {

/// A trade is made by the user who signs it, between their own token accounts and the pool's
/// vaults.
pub proof fn swap_acts(accounts: Swap)
    ensures
        ({
            let view = accounts.as_view();
            &&& view.authority == accounts.user
            &&& view.dex_config == accounts.dex_config
            &&& view.pool_state == accounts.pool_state
            &&& view.user_token_in == accounts.user_token_in
            &&& view.user_token_out == accounts.user_token_out
            &&& view.vault_in == accounts.vault_in
            &&& view.vault_out == accounts.vault_out
            &&& view.areal_fee_account == accounts.areal_fee_account
            &&& view.token_program == accounts.token_program
        }),
{
}

/// A deposit is made by the provider who signs it, from their own token accounts into the pool's
/// vaults; the payer pays for a new position.
pub proof fn add_liquidity_acts(accounts: AddLiquidity)
    ensures
        ({
            let view = accounts.as_view();
            &&& view.authority == accounts.provider
            &&& view.payer == accounts.payer
            &&& view.dex_config == accounts.dex_config
            &&& view.pool_state == accounts.pool_state
            &&& view.lp_position == accounts.lp_position
            &&& view.provider_token_a == accounts.provider_token_a
            &&& view.provider_token_b == accounts.provider_token_b
            &&& view.vault_a == accounts.vault_a
            &&& view.vault_b == accounts.vault_b
        }),
{
}

/// A zap is made by the provider who signs it, from their own token accounts into the pool's
/// vaults; the payer pays for a new position.
pub proof fn zap_liquidity_acts(accounts: ZapLiquidity)
    ensures
        ({
            let view = accounts.as_view();
            &&& view.authority == accounts.provider
            &&& view.payer == accounts.payer
            &&& view.dex_config == accounts.dex_config
            &&& view.pool_state == accounts.pool_state
            &&& view.lp_position == accounts.lp_position
            &&& view.provider_token_a == accounts.provider_token_a
            &&& view.provider_token_b == accounts.provider_token_b
            &&& view.vault_a == accounts.vault_a
            &&& view.vault_b == accounts.vault_b
            &&& view.areal_fee_account == accounts.areal_fee_account
        }),
{
}

/// A withdrawal is made by the provider who signs it, from the pool's vaults to their own token
/// accounts.
pub proof fn remove_liquidity_acts(accounts: RemoveLiquidity)
    ensures
        ({
            let view = accounts.as_view();
            &&& view.authority == accounts.provider
            &&& view.pool_state == accounts.pool_state
            &&& view.lp_position == accounts.lp_position
            &&& view.provider_token_a == accounts.provider_token_a
            &&& view.provider_token_b == accounts.provider_token_b
            &&& view.vault_a == accounts.vault_a
            &&& view.vault_b == accounts.vault_b
        }),
{
}

/// A payout goes to the recipient who signs for it, from the pool's vaults to their own token
/// accounts.
pub proof fn claim_lp_fees_acts(accounts: ClaimLpFees)
    ensures
        ({
            let view = accounts.as_view();
            &&& view.authority == accounts.recipient
            &&& view.pool_state == accounts.pool_state
            &&& view.lp_position == accounts.lp_position
            &&& view.pool_vault_a == accounts.pool_vault_a
            &&& view.pool_vault_b == accounts.pool_vault_b
            &&& view.authority_token_a == accounts.recipient_token_a_ata
            &&& view.authority_token_b == accounts.recipient_token_b_ata
        }),
{
}

/// A trade of the nexus is made by the nexus, not by its manager, between the nexus's token
/// accounts and the pool's vaults.
pub proof fn nexus_swap_acts(accounts: NexusSwap)
    ensures
        ({
            let view = accounts.as_view();
            &&& view.authority == accounts.liquidity_nexus
            &&& view.dex_config == accounts.dex_config
            &&& view.pool_state == accounts.pool_state
            &&& view.user_token_in == accounts.nexus_token_in
            &&& view.user_token_out == accounts.nexus_token_out
            &&& view.vault_in == accounts.vault_in
            &&& view.vault_out == accounts.vault_out
            &&& view.areal_fee_account == accounts.areal_fee_account
            &&& view.token_program == accounts.token_program
        }),
{
}

/// A deposit of the nexus is made by the nexus, from its token accounts into the pool's vaults; the
/// manager pays for a new position.
pub proof fn nexus_add_liquidity_acts(accounts: NexusAddLiquidity)
    ensures
        ({
            let view = accounts.as_view();
            &&& view.authority == accounts.liquidity_nexus
            &&& view.payer == accounts.manager
            &&& view.dex_config == accounts.dex_config
            &&& view.pool_state == accounts.pool_state
            &&& view.lp_position == accounts.lp_position
            &&& view.provider_token_a == accounts.nexus_token_a
            &&& view.provider_token_b == accounts.nexus_token_b
            &&& view.vault_a == accounts.vault_a
            &&& view.vault_b == accounts.vault_b
        }),
{
}

/// A withdrawal of the nexus is made by the nexus, from the pool's vaults to the nexus's token
/// accounts.
pub proof fn nexus_remove_liquidity_acts(accounts: NexusRemoveLiquidity)
    ensures
        ({
            let view = accounts.as_view();
            &&& view.authority == accounts.liquidity_nexus
            &&& view.pool_state == accounts.pool_state
            &&& view.lp_position == accounts.lp_position
            &&& view.provider_token_a == accounts.nexus_token_a
            &&& view.provider_token_b == accounts.nexus_token_b
            &&& view.vault_a == accounts.vault_a
            &&& view.vault_b == accounts.vault_b
        }),
{
}

/// A payout to the nexus goes from the pool's vaults to the nexus's token accounts.
pub proof fn nexus_claim_rewards_acts(accounts: NexusClaimRewards)
    ensures
        ({
            let view = accounts.as_view();
            &&& view.authority == accounts.liquidity_nexus
            &&& view.pool_state == accounts.pool_state
            &&& view.lp_position == accounts.lp_position
            &&& view.pool_vault_a == accounts.pool_vault_a
            &&& view.pool_vault_b == accounts.pool_vault_b
            &&& view.authority_token_a == accounts.nexus_token_a_ata
            &&& view.authority_token_b == accounts.nexus_token_b_ata
        }),
{
}

} // verus!
