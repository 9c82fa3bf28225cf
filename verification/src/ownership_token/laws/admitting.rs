//! Which accounts the ownership token's instructions are run with.
use vstd::prelude::*;

use crate::address::{derived_address, Address};
use crate::laws::{holds_tokens, signs_and_changes, sits_at};
use crate::ownership_token::instructions::authority_transfer::{
    AcceptAuthorityTransfer, ProposeAuthorityTransfer,
};
use crate::ownership_token::instructions::batch_update_destinations::BatchUpdateDestinations;
use crate::ownership_token::instructions::claim_yd_for_treasury::ClaimYdForTreasury;
use crate::ownership_token::instructions::create_ot_metadata::CreateOtMetadata;
use crate::ownership_token::instructions::distribute_revenue::DistributeRevenue;
use crate::ownership_token::instructions::initialize_ot::InitializeOt;
use crate::ownership_token::instructions::mint_ot::MintOt;
use crate::ownership_token::instructions::spend_treasury::SpendTreasury;
use crate::programs::{associated_token_program, spl_token_program, system_program};
use crate::seeds::{
    ot_config_seed, ot_governance_seed, ot_treasury_seed, revenue_config_seed, revenue_seed,
};

verus! {

/// The accounts of `ProposeAuthorityTransfer` are admitted exactly where the authority signs; the
/// authority is the recorded one; the mint belongs to the token program; the governance can be
/// changed; the governance sits at its derived address.
pub proof fn propose_authority_transfer_accounts(
    accounts: ProposeAuthorityTransfer,
    program_id: Address,
    authority: Address,
)
    ensures
        accounts.valid(program_id, authority) <==> {
            &&& accounts.authority.is_signer
            &&& accounts.authority.address == authority
            &&& accounts.ot_mint.owner == spl_token_program()
            &&& accounts.ot_governance.is_writable
            &&& sits_at(
                accounts.ot_governance.address,
                derived_address(
                    seq![ot_governance_seed()@, accounts.ot_mint.address@],
                    program_id@,
                ),
            )
        },
{
}

/// The accounts of `AcceptAuthorityTransfer` are admitted exactly where the new authority signs;
/// the mint belongs to the token program; the governance can be changed; the governance sits at its
/// derived address.
pub proof fn accept_authority_transfer_accounts(
    accounts: AcceptAuthorityTransfer,
    program_id: Address,
)
    ensures
        accounts.valid(program_id) <==> {
            &&& accounts.new_authority.is_signer
            &&& accounts.ot_mint.owner == spl_token_program()
            &&& accounts.ot_governance.is_writable
            &&& sits_at(
                accounts.ot_governance.address,
                derived_address(
                    seq![ot_governance_seed()@, accounts.ot_mint.address@],
                    program_id@,
                ),
            )
        },
{
}

/// The accounts of `BatchUpdateDestinations` are admitted exactly where the authority signs; the
/// authority is the recorded one; the mint belongs to the token program; the governance and the
/// revenue config sit at their derived addresses; the revenue config can be changed.
pub proof fn batch_update_destinations_accounts(
    accounts: BatchUpdateDestinations,
    program_id: Address,
    authority: Address,
)
    ensures
        accounts.valid(program_id, authority) <==> {
            &&& accounts.authority.is_signer
            &&& accounts.authority.address == authority
            &&& accounts.ot_mint.owner == spl_token_program()
            &&& sits_at(
                accounts.ot_governance.address,
                derived_address(
                    seq![ot_governance_seed()@, accounts.ot_mint.address@],
                    program_id@,
                ),
            )
            &&& accounts.revenue_config.is_writable
            &&& sits_at(
                accounts.revenue_config.address,
                derived_address(
                    seq![revenue_config_seed()@, accounts.ot_mint.address@],
                    program_id@,
                ),
            )
        },
{
}

/// The accounts of `ClaimYdForTreasury` are admitted exactly where the crank signs and can be
/// changed; the mint and the yield mint belong to the token program; the treasury sits at its
/// derived address; the treasury reward account and the yield reward vault are token accounts that
/// can be changed; the yield distributor and the yield claim status can be changed; the token
/// program and the system program are the known programs.
pub proof fn claim_yd_for_treasury_accounts(accounts: ClaimYdForTreasury, program_id: Address)
    ensures
        accounts.valid(program_id) <==> {
            &&& signs_and_changes(accounts.crank)
            &&& accounts.ot_mint.owner == spl_token_program()
            &&& sits_at(
                accounts.ot_treasury.address,
                derived_address(seq![ot_treasury_seed()@, accounts.ot_mint.address@], program_id@),
            )
            &&& holds_tokens(accounts.treasury_rwt_ata)
            &&& accounts.yd_ot_mint.owner == spl_token_program()
            &&& accounts.yd_distributor.is_writable
            &&& accounts.yd_claim_status.is_writable
            &&& holds_tokens(accounts.yd_reward_vault)
            &&& accounts.token_program.address == spl_token_program()
            &&& accounts.system_program.address == system_program()
        },
{
}

/// The accounts of `CreateOtMetadata` are admitted exactly where the authority signs; the authority
/// is the recorded one; the governance and the config sit at their derived addresses; the metadata
/// account can be changed; the payer signs and can be changed.
pub proof fn create_ot_metadata_accounts(
    accounts: CreateOtMetadata,
    program_id: Address,
    authority: Address,
)
    ensures
        accounts.valid(program_id, authority) <==> {
            &&& accounts.authority.is_signer
            &&& accounts.authority.address == authority
            &&& sits_at(
                accounts.ot_governance.address,
                derived_address(
                    seq![ot_governance_seed()@, accounts.ot_mint.address@],
                    program_id@,
                ),
            )
            &&& sits_at(
                accounts.ot_config.address,
                derived_address(seq![ot_config_seed()@, accounts.ot_mint.address@], program_id@),
            )
            &&& accounts.metadata_account.is_writable
            &&& signs_and_changes(accounts.payer)
        },
{
}

/// The accounts of `DistributeRevenue` are admitted exactly where the crank signs; the mint belongs
/// to the token program; the revenue account can be changed; the revenue account and the revenue
/// config sit at their derived addresses; the revenue token account and the areal fee account are
/// token accounts that can be changed; the token program is the known one.
pub proof fn distribute_revenue_accounts(accounts: DistributeRevenue, program_id: Address)
    ensures
        accounts.valid(program_id) <==> {
            &&& accounts.crank.is_signer
            &&& accounts.ot_mint.owner == spl_token_program()
            &&& accounts.revenue_account.is_writable
            &&& sits_at(
                accounts.revenue_account.address,
                derived_address(seq![revenue_seed()@, accounts.ot_mint.address@], program_id@),
            )
            &&& holds_tokens(accounts.revenue_token_account)
            &&& sits_at(
                accounts.revenue_config.address,
                derived_address(
                    seq![revenue_config_seed()@, accounts.ot_mint.address@],
                    program_id@,
                ),
            )
            &&& holds_tokens(accounts.areal_fee_account)
            &&& accounts.token_program.address == spl_token_program()
        },
{
}

/// The accounts of `InitializeOt` are admitted exactly where the deployer signs and can be changed;
/// the mint is a token account that can be changed; the dollar mint and the areal fee destination
/// account belong to the token program; the config, the revenue account, the revenue token account,
/// the revenue config, the governance and the treasury can be changed; the config, the revenue
/// account, the revenue config, the governance and the treasury are new; the config, the revenue
/// account, the revenue config, the governance and the treasury sit at their derived addresses; the
/// token program, the system program and the ata program are the known programs.
pub proof fn initialize_ot_accounts(accounts: InitializeOt, program_id: Address)
    ensures
        accounts.valid(program_id) <==> {
            &&& signs_and_changes(accounts.deployer)
            &&& holds_tokens(accounts.ot_mint)
            &&& accounts.usdc_mint.owner == spl_token_program()
            &&& accounts.ot_config.is_writable
            &&& accounts.ot_config.data@.len() == 0
            &&& sits_at(
                accounts.ot_config.address,
                derived_address(seq![ot_config_seed()@, accounts.ot_mint.address@], program_id@),
            )
            &&& accounts.revenue_account.is_writable
            &&& accounts.revenue_account.data@.len() == 0
            &&& sits_at(
                accounts.revenue_account.address,
                derived_address(seq![revenue_seed()@, accounts.ot_mint.address@], program_id@),
            )
            &&& accounts.revenue_token_account.is_writable
            &&& accounts.revenue_config.is_writable
            &&& accounts.revenue_config.data@.len() == 0
            &&& sits_at(
                accounts.revenue_config.address,
                derived_address(
                    seq![revenue_config_seed()@, accounts.ot_mint.address@],
                    program_id@,
                ),
            )
            &&& accounts.ot_governance.is_writable
            &&& accounts.ot_governance.data@.len() == 0
            &&& sits_at(
                accounts.ot_governance.address,
                derived_address(
                    seq![ot_governance_seed()@, accounts.ot_mint.address@],
                    program_id@,
                ),
            )
            &&& accounts.ot_treasury.is_writable
            &&& accounts.ot_treasury.data@.len() == 0
            &&& sits_at(
                accounts.ot_treasury.address,
                derived_address(seq![ot_treasury_seed()@, accounts.ot_mint.address@], program_id@),
            )
            &&& accounts.areal_fee_destination_account.owner == spl_token_program()
            &&& accounts.token_program.address == spl_token_program()
            &&& accounts.system_program.address == system_program()
            &&& accounts.ata_program.address == associated_token_program()
        },
{
}

/// The accounts of `MintOt` are admitted exactly where the authority signs; the authority is the
/// recorded one; the governance and the config sit at their derived addresses; the config and the
/// recipient token account can be changed; the mint is a token account that can be changed; the
/// payer signs and can be changed; the token program, the system program and the ata program are
/// the known programs.
pub proof fn mint_ot_accounts(accounts: MintOt, program_id: Address, authority: Address)
    ensures
        accounts.valid(program_id, authority) <==> {
            &&& accounts.authority.is_signer
            &&& accounts.authority.address == authority
            &&& sits_at(
                accounts.ot_governance.address,
                derived_address(
                    seq![ot_governance_seed()@, accounts.ot_mint.address@],
                    program_id@,
                ),
            )
            &&& accounts.ot_config.is_writable
            &&& sits_at(
                accounts.ot_config.address,
                derived_address(seq![ot_config_seed()@, accounts.ot_mint.address@], program_id@),
            )
            &&& holds_tokens(accounts.ot_mint)
            &&& accounts.recipient_token_account.is_writable
            &&& signs_and_changes(accounts.payer)
            &&& accounts.token_program.address == spl_token_program()
            &&& accounts.system_program.address == system_program()
            &&& accounts.ata_program.address == associated_token_program()
        },
{
}

/// The accounts of `SpendTreasury` are admitted exactly where the authority signs; the authority is
/// the recorded one; the mint and the token mint belong to the token program; the governance and
/// the treasury sit at their derived addresses; the treasury token account and the destination
/// token account are token accounts that can be changed; the token program is the known one.
pub proof fn spend_treasury_accounts(
    accounts: SpendTreasury,
    program_id: Address,
    authority: Address,
)
    ensures
        accounts.valid(program_id, authority) <==> {
            &&& accounts.authority.is_signer
            &&& accounts.authority.address == authority
            &&& accounts.ot_mint.owner == spl_token_program()
            &&& sits_at(
                accounts.ot_governance.address,
                derived_address(
                    seq![ot_governance_seed()@, accounts.ot_mint.address@],
                    program_id@,
                ),
            )
            &&& sits_at(
                accounts.ot_treasury.address,
                derived_address(seq![ot_treasury_seed()@, accounts.ot_mint.address@], program_id@),
            )
            &&& holds_tokens(accounts.treasury_token_account)
            &&& holds_tokens(accounts.destination_token_account)
            &&& accounts.token_mint.owner == spl_token_program()
            &&& accounts.token_program.address == spl_token_program()
        },
{
}

} // verus!
