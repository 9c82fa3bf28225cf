//! Which accounts the exchange's instructions are run with.
use vstd::prelude::*;

use crate::address::{derived_address, Address};
use crate::laws::{holds_tokens, signs_and_changes, sits_at};
use crate::native_dex::instructions::add_liquidity::AddLiquidity;
use crate::native_dex::instructions::authority_transfer::{
    AcceptAuthorityTransfer, ProposeAuthorityTransfer,
};
use crate::native_dex::instructions::claim_lp_fees::ClaimLpFees;
use crate::native_dex::instructions::compound_yield::CompoundYield;
use crate::native_dex::instructions::compress_liquidity::CompressLiquidity;
use crate::native_dex::instructions::create_concentrated_pool::CreateConcentratedPool;
use crate::native_dex::instructions::create_pool::CreatePool;
use crate::native_dex::instructions::grow_liquidity::GrowLiquidity;
use crate::native_dex::instructions::initialize_dex::InitializeDex;
use crate::native_dex::instructions::initialize_nexus::InitializeNexus;
use crate::native_dex::instructions::nexus_add_liquidity::NexusAddLiquidity;
use crate::native_dex::instructions::nexus_claim_rewards::NexusClaimRewards;
use crate::native_dex::instructions::nexus_deposit::NexusDeposit;
use crate::native_dex::instructions::nexus_record_deposit::NexusRecordDeposit;
use crate::native_dex::instructions::nexus_remove_liquidity::NexusRemoveLiquidity;
use crate::native_dex::instructions::nexus_swap::NexusSwap;
use crate::native_dex::instructions::nexus_withdraw_profits::NexusWithdrawProfits;
use crate::native_dex::instructions::pause::{PausePool, UnpausePool};
use crate::native_dex::instructions::remove_liquidity::RemoveLiquidity;
use crate::native_dex::instructions::shift_liquidity::ShiftLiquidity;
use crate::native_dex::instructions::swap::Swap;
use crate::native_dex::instructions::update_areal_fee_destination::UpdateArealFeeDestination;
use crate::native_dex::instructions::update_dex_config::UpdateDexConfig;
use crate::native_dex::instructions::update_nexus_manager::UpdateNexusManager;
use crate::native_dex::instructions::update_pool_creators::UpdatePoolCreators;
use crate::native_dex::instructions::zap_liquidity::ZapLiquidity;
use crate::programs::{spl_token_program, system_program};
use crate::seeds::{bins_seed, dex_config_seed, liquidity_nexus_seed, pool_creators_seed};

verus! {

/// The accounts of `AddLiquidity` are admitted exactly where the provider signs; the payer signs
/// and can be changed; the dex config sits at its derived address; the pool state and the liquidity
/// position can be changed; the provider token a, the provider token b, the vault a and the vault b
/// are token accounts that can be changed; the token program and the system program are the known
/// programs.
pub proof fn add_liquidity_accounts(accounts: AddLiquidity, program_id: Address)
    ensures
        accounts.valid(program_id) <==> {
            &&& accounts.provider.is_signer
            &&& signs_and_changes(accounts.payer)
            &&& sits_at(
                accounts.dex_config.address,
                derived_address(seq![dex_config_seed()@], program_id@),
            )
            &&& accounts.pool_state.is_writable
            &&& accounts.lp_position.is_writable
            &&& holds_tokens(accounts.provider_token_a)
            &&& holds_tokens(accounts.provider_token_b)
            &&& holds_tokens(accounts.vault_a)
            &&& holds_tokens(accounts.vault_b)
            &&& accounts.token_program.address == spl_token_program()
            &&& accounts.system_program.address == system_program()
        },
{
}

/// The accounts of `ProposeAuthorityTransfer` are admitted exactly where the authority signs; the
/// authority is the recorded one; the dex config can be changed; the dex config sits at its derived
/// address.
pub proof fn propose_authority_transfer_accounts(
    accounts: ProposeAuthorityTransfer,
    program_id: Address,
    authority: Address,
)
    ensures
        accounts.valid(program_id, authority) <==> {
            &&& accounts.authority.is_signer
            &&& accounts.authority.address == authority
            &&& accounts.dex_config.is_writable
            &&& sits_at(
                accounts.dex_config.address,
                derived_address(seq![dex_config_seed()@], program_id@),
            )
        },
{
}

/// The accounts of `AcceptAuthorityTransfer` are admitted exactly where the new authority signs;
/// the dex config and the pool creators can be changed; the dex config and the pool creators sit at
/// their derived addresses.
pub proof fn accept_authority_transfer_accounts(
    accounts: AcceptAuthorityTransfer,
    program_id: Address,
)
    ensures
        accounts.valid(program_id) <==> {
            &&& accounts.new_authority.is_signer
            &&& accounts.dex_config.is_writable
            &&& sits_at(
                accounts.dex_config.address,
                derived_address(seq![dex_config_seed()@], program_id@),
            )
            &&& accounts.pool_creators.is_writable
            &&& sits_at(
                accounts.pool_creators.address,
                derived_address(seq![pool_creators_seed()@], program_id@),
            )
        },
{
}

/// The accounts of `ClaimLpFees` are admitted exactly where the recipient signs; the pool state and
/// the liquidity position can be changed; the pool vault a, the pool vault b, the recipient token a
/// account and the recipient token b account are token accounts that can be changed; the token
/// program is the known one.
pub proof fn claim_lp_fees_accounts(accounts: ClaimLpFees)
    ensures
        accounts.valid() <==> {
            &&& accounts.recipient.is_signer
            &&& accounts.pool_state.is_writable
            &&& accounts.lp_position.is_writable
            &&& holds_tokens(accounts.pool_vault_a)
            &&& holds_tokens(accounts.pool_vault_b)
            &&& holds_tokens(accounts.recipient_token_a_ata)
            &&& holds_tokens(accounts.recipient_token_b_ata)
            &&& accounts.token_program.address == spl_token_program()
        },
{
}

/// The accounts of `CompoundYield` are admitted exactly where the crank signs and can be changed;
/// the pool state, the yield distributor and the yield claim status can be changed; the target
/// vault and the yield reward vault are token accounts that can be changed; the mint belongs to the
/// token program; the token program and the system program are the known programs.
pub proof fn compound_yield_accounts(accounts: CompoundYield)
    ensures
        accounts.valid() <==> {
            &&& signs_and_changes(accounts.crank)
            &&& accounts.pool_state.is_writable
            &&& holds_tokens(accounts.target_vault)
            &&& accounts.ot_mint.owner == spl_token_program()
            &&& accounts.yd_distributor.is_writable
            &&& accounts.yd_claim_status.is_writable
            &&& holds_tokens(accounts.yd_reward_vault)
            &&& accounts.token_program.address == spl_token_program()
            &&& accounts.system_program.address == system_program()
        },
{
}

/// The accounts of `CompressLiquidity` are admitted exactly where the rebalancer signs; the dex
/// config and the bin array sit at their derived addresses; the pool state and the bin array can be
/// changed.
pub proof fn compress_liquidity_accounts(accounts: CompressLiquidity, program_id: Address)
    ensures
        accounts.valid(program_id) <==> {
            &&& accounts.rebalancer.is_signer
            &&& sits_at(
                accounts.dex_config.address,
                derived_address(seq![dex_config_seed()@], program_id@),
            )
            &&& accounts.pool_state.is_writable
            &&& accounts.bin_array.is_writable
            &&& sits_at(
                accounts.bin_array.address,
                derived_address(seq![bins_seed()@, accounts.pool_state.address@], program_id@),
            )
        },
{
}

/// The accounts of `CreateConcentratedPool` are admitted exactly where the creator, the vault a and
/// the vault b sign and can be changed; the dex config and the pool creators sit at their derived
/// addresses; the pool state and the bin array can be changed; the token a mint and the token b
/// mint belong to the token program; the token program and the system program are the known
/// programs.
pub proof fn create_concentrated_pool_accounts(
    accounts: CreateConcentratedPool,
    program_id: Address,
)
    ensures
        accounts.valid(program_id) <==> {
            &&& signs_and_changes(accounts.creator)
            &&& sits_at(
                accounts.dex_config.address,
                derived_address(seq![dex_config_seed()@], program_id@),
            )
            &&& sits_at(
                accounts.pool_creators.address,
                derived_address(seq![pool_creators_seed()@], program_id@),
            )
            &&& accounts.pool_state.is_writable
            &&& accounts.bin_array.is_writable
            &&& accounts.token_a_mint.owner == spl_token_program()
            &&& accounts.token_b_mint.owner == spl_token_program()
            &&& signs_and_changes(accounts.vault_a)
            &&& signs_and_changes(accounts.vault_b)
            &&& accounts.token_program.address == spl_token_program()
            &&& accounts.system_program.address == system_program()
        },
{
}

/// The accounts of `CreatePool` are admitted exactly where the creator, the vault a and the vault b
/// sign and can be changed; the dex config and the pool creators sit at their derived addresses;
/// the pool state can be changed; the token a mint and the token b mint belong to the token
/// program; the token program and the system program are the known programs.
pub proof fn create_pool_accounts(accounts: CreatePool, program_id: Address)
    ensures
        accounts.valid(program_id) <==> {
            &&& signs_and_changes(accounts.creator)
            &&& sits_at(
                accounts.dex_config.address,
                derived_address(seq![dex_config_seed()@], program_id@),
            )
            &&& sits_at(
                accounts.pool_creators.address,
                derived_address(seq![pool_creators_seed()@], program_id@),
            )
            &&& accounts.pool_state.is_writable
            &&& accounts.token_a_mint.owner == spl_token_program()
            &&& accounts.token_b_mint.owner == spl_token_program()
            &&& signs_and_changes(accounts.vault_a)
            &&& signs_and_changes(accounts.vault_b)
            &&& accounts.token_program.address == spl_token_program()
            &&& accounts.system_program.address == system_program()
        },
{
}

/// The accounts of `GrowLiquidity` are admitted exactly where the rebalancer signs; the dex config,
/// the bin array and the liquidity nexus sit at their derived addresses; the pool state, the bin
/// array and the liquidity nexus can be changed; the nexus dollar account and the pool vault b are
/// token accounts that can be changed; the token program is the known one.
pub proof fn grow_liquidity_accounts(accounts: GrowLiquidity, program_id: Address)
    ensures
        accounts.valid(program_id) <==> {
            &&& accounts.rebalancer.is_signer
            &&& sits_at(
                accounts.dex_config.address,
                derived_address(seq![dex_config_seed()@], program_id@),
            )
            &&& accounts.pool_state.is_writable
            &&& accounts.bin_array.is_writable
            &&& sits_at(
                accounts.bin_array.address,
                derived_address(seq![bins_seed()@, accounts.pool_state.address@], program_id@),
            )
            &&& accounts.liquidity_nexus.is_writable
            &&& sits_at(
                accounts.liquidity_nexus.address,
                derived_address(seq![liquidity_nexus_seed()@], program_id@),
            )
            &&& holds_tokens(accounts.nexus_usdc_ata)
            &&& holds_tokens(accounts.pool_vault_b)
            &&& accounts.token_program.address == spl_token_program()
        },
{
}

/// The accounts of `InitializeDex` are admitted exactly where the deployer signs and can be
/// changed; the dex config and the pool creators can be changed; the dex config and the pool
/// creators are new; the dex config and the pool creators sit at their derived addresses; the
/// system program is the known one.
pub proof fn initialize_dex_accounts(accounts: InitializeDex, program_id: Address)
    ensures
        accounts.valid(program_id) <==> {
            &&& signs_and_changes(accounts.deployer)
            &&& accounts.dex_config.is_writable
            &&& accounts.dex_config.data@.len() == 0
            &&& sits_at(
                accounts.dex_config.address,
                derived_address(seq![dex_config_seed()@], program_id@),
            )
            &&& accounts.pool_creators.is_writable
            &&& accounts.pool_creators.data@.len() == 0
            &&& sits_at(
                accounts.pool_creators.address,
                derived_address(seq![pool_creators_seed()@], program_id@),
            )
            &&& accounts.system_program.address == system_program()
        },
{
}

/// The accounts of `InitializeNexus` are admitted exactly where the authority signs and can be
/// changed; the authority is the recorded one; the dex config and the liquidity nexus sit at their
/// derived addresses; the liquidity nexus can be changed; the liquidity nexus is new; the system
/// program is the known one.
pub proof fn initialize_nexus_accounts(
    accounts: InitializeNexus,
    program_id: Address,
    authority: Address,
)
    ensures
        accounts.valid(program_id, authority) <==> {
            &&& signs_and_changes(accounts.authority)
            &&& accounts.authority.address == authority
            &&& sits_at(
                accounts.dex_config.address,
                derived_address(seq![dex_config_seed()@], program_id@),
            )
            &&& accounts.liquidity_nexus.is_writable
            &&& accounts.liquidity_nexus.data@.len() == 0
            &&& sits_at(
                accounts.liquidity_nexus.address,
                derived_address(seq![liquidity_nexus_seed()@], program_id@),
            )
            &&& accounts.system_program.address == system_program()
        },
{
}

/// The accounts of `NexusAddLiquidity` are admitted exactly where the manager signs and can be
/// changed; the dex config and the liquidity nexus sit at their derived addresses; the liquidity
/// nexus, the pool state and the liquidity position can be changed; the nexus token a, the nexus
/// token b, the vault a and the vault b are token accounts that can be changed; the token program
/// and the system program are the known programs.
pub proof fn nexus_add_liquidity_accounts(accounts: NexusAddLiquidity, program_id: Address)
    ensures
        accounts.valid(program_id) <==> {
            &&& signs_and_changes(accounts.manager)
            &&& sits_at(
                accounts.dex_config.address,
                derived_address(seq![dex_config_seed()@], program_id@),
            )
            &&& accounts.liquidity_nexus.is_writable
            &&& sits_at(
                accounts.liquidity_nexus.address,
                derived_address(seq![liquidity_nexus_seed()@], program_id@),
            )
            &&& accounts.pool_state.is_writable
            &&& accounts.lp_position.is_writable
            &&& holds_tokens(accounts.nexus_token_a)
            &&& holds_tokens(accounts.nexus_token_b)
            &&& holds_tokens(accounts.vault_a)
            &&& holds_tokens(accounts.vault_b)
            &&& accounts.token_program.address == spl_token_program()
            &&& accounts.system_program.address == system_program()
        },
{
}

/// The accounts of `NexusClaimRewards` are admitted exactly where the authority signs; the
/// authority is the recorded one; the dex config and the liquidity nexus sit at their derived
/// addresses; the liquidity nexus, the pool state and the liquidity position can be changed; the
/// pool vault a, the pool vault b, the nexus token a account and the nexus token b account are
/// token accounts that can be changed.
pub proof fn nexus_claim_rewards_accounts(
    accounts: NexusClaimRewards,
    program_id: Address,
    authority: Address,
)
    ensures
        accounts.valid(program_id, authority) <==> {
            &&& accounts.authority.is_signer
            &&& accounts.authority.address == authority
            &&& sits_at(
                accounts.dex_config.address,
                derived_address(seq![dex_config_seed()@], program_id@),
            )
            &&& accounts.liquidity_nexus.is_writable
            &&& sits_at(
                accounts.liquidity_nexus.address,
                derived_address(seq![liquidity_nexus_seed()@], program_id@),
            )
            &&& accounts.pool_state.is_writable
            &&& accounts.lp_position.is_writable
            &&& holds_tokens(accounts.pool_vault_a)
            &&& holds_tokens(accounts.pool_vault_b)
            &&& holds_tokens(accounts.nexus_token_a_ata)
            &&& holds_tokens(accounts.nexus_token_b_ata)
        },
{
}

/// The accounts of `NexusDeposit` are admitted exactly where the depositor signs and can be
/// changed; the liquidity nexus can be changed; the liquidity nexus sits at its derived address;
/// the depositor token account and the nexus token account are token accounts that can be changed.
pub proof fn nexus_deposit_accounts(accounts: NexusDeposit, program_id: Address)
    ensures
        accounts.valid(program_id) <==> {
            &&& signs_and_changes(accounts.depositor)
            &&& accounts.liquidity_nexus.is_writable
            &&& sits_at(
                accounts.liquidity_nexus.address,
                derived_address(seq![liquidity_nexus_seed()@], program_id@),
            )
            &&& holds_tokens(accounts.depositor_token_ata)
            &&& holds_tokens(accounts.nexus_token_ata)
        },
{
}

/// The accounts of `NexusRecordDeposit` are admitted exactly where the liquidity holding signs; the
/// liquidity nexus can be changed; the liquidity nexus sits at its derived address.
pub proof fn nexus_record_deposit_accounts(accounts: NexusRecordDeposit, program_id: Address)
    ensures
        accounts.valid(program_id) <==> {
            &&& accounts.liquidity_holding.is_signer
            &&& accounts.liquidity_nexus.is_writable
            &&& sits_at(
                accounts.liquidity_nexus.address,
                derived_address(seq![liquidity_nexus_seed()@], program_id@),
            )
        },
{
}

/// The accounts of `NexusRemoveLiquidity` are admitted exactly where the manager signs; the
/// liquidity nexus, the pool state and the liquidity position can be changed; the liquidity nexus
/// sits at its derived address; the nexus token a, the nexus token b, the vault a and the vault b
/// are token accounts that can be changed; the token program is the known one.
pub proof fn nexus_remove_liquidity_accounts(accounts: NexusRemoveLiquidity, program_id: Address)
    ensures
        accounts.valid(program_id) <==> {
            &&& accounts.manager.is_signer
            &&& accounts.liquidity_nexus.is_writable
            &&& sits_at(
                accounts.liquidity_nexus.address,
                derived_address(seq![liquidity_nexus_seed()@], program_id@),
            )
            &&& accounts.pool_state.is_writable
            &&& accounts.lp_position.is_writable
            &&& holds_tokens(accounts.nexus_token_a)
            &&& holds_tokens(accounts.nexus_token_b)
            &&& holds_tokens(accounts.vault_a)
            &&& holds_tokens(accounts.vault_b)
            &&& accounts.token_program.address == spl_token_program()
        },
{
}

/// The accounts of `NexusSwap` are admitted exactly where the manager signs; the dex config and the
/// liquidity nexus sit at their derived addresses; the liquidity nexus and the pool state can be
/// changed; the nexus token in, the nexus token out, the vault in, the vault out and the areal fee
/// account are token accounts that can be changed; the token program is the known one.
pub proof fn nexus_swap_accounts(accounts: NexusSwap, program_id: Address)
    ensures
        accounts.valid(program_id) <==> {
            &&& accounts.manager.is_signer
            &&& sits_at(
                accounts.dex_config.address,
                derived_address(seq![dex_config_seed()@], program_id@),
            )
            &&& accounts.liquidity_nexus.is_writable
            &&& sits_at(
                accounts.liquidity_nexus.address,
                derived_address(seq![liquidity_nexus_seed()@], program_id@),
            )
            &&& accounts.pool_state.is_writable
            &&& holds_tokens(accounts.nexus_token_in)
            &&& holds_tokens(accounts.nexus_token_out)
            &&& holds_tokens(accounts.vault_in)
            &&& holds_tokens(accounts.vault_out)
            &&& holds_tokens(accounts.areal_fee_account)
            &&& accounts.token_program.address == spl_token_program()
        },
{
}

/// The accounts of `NexusWithdrawProfits` are admitted exactly where the authority signs; the
/// authority is the recorded one; the dex config and the liquidity nexus sit at their derived
/// addresses; the liquidity nexus can be changed; the nexus token account and the recipient token
/// account are token accounts that can be changed.
pub proof fn nexus_withdraw_profits_accounts(
    accounts: NexusWithdrawProfits,
    program_id: Address,
    authority: Address,
)
    ensures
        accounts.valid(program_id, authority) <==> {
            &&& accounts.authority.is_signer
            &&& accounts.authority.address == authority
            &&& sits_at(
                accounts.dex_config.address,
                derived_address(seq![dex_config_seed()@], program_id@),
            )
            &&& accounts.liquidity_nexus.is_writable
            &&& sits_at(
                accounts.liquidity_nexus.address,
                derived_address(seq![liquidity_nexus_seed()@], program_id@),
            )
            &&& holds_tokens(accounts.nexus_token_ata)
            &&& holds_tokens(accounts.recipient_token_ata)
        },
{
}

/// The accounts of `PausePool` are admitted exactly where the pause authority signs; the dex config
/// sits at its derived address; the pool state can be changed.
pub proof fn pause_pool_accounts(accounts: PausePool, program_id: Address)
    ensures
        accounts.valid(program_id) <==> {
            &&& accounts.pause_authority.is_signer
            &&& sits_at(
                accounts.dex_config.address,
                derived_address(seq![dex_config_seed()@], program_id@),
            )
            &&& accounts.pool_state.is_writable
        },
{
}

/// The accounts of `UnpausePool` are admitted exactly where the pause authority signs; the dex
/// config sits at its derived address; the pool state can be changed.
pub proof fn unpause_pool_accounts(accounts: UnpausePool, program_id: Address)
    ensures
        accounts.valid(program_id) <==> {
            &&& accounts.pause_authority.is_signer
            &&& sits_at(
                accounts.dex_config.address,
                derived_address(seq![dex_config_seed()@], program_id@),
            )
            &&& accounts.pool_state.is_writable
        },
{
}

/// The accounts of `RemoveLiquidity` are admitted exactly where the provider signs; the pool state
/// and the liquidity position can be changed; the provider token a, the provider token b, the vault
/// a and the vault b are token accounts that can be changed; the token program is the known one.
pub proof fn remove_liquidity_accounts(accounts: RemoveLiquidity)
    ensures
        accounts.valid() <==> {
            &&& accounts.provider.is_signer
            &&& accounts.pool_state.is_writable
            &&& accounts.lp_position.is_writable
            &&& holds_tokens(accounts.provider_token_a)
            &&& holds_tokens(accounts.provider_token_b)
            &&& holds_tokens(accounts.vault_a)
            &&& holds_tokens(accounts.vault_b)
            &&& accounts.token_program.address == spl_token_program()
        },
{
}

/// The accounts of `ShiftLiquidity` are admitted exactly where the rebalancer signs; the dex config
/// sits at its derived address; the pool state and the bin array can be changed.
pub proof fn shift_liquidity_accounts(accounts: ShiftLiquidity, program_id: Address)
    ensures
        accounts.valid(program_id) <==> {
            &&& accounts.rebalancer.is_signer
            &&& sits_at(
                accounts.dex_config.address,
                derived_address(seq![dex_config_seed()@], program_id@),
            )
            &&& accounts.pool_state.is_writable
            &&& accounts.bin_array.is_writable
        },
{
}

/// The accounts of `Swap` are admitted exactly where the user signs; the dex config sits at its
/// derived address; the pool state can be changed; the user token in, the user token out, the vault
/// in, the vault out and the areal fee account are token accounts that can be changed; the token
/// program is the known one.
pub proof fn swap_accounts(accounts: Swap, program_id: Address)
    ensures
        accounts.valid(program_id) <==> {
            &&& accounts.user.is_signer
            &&& sits_at(
                accounts.dex_config.address,
                derived_address(seq![dex_config_seed()@], program_id@),
            )
            &&& accounts.pool_state.is_writable
            &&& holds_tokens(accounts.user_token_in)
            &&& holds_tokens(accounts.user_token_out)
            &&& holds_tokens(accounts.vault_in)
            &&& holds_tokens(accounts.vault_out)
            &&& holds_tokens(accounts.areal_fee_account)
            &&& accounts.token_program.address == spl_token_program()
        },
{
}

/// The accounts of `UpdateArealFeeDestination` are admitted exactly where the authority signs; the
/// authority is the recorded one; the dex config can be changed; the dex config sits at its derived
/// address; the new areal fee account belongs to the token program.
pub proof fn update_areal_fee_destination_accounts(
    accounts: UpdateArealFeeDestination,
    program_id: Address,
    authority: Address,
)
    ensures
        accounts.valid(program_id, authority) <==> {
            &&& accounts.authority.is_signer
            &&& accounts.authority.address == authority
            &&& accounts.dex_config.is_writable
            &&& sits_at(
                accounts.dex_config.address,
                derived_address(seq![dex_config_seed()@], program_id@),
            )
            &&& accounts.new_areal_fee_account.owner == spl_token_program()
        },
{
}

/// The accounts of `UpdateDexConfig` are admitted exactly where the authority signs; the authority
/// is the recorded one; the dex config can be changed; the dex config sits at its derived address.
pub proof fn update_dex_config_accounts(
    accounts: UpdateDexConfig,
    program_id: Address,
    authority: Address,
)
    ensures
        accounts.valid(program_id, authority) <==> {
            &&& accounts.authority.is_signer
            &&& accounts.authority.address == authority
            &&& accounts.dex_config.is_writable
            &&& sits_at(
                accounts.dex_config.address,
                derived_address(seq![dex_config_seed()@], program_id@),
            )
        },
{
}

/// The accounts of `UpdateNexusManager` are admitted exactly where the authority signs; the
/// authority is the recorded one; the dex config and the liquidity nexus sit at their derived
/// addresses; the liquidity nexus can be changed.
pub proof fn update_nexus_manager_accounts(
    accounts: UpdateNexusManager,
    program_id: Address,
    authority: Address,
)
    ensures
        accounts.valid(program_id, authority) <==> {
            &&& accounts.authority.is_signer
            &&& accounts.authority.address == authority
            &&& sits_at(
                accounts.dex_config.address,
                derived_address(seq![dex_config_seed()@], program_id@),
            )
            &&& accounts.liquidity_nexus.is_writable
            &&& sits_at(
                accounts.liquidity_nexus.address,
                derived_address(seq![liquidity_nexus_seed()@], program_id@),
            )
        },
{
}

/// The accounts of `UpdatePoolCreators` are admitted exactly where the authority signs; the
/// authority is the recorded one; the dex config and the pool creators sit at their derived
/// addresses; the pool creators can be changed.
pub proof fn update_pool_creators_accounts(
    accounts: UpdatePoolCreators,
    program_id: Address,
    authority: Address,
)
    ensures
        accounts.valid(program_id, authority) <==> {
            &&& accounts.authority.is_signer
            &&& accounts.authority.address == authority
            &&& sits_at(
                accounts.dex_config.address,
                derived_address(seq![dex_config_seed()@], program_id@),
            )
            &&& accounts.pool_creators.is_writable
            &&& sits_at(
                accounts.pool_creators.address,
                derived_address(seq![pool_creators_seed()@], program_id@),
            )
        },
{
}

/// The accounts of `ZapLiquidity` are admitted exactly where the provider signs; the payer signs
/// and can be changed; the dex config sits at its derived address; the pool state and the liquidity
/// position can be changed; the provider token a, the provider token b, the vault a, the vault b
/// and the areal fee account are token accounts that can be changed; the token program and the
/// system program are the known programs.
pub proof fn zap_liquidity_accounts(accounts: ZapLiquidity, program_id: Address)
    ensures
        accounts.valid(program_id) <==> {
            &&& accounts.provider.is_signer
            &&& signs_and_changes(accounts.payer)
            &&& sits_at(
                accounts.dex_config.address,
                derived_address(seq![dex_config_seed()@], program_id@),
            )
            &&& accounts.pool_state.is_writable
            &&& accounts.lp_position.is_writable
            &&& holds_tokens(accounts.provider_token_a)
            &&& holds_tokens(accounts.provider_token_b)
            &&& holds_tokens(accounts.vault_a)
            &&& holds_tokens(accounts.vault_b)
            &&& holds_tokens(accounts.areal_fee_account)
            &&& accounts.token_program.address == spl_token_program()
            &&& accounts.system_program.address == system_program()
        },
{
}

} // verus!
