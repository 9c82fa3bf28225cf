//! What each slot of the exchange's instructions asks of its account.
use vstd::prelude::*;

use crate::address::Address;
use crate::native_dex::instructions::add_liquidity::AddLiquidity;
use crate::native_dex::instructions::authority_transfer::{
    AcceptAuthorityTransfer, ProposeAuthorityTransfer,
};
use crate::native_dex::instructions::claim_lp_fees::ClaimLpFees;
use crate::native_dex::instructions::compound_yield::CompoundYield;
use crate::native_dex::instructions::compress_liquidity::CompressLiquidity;
use crate::native_dex::instructions::create_concentrated_pool::CreateConcentratedPool;
use crate::native_dex::instructions::create_pool::CreatePool;
use crate::native_dex::instructions::grow_liquidity::GrowLiquidity;
use crate::native_dex::instructions::initialize_dex::InitializeDex;
use crate::native_dex::instructions::initialize_nexus::InitializeNexus;
use crate::native_dex::instructions::nexus_add_liquidity::NexusAddLiquidity;
use crate::native_dex::instructions::nexus_claim_rewards::NexusClaimRewards;
use crate::native_dex::instructions::nexus_deposit::NexusDeposit;
use crate::native_dex::instructions::nexus_record_deposit::NexusRecordDeposit;
use crate::native_dex::instructions::nexus_remove_liquidity::NexusRemoveLiquidity;
use crate::native_dex::instructions::nexus_swap::NexusSwap;
use crate::native_dex::instructions::nexus_withdraw_profits::NexusWithdrawProfits;
use crate::native_dex::instructions::pause::{PausePool, UnpausePool};
use crate::native_dex::instructions::remove_liquidity::RemoveLiquidity;
use crate::native_dex::instructions::shift_liquidity::ShiftLiquidity;
use crate::native_dex::instructions::swap::Swap;
use crate::native_dex::instructions::update_areal_fee_destination::UpdateArealFeeDestination;
use crate::native_dex::instructions::update_dex_config::UpdateDexConfig;
use crate::native_dex::instructions::update_nexus_manager::UpdateNexusManager;
use crate::native_dex::instructions::update_pool_creators::UpdatePoolCreators;
use crate::native_dex::instructions::zap_liquidity::ZapLiquidity;
use crate::programs::{spl_token_program, system_program};
use crate::seeds::{bins_seed, dex_config_seed, liquidity_nexus_seed, pool_creators_seed};

verus! {

impl AddLiquidity {
    /// Whether every account meets the conditions of its slot.
    pub open spec fn valid(&self, program_id: Address) -> bool {
        &&& self.provider.is_signer
        &&& self.payer.is_signer
        &&& self.payer.is_writable
        &&& self.dex_config.derives_from_1(dex_config_seed()@, program_id)
        &&& self.pool_state.is_writable
        &&& self.lp_position.is_writable
        &&& self.provider_token_a.is_writable
        &&& self.provider_token_a.owner == spl_token_program()
        &&& self.provider_token_b.is_writable
        &&& self.provider_token_b.owner == spl_token_program()
        &&& self.vault_a.is_writable
        &&& self.vault_a.owner == spl_token_program()
        &&& self.vault_b.is_writable
        &&& self.vault_b.owner == spl_token_program()
        &&& self.token_program.address == spl_token_program()
        &&& self.system_program.address == system_program()
    }

    /// Whether every account meets the conditions of its slot.
    pub fn check(&self, program_id: &Address) -> (yes: bool)
        ensures
            yes == self.valid(*program_id),
    {
        self.provider.is_signer
            && self.payer.is_signer
            && self.payer.is_writable
            && self.dex_config.is_derived_1(dex_config_seed().as_slice(), program_id)
            && self.pool_state.is_writable
            && self.lp_position.is_writable
            && self.provider_token_a.is_writable
            && self.provider_token_a.is_owned_by(&spl_token_program())
            && self.provider_token_b.is_writable
            && self.provider_token_b.is_owned_by(&spl_token_program())
            && self.vault_a.is_writable
            && self.vault_a.is_owned_by(&spl_token_program())
            && self.vault_b.is_writable
            && self.vault_b.is_owned_by(&spl_token_program())
            && self.token_program.is_at(&spl_token_program())
            && self.system_program.is_at(&system_program())
    }
}

impl ProposeAuthorityTransfer {
    /// Whether every account meets the conditions of its slot; `authority` is the recorded one.
    pub open spec fn valid(&self, program_id: Address, authority: Address) -> bool {
        &&& self.authority.is_signer
        &&& self.dex_config.is_writable
        &&& self.dex_config.derives_from_1(dex_config_seed()@, program_id)
        &&& self.authority.address == authority
    }

    /// Whether every account meets the conditions of its slot; `authority` is the recorded one.
    pub fn check(&self, program_id: &Address, authority: &Address) -> (yes: bool)
        ensures
            yes == self.valid(*program_id, *authority),
    {
        self.authority.is_signer
            && self.dex_config.is_writable
            && self.dex_config.is_derived_1(dex_config_seed().as_slice(), program_id)
            && self.authority.is_at(authority)
    }
}

impl AcceptAuthorityTransfer {
    /// Whether every account meets the conditions of its slot.
    pub open spec fn valid(&self, program_id: Address) -> bool {
        &&& self.new_authority.is_signer
        &&& self.dex_config.is_writable
        &&& self.dex_config.derives_from_1(dex_config_seed()@, program_id)
        &&& self.pool_creators.is_writable
        &&& self.pool_creators.derives_from_1(pool_creators_seed()@, program_id)
    }

    /// Whether every account meets the conditions of its slot.
    pub fn check(&self, program_id: &Address) -> (yes: bool)
        ensures
            yes == self.valid(*program_id),
    {
        self.new_authority.is_signer
            && self.dex_config.is_writable
            && self.dex_config.is_derived_1(dex_config_seed().as_slice(), program_id)
            && self.pool_creators.is_writable
            && self.pool_creators.is_derived_1(pool_creators_seed().as_slice(), program_id)
    }
}

impl ClaimLpFees {
    /// Whether every account meets the conditions of its slot.
    pub open spec fn valid(&self) -> bool {
        &&& self.recipient.is_signer
        &&& self.pool_state.is_writable
        &&& self.lp_position.is_writable
        &&& self.pool_vault_a.is_writable
        &&& self.pool_vault_a.owner == spl_token_program()
        &&& self.pool_vault_b.is_writable
        &&& self.pool_vault_b.owner == spl_token_program()
        &&& self.recipient_token_a_ata.is_writable
        &&& self.recipient_token_a_ata.owner == spl_token_program()
        &&& self.recipient_token_b_ata.is_writable
        &&& self.recipient_token_b_ata.owner == spl_token_program()
        &&& self.token_program.address == spl_token_program()
    }

    /// Whether every account meets the conditions of its slot.
    pub fn check(&self) -> (yes: bool)
        ensures
            yes == self.valid(),
    {
        self.recipient.is_signer
            && self.pool_state.is_writable
            && self.lp_position.is_writable
            && self.pool_vault_a.is_writable
            && self.pool_vault_a.is_owned_by(&spl_token_program())
            && self.pool_vault_b.is_writable
            && self.pool_vault_b.is_owned_by(&spl_token_program())
            && self.recipient_token_a_ata.is_writable
            && self.recipient_token_a_ata.is_owned_by(&spl_token_program())
            && self.recipient_token_b_ata.is_writable
            && self.recipient_token_b_ata.is_owned_by(&spl_token_program())
            && self.token_program.is_at(&spl_token_program())
    }
}

impl CompoundYield {
    /// Whether every account meets the conditions of its slot.
    pub open spec fn valid(&self) -> bool {
        &&& self.crank.is_signer
        &&& self.crank.is_writable
        &&& self.pool_state.is_writable
        &&& self.target_vault.is_writable
        &&& self.target_vault.owner == spl_token_program()
        &&& self.ot_mint.owner == spl_token_program()
        &&& self.yd_distributor.is_writable
        &&& self.yd_claim_status.is_writable
        &&& self.yd_reward_vault.is_writable
        &&& self.yd_reward_vault.owner == spl_token_program()
        &&& self.token_program.address == spl_token_program()
        &&& self.system_program.address == system_program()
    }

    /// Whether every account meets the conditions of its slot.
    pub fn check(&self) -> (yes: bool)
        ensures
            yes == self.valid(),
    {
        self.crank.is_signer
            && self.crank.is_writable
            && self.pool_state.is_writable
            && self.target_vault.is_writable
            && self.target_vault.is_owned_by(&spl_token_program())
            && self.ot_mint.is_owned_by(&spl_token_program())
            && self.yd_distributor.is_writable
            && self.yd_claim_status.is_writable
            && self.yd_reward_vault.is_writable
            && self.yd_reward_vault.is_owned_by(&spl_token_program())
            && self.token_program.is_at(&spl_token_program())
            && self.system_program.is_at(&system_program())
    }
}

impl CompressLiquidity {
    /// Whether every account meets the conditions of its slot.
    pub open spec fn valid(&self, program_id: Address) -> bool {
        &&& self.rebalancer.is_signer
        &&& self.dex_config.derives_from_1(dex_config_seed()@, program_id)
        &&& self.pool_state.is_writable
        &&& self.bin_array.is_writable
        &&& self.bin_array.derives_from_2(bins_seed()@, self.pool_state.address@, program_id)
    }

    /// Whether every account meets the conditions of its slot.
    pub fn check(&self, program_id: &Address) -> (yes: bool)
        ensures
            yes == self.valid(*program_id),
    {
        self.rebalancer.is_signer
            && self.dex_config.is_derived_1(dex_config_seed().as_slice(), program_id)
            && self.pool_state.is_writable
            && self.bin_array.is_writable
            && self.bin_array.is_derived_2(
                bins_seed().as_slice(),
                self.pool_state.address.as_slice(),
                program_id,
            )
    }
}

impl CreateConcentratedPool {
    /// Whether every account meets the conditions of its slot.
    pub open spec fn valid(&self, program_id: Address) -> bool {
        &&& self.creator.is_signer
        &&& self.creator.is_writable
        &&& self.dex_config.derives_from_1(dex_config_seed()@, program_id)
        &&& self.pool_creators.derives_from_1(pool_creators_seed()@, program_id)
        &&& self.pool_state.is_writable
        &&& self.bin_array.is_writable
        &&& self.token_a_mint.owner == spl_token_program()
        &&& self.token_b_mint.owner == spl_token_program()
        &&& self.vault_a.is_signer
        &&& self.vault_a.is_writable
        &&& self.vault_b.is_signer
        &&& self.vault_b.is_writable
        &&& self.token_program.address == spl_token_program()
        &&& self.system_program.address == system_program()
    }

    /// Whether every account meets the conditions of its slot.
    pub fn check(&self, program_id: &Address) -> (yes: bool)
        ensures
            yes == self.valid(*program_id),
    {
        self.creator.is_signer
            && self.creator.is_writable
            && self.dex_config.is_derived_1(dex_config_seed().as_slice(), program_id)
            && self.pool_creators.is_derived_1(pool_creators_seed().as_slice(), program_id)
            && self.pool_state.is_writable
            && self.bin_array.is_writable
            && self.token_a_mint.is_owned_by(&spl_token_program())
            && self.token_b_mint.is_owned_by(&spl_token_program())
            && self.vault_a.is_signer
            && self.vault_a.is_writable
            && self.vault_b.is_signer
            && self.vault_b.is_writable
            && self.token_program.is_at(&spl_token_program())
            && self.system_program.is_at(&system_program())
    }
}

impl CreatePool {
    /// Whether every account meets the conditions of its slot.
    pub open spec fn valid(&self, program_id: Address) -> bool {
        &&& self.creator.is_signer
        &&& self.creator.is_writable
        &&& self.dex_config.derives_from_1(dex_config_seed()@, program_id)
        &&& self.pool_creators.derives_from_1(pool_creators_seed()@, program_id)
        &&& self.pool_state.is_writable
        &&& self.token_a_mint.owner == spl_token_program()
        &&& self.token_b_mint.owner == spl_token_program()
        &&& self.vault_a.is_signer
        &&& self.vault_a.is_writable
        &&& self.vault_b.is_signer
        &&& self.vault_b.is_writable
        &&& self.token_program.address == spl_token_program()
        &&& self.system_program.address == system_program()
    }

    /// Whether every account meets the conditions of its slot.
    pub fn check(&self, program_id: &Address) -> (yes: bool)
        ensures
            yes == self.valid(*program_id),
    {
        self.creator.is_signer
            && self.creator.is_writable
            && self.dex_config.is_derived_1(dex_config_seed().as_slice(), program_id)
            && self.pool_creators.is_derived_1(pool_creators_seed().as_slice(), program_id)
            && self.pool_state.is_writable
            && self.token_a_mint.is_owned_by(&spl_token_program())
            && self.token_b_mint.is_owned_by(&spl_token_program())
            && self.vault_a.is_signer
            && self.vault_a.is_writable
            && self.vault_b.is_signer
            && self.vault_b.is_writable
            && self.token_program.is_at(&spl_token_program())
            && self.system_program.is_at(&system_program())
    }
}

impl GrowLiquidity {
    /// Whether every account meets the conditions of its slot.
    pub open spec fn valid(&self, program_id: Address) -> bool {
        &&& self.rebalancer.is_signer
        &&& self.dex_config.derives_from_1(dex_config_seed()@, program_id)
        &&& self.pool_state.is_writable
        &&& self.bin_array.is_writable
        &&& self.bin_array.derives_from_2(bins_seed()@, self.pool_state.address@, program_id)
        &&& self.liquidity_nexus.is_writable
        &&& self.liquidity_nexus.derives_from_1(liquidity_nexus_seed()@, program_id)
        &&& self.nexus_usdc_ata.is_writable
        &&& self.nexus_usdc_ata.owner == spl_token_program()
        &&& self.pool_vault_b.is_writable
        &&& self.pool_vault_b.owner == spl_token_program()
        &&& self.token_program.address == spl_token_program()
    }

    /// Whether every account meets the conditions of its slot.
    pub fn check(&self, program_id: &Address) -> (yes: bool)
        ensures
            yes == self.valid(*program_id),
    {
        self.rebalancer.is_signer
            && self.dex_config.is_derived_1(dex_config_seed().as_slice(), program_id)
            && self.pool_state.is_writable
            && self.bin_array.is_writable
            && self.bin_array.is_derived_2(
                bins_seed().as_slice(),
                self.pool_state.address.as_slice(),
                program_id,
            )
            && self.liquidity_nexus.is_writable
            && self.liquidity_nexus.is_derived_1(liquidity_nexus_seed().as_slice(), program_id)
            && self.nexus_usdc_ata.is_writable
            && self.nexus_usdc_ata.is_owned_by(&spl_token_program())
            && self.pool_vault_b.is_writable
            && self.pool_vault_b.is_owned_by(&spl_token_program())
            && self.token_program.is_at(&spl_token_program())
    }
}

impl InitializeDex {
    /// Whether every account meets the conditions of its slot.
    pub open spec fn valid(&self, program_id: Address) -> bool {
        &&& self.deployer.is_signer
        &&& self.deployer.is_writable
        &&& self.dex_config.is_writable
        &&& self.dex_config.derives_from_1(dex_config_seed()@, program_id)
        &&& self.dex_config.data@.len() == 0
        &&& self.pool_creators.is_writable
        &&& self.pool_creators.derives_from_1(pool_creators_seed()@, program_id)
        &&& self.pool_creators.data@.len() == 0
        &&& self.system_program.address == system_program()
    }

    /// Whether every account meets the conditions of its slot.
    pub fn check(&self, program_id: &Address) -> (yes: bool)
        ensures
            yes == self.valid(*program_id),
    {
        self.deployer.is_signer
            && self.deployer.is_writable
            && self.dex_config.is_writable
            && self.dex_config.is_derived_1(dex_config_seed().as_slice(), program_id)
            && self.dex_config.data.len() == 0
            && self.pool_creators.is_writable
            && self.pool_creators.is_derived_1(pool_creators_seed().as_slice(), program_id)
            && self.pool_creators.data.len() == 0
            && self.system_program.is_at(&system_program())
    }
}

impl InitializeNexus {
    /// Whether every account meets the conditions of its slot; `authority` is the recorded one.
    pub open spec fn valid(&self, program_id: Address, authority: Address) -> bool {
        &&& self.authority.is_signer
        &&& self.authority.is_writable
        &&& self.dex_config.derives_from_1(dex_config_seed()@, program_id)
        &&& self.authority.address == authority
        &&& self.liquidity_nexus.is_writable
        &&& self.liquidity_nexus.derives_from_1(liquidity_nexus_seed()@, program_id)
        &&& self.liquidity_nexus.data@.len() == 0
        &&& self.system_program.address == system_program()
    }

    /// Whether every account meets the conditions of its slot; `authority` is the recorded one.
    pub fn check(&self, program_id: &Address, authority: &Address) -> (yes: bool)
        ensures
            yes == self.valid(*program_id, *authority),
    {
        self.authority.is_signer
            && self.authority.is_writable
            && self.dex_config.is_derived_1(dex_config_seed().as_slice(), program_id)
            && self.authority.is_at(authority)
            && self.liquidity_nexus.is_writable
            && self.liquidity_nexus.is_derived_1(liquidity_nexus_seed().as_slice(), program_id)
            && self.liquidity_nexus.data.len() == 0
            && self.system_program.is_at(&system_program())
    }
}

impl NexusAddLiquidity {
    /// Whether every account meets the conditions of its slot.
    pub open spec fn valid(&self, program_id: Address) -> bool {
        &&& self.manager.is_signer
        &&& self.manager.is_writable
        &&& self.dex_config.derives_from_1(dex_config_seed()@, program_id)
        &&& self.liquidity_nexus.is_writable
        &&& self.liquidity_nexus.derives_from_1(liquidity_nexus_seed()@, program_id)
        &&& self.pool_state.is_writable
        &&& self.lp_position.is_writable
        &&& self.nexus_token_a.is_writable
        &&& self.nexus_token_a.owner == spl_token_program()
        &&& self.nexus_token_b.is_writable
        &&& self.nexus_token_b.owner == spl_token_program()
        &&& self.vault_a.is_writable
        &&& self.vault_a.owner == spl_token_program()
        &&& self.vault_b.is_writable
        &&& self.vault_b.owner == spl_token_program()
        &&& self.token_program.address == spl_token_program()
        &&& self.system_program.address == system_program()
    }

    /// Whether every account meets the conditions of its slot.
    pub fn check(&self, program_id: &Address) -> (yes: bool)
        ensures
            yes == self.valid(*program_id),
    {
        self.manager.is_signer
            && self.manager.is_writable
            && self.dex_config.is_derived_1(dex_config_seed().as_slice(), program_id)
            && self.liquidity_nexus.is_writable
            && self.liquidity_nexus.is_derived_1(liquidity_nexus_seed().as_slice(), program_id)
            && self.pool_state.is_writable
            && self.lp_position.is_writable
            && self.nexus_token_a.is_writable
            && self.nexus_token_a.is_owned_by(&spl_token_program())
            && self.nexus_token_b.is_writable
            && self.nexus_token_b.is_owned_by(&spl_token_program())
            && self.vault_a.is_writable
            && self.vault_a.is_owned_by(&spl_token_program())
            && self.vault_b.is_writable
            && self.vault_b.is_owned_by(&spl_token_program())
            && self.token_program.is_at(&spl_token_program())
            && self.system_program.is_at(&system_program())
    }
}

impl NexusClaimRewards {
    /// Whether every account meets the conditions of its slot; `authority` is the recorded one.
    pub open spec fn valid(&self, program_id: Address, authority: Address) -> bool {
        &&& self.authority.is_signer
        &&& self.dex_config.derives_from_1(dex_config_seed()@, program_id)
        &&& self.authority.address == authority
        &&& self.liquidity_nexus.is_writable
        &&& self.liquidity_nexus.derives_from_1(liquidity_nexus_seed()@, program_id)
        &&& self.pool_state.is_writable
        &&& self.lp_position.is_writable
        &&& self.pool_vault_a.is_writable
        &&& self.pool_vault_a.owner == spl_token_program()
        &&& self.pool_vault_b.is_writable
        &&& self.pool_vault_b.owner == spl_token_program()
        &&& self.nexus_token_a_ata.is_writable
        &&& self.nexus_token_a_ata.owner == spl_token_program()
        &&& self.nexus_token_b_ata.is_writable
        &&& self.nexus_token_b_ata.owner == spl_token_program()
    }

    /// Whether every account meets the conditions of its slot; `authority` is the recorded one.
    pub fn check(&self, program_id: &Address, authority: &Address) -> (yes: bool)
        ensures
            yes == self.valid(*program_id, *authority),
    {
        self.authority.is_signer
            && self.dex_config.is_derived_1(dex_config_seed().as_slice(), program_id)
            && self.authority.is_at(authority)
            && self.liquidity_nexus.is_writable
            && self.liquidity_nexus.is_derived_1(liquidity_nexus_seed().as_slice(), program_id)
            && self.pool_state.is_writable
            && self.lp_position.is_writable
            && self.pool_vault_a.is_writable
            && self.pool_vault_a.is_owned_by(&spl_token_program())
            && self.pool_vault_b.is_writable
            && self.pool_vault_b.is_owned_by(&spl_token_program())
            && self.nexus_token_a_ata.is_writable
            && self.nexus_token_a_ata.is_owned_by(&spl_token_program())
            && self.nexus_token_b_ata.is_writable
            && self.nexus_token_b_ata.is_owned_by(&spl_token_program())
    }
}

impl NexusDeposit {
    /// Whether every account meets the conditions of its slot.
    pub open spec fn valid(&self, program_id: Address) -> bool {
        &&& self.depositor.is_signer
        &&& self.depositor.is_writable
        &&& self.liquidity_nexus.is_writable
        &&& self.liquidity_nexus.derives_from_1(liquidity_nexus_seed()@, program_id)
        &&& self.depositor_token_ata.is_writable
        &&& self.depositor_token_ata.owner == spl_token_program()
        &&& self.nexus_token_ata.is_writable
        &&& self.nexus_token_ata.owner == spl_token_program()
    }

    /// Whether every account meets the conditions of its slot.
    pub fn check(&self, program_id: &Address) -> (yes: bool)
        ensures
            yes == self.valid(*program_id),
    {
        self.depositor.is_signer
            && self.depositor.is_writable
            && self.liquidity_nexus.is_writable
            && self.liquidity_nexus.is_derived_1(liquidity_nexus_seed().as_slice(), program_id)
            && self.depositor_token_ata.is_writable
            && self.depositor_token_ata.is_owned_by(&spl_token_program())
            && self.nexus_token_ata.is_writable
            && self.nexus_token_ata.is_owned_by(&spl_token_program())
    }
}

impl NexusRecordDeposit {
    /// Whether every account meets the conditions of its slot.
    pub open spec fn valid(&self, program_id: Address) -> bool {
        &&& self.liquidity_holding.is_signer
        &&& self.liquidity_nexus.is_writable
        &&& self.liquidity_nexus.derives_from_1(liquidity_nexus_seed()@, program_id)
    }

    /// Whether every account meets the conditions of its slot.
    pub fn check(&self, program_id: &Address) -> (yes: bool)
        ensures
            yes == self.valid(*program_id),
    {
        self.liquidity_holding.is_signer
            && self.liquidity_nexus.is_writable
            && self.liquidity_nexus.is_derived_1(liquidity_nexus_seed().as_slice(), program_id)
    }
}

impl NexusRemoveLiquidity {
    /// Whether every account meets the conditions of its slot.
    pub open spec fn valid(&self, program_id: Address) -> bool {
        &&& self.manager.is_signer
        &&& self.liquidity_nexus.is_writable
        &&& self.liquidity_nexus.derives_from_1(liquidity_nexus_seed()@, program_id)
        &&& self.pool_state.is_writable
        &&& self.lp_position.is_writable
        &&& self.nexus_token_a.is_writable
        &&& self.nexus_token_a.owner == spl_token_program()
        &&& self.nexus_token_b.is_writable
        &&& self.nexus_token_b.owner == spl_token_program()
        &&& self.vault_a.is_writable
        &&& self.vault_a.owner == spl_token_program()
        &&& self.vault_b.is_writable
        &&& self.vault_b.owner == spl_token_program()
        &&& self.token_program.address == spl_token_program()
    }

    /// Whether every account meets the conditions of its slot.
    pub fn check(&self, program_id: &Address) -> (yes: bool)
        ensures
            yes == self.valid(*program_id),
    {
        self.manager.is_signer
            && self.liquidity_nexus.is_writable
            && self.liquidity_nexus.is_derived_1(liquidity_nexus_seed().as_slice(), program_id)
            && self.pool_state.is_writable
            && self.lp_position.is_writable
            && self.nexus_token_a.is_writable
            && self.nexus_token_a.is_owned_by(&spl_token_program())
            && self.nexus_token_b.is_writable
            && self.nexus_token_b.is_owned_by(&spl_token_program())
            && self.vault_a.is_writable
            && self.vault_a.is_owned_by(&spl_token_program())
            && self.vault_b.is_writable
            && self.vault_b.is_owned_by(&spl_token_program())
            && self.token_program.is_at(&spl_token_program())
    }
}

impl NexusSwap {
    /// Whether every account meets the conditions of its slot.
    pub open spec fn valid(&self, program_id: Address) -> bool {
        &&& self.manager.is_signer
        &&& self.dex_config.derives_from_1(dex_config_seed()@, program_id)
        &&& self.liquidity_nexus.is_writable
        &&& self.liquidity_nexus.derives_from_1(liquidity_nexus_seed()@, program_id)
        &&& self.pool_state.is_writable
        &&& self.nexus_token_in.is_writable
        &&& self.nexus_token_in.owner == spl_token_program()
        &&& self.nexus_token_out.is_writable
        &&& self.nexus_token_out.owner == spl_token_program()
        &&& self.vault_in.is_writable
        &&& self.vault_in.owner == spl_token_program()
        &&& self.vault_out.is_writable
        &&& self.vault_out.owner == spl_token_program()
        &&& self.areal_fee_account.is_writable
        &&& self.areal_fee_account.owner == spl_token_program()
        &&& self.token_program.address == spl_token_program()
    }

    /// Whether every account meets the conditions of its slot.
    pub fn check(&self, program_id: &Address) -> (yes: bool)
        ensures
            yes == self.valid(*program_id),
    {
        self.manager.is_signer
            && self.dex_config.is_derived_1(dex_config_seed().as_slice(), program_id)
            && self.liquidity_nexus.is_writable
            && self.liquidity_nexus.is_derived_1(liquidity_nexus_seed().as_slice(), program_id)
            && self.pool_state.is_writable
            && self.nexus_token_in.is_writable
            && self.nexus_token_in.is_owned_by(&spl_token_program())
            && self.nexus_token_out.is_writable
            && self.nexus_token_out.is_owned_by(&spl_token_program())
            && self.vault_in.is_writable
            && self.vault_in.is_owned_by(&spl_token_program())
            && self.vault_out.is_writable
            && self.vault_out.is_owned_by(&spl_token_program())
            && self.areal_fee_account.is_writable
            && self.areal_fee_account.is_owned_by(&spl_token_program())
            && self.token_program.is_at(&spl_token_program())
    }
}

impl NexusWithdrawProfits {
    /// Whether every account meets the conditions of its slot; `authority` is the recorded one.
    pub open spec fn valid(&self, program_id: Address, authority: Address) -> bool {
        &&& self.authority.is_signer
        &&& self.dex_config.derives_from_1(dex_config_seed()@, program_id)
        &&& self.authority.address == authority
        &&& self.liquidity_nexus.is_writable
        &&& self.liquidity_nexus.derives_from_1(liquidity_nexus_seed()@, program_id)
        &&& self.nexus_token_ata.is_writable
        &&& self.nexus_token_ata.owner == spl_token_program()
        &&& self.recipient_token_ata.is_writable
        &&& self.recipient_token_ata.owner == spl_token_program()
    }

    /// Whether every account meets the conditions of its slot; `authority` is the recorded one.
    pub fn check(&self, program_id: &Address, authority: &Address) -> (yes: bool)
        ensures
            yes == self.valid(*program_id, *authority),
    {
        self.authority.is_signer
            && self.dex_config.is_derived_1(dex_config_seed().as_slice(), program_id)
            && self.authority.is_at(authority)
            && self.liquidity_nexus.is_writable
            && self.liquidity_nexus.is_derived_1(liquidity_nexus_seed().as_slice(), program_id)
            && self.nexus_token_ata.is_writable
            && self.nexus_token_ata.is_owned_by(&spl_token_program())
            && self.recipient_token_ata.is_writable
            && self.recipient_token_ata.is_owned_by(&spl_token_program())
    }
}

impl PausePool {
    /// Whether every account meets the conditions of its slot.
    pub open spec fn valid(&self, program_id: Address) -> bool {
        &&& self.pause_authority.is_signer
        &&& self.dex_config.derives_from_1(dex_config_seed()@, program_id)
        &&& self.pool_state.is_writable
    }

    /// Whether every account meets the conditions of its slot.
    pub fn check(&self, program_id: &Address) -> (yes: bool)
        ensures
            yes == self.valid(*program_id),
    {
        self.pause_authority.is_signer
            && self.dex_config.is_derived_1(dex_config_seed().as_slice(), program_id)
            && self.pool_state.is_writable
    }
}

impl UnpausePool {
    /// Whether every account meets the conditions of its slot.
    pub open spec fn valid(&self, program_id: Address) -> bool {
        &&& self.pause_authority.is_signer
        &&& self.dex_config.derives_from_1(dex_config_seed()@, program_id)
        &&& self.pool_state.is_writable
    }

    /// Whether every account meets the conditions of its slot.
    pub fn check(&self, program_id: &Address) -> (yes: bool)
        ensures
            yes == self.valid(*program_id),
    {
        self.pause_authority.is_signer
            && self.dex_config.is_derived_1(dex_config_seed().as_slice(), program_id)
            && self.pool_state.is_writable
    }
}

impl RemoveLiquidity {
    /// Whether every account meets the conditions of its slot.
    pub open spec fn valid(&self) -> bool {
        &&& self.provider.is_signer
        &&& self.pool_state.is_writable
        &&& self.lp_position.is_writable
        &&& self.provider_token_a.is_writable
        &&& self.provider_token_a.owner == spl_token_program()
        &&& self.provider_token_b.is_writable
        &&& self.provider_token_b.owner == spl_token_program()
        &&& self.vault_a.is_writable
        &&& self.vault_a.owner == spl_token_program()
        &&& self.vault_b.is_writable
        &&& self.vault_b.owner == spl_token_program()
        &&& self.token_program.address == spl_token_program()
    }

    /// Whether every account meets the conditions of its slot.
    pub fn check(&self) -> (yes: bool)
        ensures
            yes == self.valid(),
    {
        self.provider.is_signer
            && self.pool_state.is_writable
            && self.lp_position.is_writable
            && self.provider_token_a.is_writable
            && self.provider_token_a.is_owned_by(&spl_token_program())
            && self.provider_token_b.is_writable
            && self.provider_token_b.is_owned_by(&spl_token_program())
            && self.vault_a.is_writable
            && self.vault_a.is_owned_by(&spl_token_program())
            && self.vault_b.is_writable
            && self.vault_b.is_owned_by(&spl_token_program())
            && self.token_program.is_at(&spl_token_program())
    }
}

impl ShiftLiquidity {
    /// Whether every account meets the conditions of its slot.
    pub open spec fn valid(&self, program_id: Address) -> bool {
        &&& self.rebalancer.is_signer
        &&& self.dex_config.derives_from_1(dex_config_seed()@, program_id)
        &&& self.pool_state.is_writable
        &&& self.bin_array.is_writable
    }

    /// Whether every account meets the conditions of its slot.
    pub fn check(&self, program_id: &Address) -> (yes: bool)
        ensures
            yes == self.valid(*program_id),
    {
        self.rebalancer.is_signer
            && self.dex_config.is_derived_1(dex_config_seed().as_slice(), program_id)
            && self.pool_state.is_writable
            && self.bin_array.is_writable
    }
}

impl Swap {
    /// Whether every account meets the conditions of its slot.
    pub open spec fn valid(&self, program_id: Address) -> bool {
        &&& self.user.is_signer
        &&& self.dex_config.derives_from_1(dex_config_seed()@, program_id)
        &&& self.pool_state.is_writable
        &&& self.user_token_in.is_writable
        &&& self.user_token_in.owner == spl_token_program()
        &&& self.user_token_out.is_writable
        &&& self.user_token_out.owner == spl_token_program()
        &&& self.vault_in.is_writable
        &&& self.vault_in.owner == spl_token_program()
        &&& self.vault_out.is_writable
        &&& self.vault_out.owner == spl_token_program()
        &&& self.areal_fee_account.is_writable
        &&& self.areal_fee_account.owner == spl_token_program()
        &&& self.token_program.address == spl_token_program()
    }

    /// Whether every account meets the conditions of its slot.
    pub fn check(&self, program_id: &Address) -> (yes: bool)
        ensures
            yes == self.valid(*program_id),
    {
        self.user.is_signer
            && self.dex_config.is_derived_1(dex_config_seed().as_slice(), program_id)
            && self.pool_state.is_writable
            && self.user_token_in.is_writable
            && self.user_token_in.is_owned_by(&spl_token_program())
            && self.user_token_out.is_writable
            && self.user_token_out.is_owned_by(&spl_token_program())
            && self.vault_in.is_writable
            && self.vault_in.is_owned_by(&spl_token_program())
            && self.vault_out.is_writable
            && self.vault_out.is_owned_by(&spl_token_program())
            && self.areal_fee_account.is_writable
            && self.areal_fee_account.is_owned_by(&spl_token_program())
            && self.token_program.is_at(&spl_token_program())
    }
}

impl UpdateArealFeeDestination {
    /// Whether every account meets the conditions of its slot; `authority` is the recorded one.
    pub open spec fn valid(&self, program_id: Address, authority: Address) -> bool {
        &&& self.authority.is_signer
        &&& self.dex_config.is_writable
        &&& self.dex_config.derives_from_1(dex_config_seed()@, program_id)
        &&& self.authority.address == authority
        &&& self.new_areal_fee_account.owner == spl_token_program()
    }

    /// Whether every account meets the conditions of its slot; `authority` is the recorded one.
    pub fn check(&self, program_id: &Address, authority: &Address) -> (yes: bool)
        ensures
            yes == self.valid(*program_id, *authority),
    {
        self.authority.is_signer
            && self.dex_config.is_writable
            && self.dex_config.is_derived_1(dex_config_seed().as_slice(), program_id)
            && self.authority.is_at(authority)
            && self.new_areal_fee_account.is_owned_by(&spl_token_program())
    }
}

impl UpdateDexConfig {
    /// Whether every account meets the conditions of its slot; `authority` is the recorded one.
    pub open spec fn valid(&self, program_id: Address, authority: Address) -> bool {
        &&& self.authority.is_signer
        &&& self.dex_config.is_writable
        &&& self.dex_config.derives_from_1(dex_config_seed()@, program_id)
        &&& self.authority.address == authority
    }

    /// Whether every account meets the conditions of its slot; `authority` is the recorded one.
    pub fn check(&self, program_id: &Address, authority: &Address) -> (yes: bool)
        ensures
            yes == self.valid(*program_id, *authority),
    {
        self.authority.is_signer
            && self.dex_config.is_writable
            && self.dex_config.is_derived_1(dex_config_seed().as_slice(), program_id)
            && self.authority.is_at(authority)
    }
}

impl UpdateNexusManager {
    /// Whether every account meets the conditions of its slot; `authority` is the recorded one.
    pub open spec fn valid(&self, program_id: Address, authority: Address) -> bool {
        &&& self.authority.is_signer
        &&& self.dex_config.derives_from_1(dex_config_seed()@, program_id)
        &&& self.authority.address == authority
        &&& self.liquidity_nexus.is_writable
        &&& self.liquidity_nexus.derives_from_1(liquidity_nexus_seed()@, program_id)
    }

    /// Whether every account meets the conditions of its slot; `authority` is the recorded one.
    pub fn check(&self, program_id: &Address, authority: &Address) -> (yes: bool)
        ensures
            yes == self.valid(*program_id, *authority),
    {
        self.authority.is_signer
            && self.dex_config.is_derived_1(dex_config_seed().as_slice(), program_id)
            && self.authority.is_at(authority)
            && self.liquidity_nexus.is_writable
            && self.liquidity_nexus.is_derived_1(liquidity_nexus_seed().as_slice(), program_id)
    }
}

impl UpdatePoolCreators {
    /// Whether every account meets the conditions of its slot; `authority` is the recorded one.
    pub open spec fn valid(&self, program_id: Address, authority: Address) -> bool {
        &&& self.authority.is_signer
        &&& self.dex_config.derives_from_1(dex_config_seed()@, program_id)
        &&& self.authority.address == authority
        &&& self.pool_creators.is_writable
        &&& self.pool_creators.derives_from_1(pool_creators_seed()@, program_id)
    }

    /// Whether every account meets the conditions of its slot; `authority` is the recorded one.
    pub fn check(&self, program_id: &Address, authority: &Address) -> (yes: bool)
        ensures
            yes == self.valid(*program_id, *authority),
    {
        self.authority.is_signer
            && self.dex_config.is_derived_1(dex_config_seed().as_slice(), program_id)
            && self.authority.is_at(authority)
            && self.pool_creators.is_writable
            && self.pool_creators.is_derived_1(pool_creators_seed().as_slice(), program_id)
    }
}

impl ZapLiquidity {
    /// Whether every account meets the conditions of its slot.
    pub open spec fn valid(&self, program_id: Address) -> bool {
        &&& self.provider.is_signer
        &&& self.payer.is_signer
        &&& self.payer.is_writable
        &&& self.dex_config.derives_from_1(dex_config_seed()@, program_id)
        &&& self.pool_state.is_writable
        &&& self.lp_position.is_writable
        &&& self.provider_token_a.is_writable
        &&& self.provider_token_a.owner == spl_token_program()
        &&& self.provider_token_b.is_writable
        &&& self.provider_token_b.owner == spl_token_program()
        &&& self.vault_a.is_writable
        &&& self.vault_a.owner == spl_token_program()
        &&& self.vault_b.is_writable
        &&& self.vault_b.owner == spl_token_program()
        &&& self.areal_fee_account.is_writable
        &&& self.areal_fee_account.owner == spl_token_program()
        &&& self.token_program.address == spl_token_program()
        &&& self.system_program.address == system_program()
    }

    /// Whether every account meets the conditions of its slot.
    pub fn check(&self, program_id: &Address) -> (yes: bool)
        ensures
            yes == self.valid(*program_id),
    {
        self.provider.is_signer
            && self.payer.is_signer
            && self.payer.is_writable
            && self.dex_config.is_derived_1(dex_config_seed().as_slice(), program_id)
            && self.pool_state.is_writable
            && self.lp_position.is_writable
            && self.provider_token_a.is_writable
            && self.provider_token_a.is_owned_by(&spl_token_program())
            && self.provider_token_b.is_writable
            && self.provider_token_b.is_owned_by(&spl_token_program())
            && self.vault_a.is_writable
            && self.vault_a.is_owned_by(&spl_token_program())
            && self.vault_b.is_writable
            && self.vault_b.is_owned_by(&spl_token_program())
            && self.areal_fee_account.is_writable
            && self.areal_fee_account.is_owned_by(&spl_token_program())
            && self.token_program.is_at(&spl_token_program())
            && self.system_program.is_at(&system_program())
    }
}

/// What is reserved to the exchange's authority runs only with the signature of the recorded authority.
pub proof fn authority_must_sign(
    update_dex_config: UpdateDexConfig,
    update_areal_fee_destination: UpdateArealFeeDestination,
    update_pool_creators: UpdatePoolCreators,
    propose_authority_transfer: ProposeAuthorityTransfer,
    initialize_nexus: InitializeNexus,
    update_nexus_manager: UpdateNexusManager,
    nexus_withdraw_profits: NexusWithdrawProfits,
    nexus_claim_rewards: NexusClaimRewards,
    program_id: Address,
    authority: Address,
)
    ensures
        update_dex_config.valid(program_id, authority) ==> update_dex_config.authority.is_signer
            && update_dex_config.authority.address == authority,
        update_areal_fee_destination.valid(program_id, authority) ==> update_areal_fee_destination.authority.is_signer
            && update_areal_fee_destination.authority.address == authority,
        update_pool_creators.valid(program_id, authority) ==> update_pool_creators.authority.is_signer
            && update_pool_creators.authority.address == authority,
        propose_authority_transfer.valid(program_id, authority) ==> propose_authority_transfer.authority.is_signer
            && propose_authority_transfer.authority.address == authority,
        initialize_nexus.valid(program_id, authority) ==> initialize_nexus.authority.is_signer
            && initialize_nexus.authority.address == authority,
        update_nexus_manager.valid(program_id, authority) ==> update_nexus_manager.authority.is_signer
            && update_nexus_manager.authority.address == authority,
        nexus_withdraw_profits.valid(program_id, authority) ==> nexus_withdraw_profits.authority.is_signer
            && nexus_withdraw_profits.authority.address == authority,
        nexus_claim_rewards.valid(program_id, authority) ==> nexus_claim_rewards.authority.is_signer
            && nexus_claim_rewards.authority.address == authority,
{
}

} // verus!
