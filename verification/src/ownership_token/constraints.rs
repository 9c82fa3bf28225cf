//! What each slot of the ownership token's instructions asks of its account.
use vstd::prelude::*;

use crate::address::Address;
use crate::ownership_token::instructions::authority_transfer::{
    AcceptAuthorityTransfer, ProposeAuthorityTransfer,
};
use crate::ownership_token::instructions::batch_update_destinations::BatchUpdateDestinations;
use crate::ownership_token::instructions::claim_yd_for_treasury::ClaimYdForTreasury;
use crate::ownership_token::instructions::create_ot_metadata::CreateOtMetadata;
use crate::ownership_token::instructions::distribute_revenue::DistributeRevenue;
use crate::ownership_token::instructions::initialize_ot::InitializeOt;
use crate::ownership_token::instructions::mint_ot::MintOt;
use crate::ownership_token::instructions::spend_treasury::SpendTreasury;
use crate::programs::{associated_token_program, spl_token_program, system_program};
use crate::seeds::{
    ot_config_seed, ot_governance_seed, ot_treasury_seed, revenue_config_seed, revenue_seed,
};

verus! {

impl ProposeAuthorityTransfer {
    /// Whether every account meets the conditions of its slot; `authority` is the recorded one.
    pub open spec fn valid(&self, program_id: Address, authority: Address) -> bool {
        &&& self.authority.is_signer
        &&& self.ot_mint.owner == spl_token_program()
        &&& self.ot_governance.is_writable
        &&& self.ot_governance.derives_from_2(
            ot_governance_seed()@,
            self.ot_mint.address@,
            program_id,
        )
        &&& self.authority.address == authority
    }

    /// Whether every account meets the conditions of its slot; `authority` is the recorded one.
    pub fn check(&self, program_id: &Address, authority: &Address) -> (yes: bool)
        ensures
            yes == self.valid(*program_id, *authority),
    {
        self.authority.is_signer
            && self.ot_mint.is_owned_by(&spl_token_program())
            && self.ot_governance.is_writable
            && self.ot_governance.is_derived_2(
                ot_governance_seed().as_slice(),
                self.ot_mint.address.as_slice(),
                program_id,
            )
            && self.authority.is_at(authority)
    }
}

impl AcceptAuthorityTransfer {
    /// Whether every account meets the conditions of its slot.
    pub open spec fn valid(&self, program_id: Address) -> bool {
        &&& self.new_authority.is_signer
        &&& self.ot_mint.owner == spl_token_program()
        &&& self.ot_governance.is_writable
        &&& self.ot_governance.derives_from_2(
            ot_governance_seed()@,
            self.ot_mint.address@,
            program_id,
        )
    }

    /// Whether every account meets the conditions of its slot.
    pub fn check(&self, program_id: &Address) -> (yes: bool)
        ensures
            yes == self.valid(*program_id),
    {
        self.new_authority.is_signer
            && self.ot_mint.is_owned_by(&spl_token_program())
            && self.ot_governance.is_writable
            && self.ot_governance.is_derived_2(
                ot_governance_seed().as_slice(),
                self.ot_mint.address.as_slice(),
                program_id,
            )
    }
}

impl BatchUpdateDestinations {
    /// Whether every account meets the conditions of its slot; `authority` is the recorded one.
    pub open spec fn valid(&self, program_id: Address, authority: Address) -> bool {
        &&& self.authority.is_signer
        &&& self.ot_mint.owner == spl_token_program()
        &&& self.ot_governance.derives_from_2(
            ot_governance_seed()@,
            self.ot_mint.address@,
            program_id,
        )
        &&& self.authority.address == authority
        &&& self.revenue_config.is_writable
        &&& self.revenue_config.derives_from_2(
            revenue_config_seed()@,
            self.ot_mint.address@,
            program_id,
        )
    }

    /// Whether every account meets the conditions of its slot; `authority` is the recorded one.
    pub fn check(&self, program_id: &Address, authority: &Address) -> (yes: bool)
        ensures
            yes == self.valid(*program_id, *authority),
    {
        self.authority.is_signer
            && self.ot_mint.is_owned_by(&spl_token_program())
            && self.ot_governance.is_derived_2(
                ot_governance_seed().as_slice(),
                self.ot_mint.address.as_slice(),
                program_id,
            )
            && self.authority.is_at(authority)
            && self.revenue_config.is_writable
            && self.revenue_config.is_derived_2(
                revenue_config_seed().as_slice(),
                self.ot_mint.address.as_slice(),
                program_id,
            )
    }
}

impl ClaimYdForTreasury {
    /// Whether every account meets the conditions of its slot.
    pub open spec fn valid(&self, program_id: Address) -> bool {
        &&& self.crank.is_signer
        &&& self.crank.is_writable
        &&& self.ot_mint.owner == spl_token_program()
        &&& self.ot_treasury.derives_from_2(ot_treasury_seed()@, self.ot_mint.address@, program_id)
        &&& self.treasury_rwt_ata.is_writable
        &&& self.treasury_rwt_ata.owner == spl_token_program()
        &&& self.yd_ot_mint.owner == spl_token_program()
        &&& self.yd_distributor.is_writable
        &&& self.yd_claim_status.is_writable
        &&& self.yd_reward_vault.is_writable
        &&& self.yd_reward_vault.owner == spl_token_program()
        &&& self.token_program.address == spl_token_program()
        &&& self.system_program.address == system_program()
    }

    /// Whether every account meets the conditions of its slot.
    pub fn check(&self, program_id: &Address) -> (yes: bool)
        ensures
            yes == self.valid(*program_id),
    {
        self.crank.is_signer
            && self.crank.is_writable
            && self.ot_mint.is_owned_by(&spl_token_program())
            && self.ot_treasury.is_derived_2(
                ot_treasury_seed().as_slice(),
                self.ot_mint.address.as_slice(),
                program_id,
            )
            && self.treasury_rwt_ata.is_writable
            && self.treasury_rwt_ata.is_owned_by(&spl_token_program())
            && self.yd_ot_mint.is_owned_by(&spl_token_program())
            && self.yd_distributor.is_writable
            && self.yd_claim_status.is_writable
            && self.yd_reward_vault.is_writable
            && self.yd_reward_vault.is_owned_by(&spl_token_program())
            && self.token_program.is_at(&spl_token_program())
            && self.system_program.is_at(&system_program())
    }
}

impl CreateOtMetadata {
    /// Whether every account meets the conditions of its slot; `authority` is the recorded one.
    pub open spec fn valid(&self, program_id: Address, authority: Address) -> bool {
        &&& self.authority.is_signer
        &&& self.ot_governance.derives_from_2(
            ot_governance_seed()@,
            self.ot_mint.address@,
            program_id,
        )
        &&& self.authority.address == authority
        &&& self.ot_config.derives_from_2(ot_config_seed()@, self.ot_mint.address@, program_id)
        &&& self.metadata_account.is_writable
        &&& self.payer.is_signer
        &&& self.payer.is_writable
    }

    /// Whether every account meets the conditions of its slot; `authority` is the recorded one.
    pub fn check(&self, program_id: &Address, authority: &Address) -> (yes: bool)
        ensures
            yes == self.valid(*program_id, *authority),
    {
        self.authority.is_signer
            && self.ot_governance.is_derived_2(
                ot_governance_seed().as_slice(),
                self.ot_mint.address.as_slice(),
                program_id,
            )
            && self.authority.is_at(authority)
            && self.ot_config.is_derived_2(
                ot_config_seed().as_slice(),
                self.ot_mint.address.as_slice(),
                program_id,
            )
            && self.metadata_account.is_writable
            && self.payer.is_signer
            && self.payer.is_writable
    }
}

impl DistributeRevenue {
    /// Whether every account meets the conditions of its slot.
    pub open spec fn valid(&self, program_id: Address) -> bool {
        &&& self.crank.is_signer
        &&& self.ot_mint.owner == spl_token_program()
        &&& self.revenue_account.is_writable
        &&& self.revenue_account.derives_from_2(revenue_seed()@, self.ot_mint.address@, program_id)
        &&& self.revenue_token_account.is_writable
        &&& self.revenue_token_account.owner == spl_token_program()
        &&& self.revenue_config.derives_from_2(
            revenue_config_seed()@,
            self.ot_mint.address@,
            program_id,
        )
        &&& self.areal_fee_account.is_writable
        &&& self.areal_fee_account.owner == spl_token_program()
        &&& self.token_program.address == spl_token_program()
    }

    /// Whether every account meets the conditions of its slot.
    pub fn check(&self, program_id: &Address) -> (yes: bool)
        ensures
            yes == self.valid(*program_id),
    {
        self.crank.is_signer
            && self.ot_mint.is_owned_by(&spl_token_program())
            && self.revenue_account.is_writable
            && self.revenue_account.is_derived_2(
                revenue_seed().as_slice(),
                self.ot_mint.address.as_slice(),
                program_id,
            )
            && self.revenue_token_account.is_writable
            && self.revenue_token_account.is_owned_by(&spl_token_program())
            && self.revenue_config.is_derived_2(
                revenue_config_seed().as_slice(),
                self.ot_mint.address.as_slice(),
                program_id,
            )
            && self.areal_fee_account.is_writable
            && self.areal_fee_account.is_owned_by(&spl_token_program())
            && self.token_program.is_at(&spl_token_program())
    }
}

impl InitializeOt {
    /// Whether every account meets the conditions of its slot.
    pub open spec fn valid(&self, program_id: Address) -> bool {
        &&& self.deployer.is_signer
        &&& self.deployer.is_writable
        &&& self.ot_mint.is_writable
        &&& self.ot_mint.owner == spl_token_program()
        &&& self.usdc_mint.owner == spl_token_program()
        &&& self.ot_config.is_writable
        &&& self.ot_config.derives_from_2(ot_config_seed()@, self.ot_mint.address@, program_id)
        &&& self.ot_config.data@.len() == 0
        &&& self.revenue_account.is_writable
        &&& self.revenue_account.derives_from_2(revenue_seed()@, self.ot_mint.address@, program_id)
        &&& self.revenue_account.data@.len() == 0
        &&& self.revenue_token_account.is_writable
        &&& self.revenue_config.is_writable
        &&& self.revenue_config.derives_from_2(
            revenue_config_seed()@,
            self.ot_mint.address@,
            program_id,
        )
        &&& self.revenue_config.data@.len() == 0
        &&& self.ot_governance.is_writable
        &&& self.ot_governance.derives_from_2(
            ot_governance_seed()@,
            self.ot_mint.address@,
            program_id,
        )
        &&& self.ot_governance.data@.len() == 0
        &&& self.ot_treasury.is_writable
        &&& self.ot_treasury.derives_from_2(ot_treasury_seed()@, self.ot_mint.address@, program_id)
        &&& self.ot_treasury.data@.len() == 0
        &&& self.areal_fee_destination_account.owner == spl_token_program()
        &&& self.token_program.address == spl_token_program()
        &&& self.system_program.address == system_program()
        &&& self.ata_program.address == associated_token_program()
    }

    /// Whether every account meets the conditions of its slot.
    pub fn check(&self, program_id: &Address) -> (yes: bool)
        ensures
            yes == self.valid(*program_id),
    {
        self.deployer.is_signer
            && self.deployer.is_writable
            && self.ot_mint.is_writable
            && self.ot_mint.is_owned_by(&spl_token_program())
            && self.usdc_mint.is_owned_by(&spl_token_program())
            && self.ot_config.is_writable
            && self.ot_config.is_derived_2(
                ot_config_seed().as_slice(),
                self.ot_mint.address.as_slice(),
                program_id,
            )
            && self.ot_config.data.len() == 0
            && self.revenue_account.is_writable
            && self.revenue_account.is_derived_2(
                revenue_seed().as_slice(),
                self.ot_mint.address.as_slice(),
                program_id,
            )
            && self.revenue_account.data.len() == 0
            && self.revenue_token_account.is_writable
            && self.revenue_config.is_writable
            && self.revenue_config.is_derived_2(
                revenue_config_seed().as_slice(),
                self.ot_mint.address.as_slice(),
                program_id,
            )
            && self.revenue_config.data.len() == 0
            && self.ot_governance.is_writable
            && self.ot_governance.is_derived_2(
                ot_governance_seed().as_slice(),
                self.ot_mint.address.as_slice(),
                program_id,
            )
            && self.ot_governance.data.len() == 0
            && self.ot_treasury.is_writable
            && self.ot_treasury.is_derived_2(
                ot_treasury_seed().as_slice(),
                self.ot_mint.address.as_slice(),
                program_id,
            )
            && self.ot_treasury.data.len() == 0
            && self.areal_fee_destination_account.is_owned_by(&spl_token_program())
            && self.token_program.is_at(&spl_token_program())
            && self.system_program.is_at(&system_program())
            && self.ata_program.is_at(&associated_token_program())
    }
}

impl MintOt {
    /// Whether every account meets the conditions of its slot; `authority` is the recorded one.
    pub open spec fn valid(&self, program_id: Address, authority: Address) -> bool {
        &&& self.authority.is_signer
        &&& self.ot_governance.derives_from_2(
            ot_governance_seed()@,
            self.ot_mint.address@,
            program_id,
        )
        &&& self.authority.address == authority
        &&& self.ot_config.is_writable
        &&& self.ot_config.derives_from_2(ot_config_seed()@, self.ot_mint.address@, program_id)
        &&& self.ot_mint.is_writable
        &&& self.ot_mint.owner == spl_token_program()
        &&& self.recipient_token_account.is_writable
        &&& self.payer.is_signer
        &&& self.payer.is_writable
        &&& self.token_program.address == spl_token_program()
        &&& self.system_program.address == system_program()
        &&& self.ata_program.address == associated_token_program()
    }

    /// Whether every account meets the conditions of its slot; `authority` is the recorded one.
    pub fn check(&self, program_id: &Address, authority: &Address) -> (yes: bool)
        ensures
            yes == self.valid(*program_id, *authority),
    {
        self.authority.is_signer
            && self.ot_governance.is_derived_2(
                ot_governance_seed().as_slice(),
                self.ot_mint.address.as_slice(),
                program_id,
            )
            && self.authority.is_at(authority)
            && self.ot_config.is_writable
            && self.ot_config.is_derived_2(
                ot_config_seed().as_slice(),
                self.ot_mint.address.as_slice(),
                program_id,
            )
            && self.ot_mint.is_writable
            && self.ot_mint.is_owned_by(&spl_token_program())
            && self.recipient_token_account.is_writable
            && self.payer.is_signer
            && self.payer.is_writable
            && self.token_program.is_at(&spl_token_program())
            && self.system_program.is_at(&system_program())
            && self.ata_program.is_at(&associated_token_program())
    }
}

impl SpendTreasury {
    /// Whether every account meets the conditions of its slot; `authority` is the recorded one.
    pub open spec fn valid(&self, program_id: Address, authority: Address) -> bool {
        &&& self.authority.is_signer
        &&& self.ot_mint.owner == spl_token_program()
        &&& self.ot_governance.derives_from_2(
            ot_governance_seed()@,
            self.ot_mint.address@,
            program_id,
        )
        &&& self.authority.address == authority
        &&& self.ot_treasury.derives_from_2(ot_treasury_seed()@, self.ot_mint.address@, program_id)
        &&& self.treasury_token_account.is_writable
        &&& self.treasury_token_account.owner == spl_token_program()
        &&& self.destination_token_account.is_writable
        &&& self.destination_token_account.owner == spl_token_program()
        &&& self.token_mint.owner == spl_token_program()
        &&& self.token_program.address == spl_token_program()
    }

    /// Whether every account meets the conditions of its slot; `authority` is the recorded one.
    pub fn check(&self, program_id: &Address, authority: &Address) -> (yes: bool)
        ensures
            yes == self.valid(*program_id, *authority),
    {
        self.authority.is_signer
            && self.ot_mint.is_owned_by(&spl_token_program())
            && self.ot_governance.is_derived_2(
                ot_governance_seed().as_slice(),
                self.ot_mint.address.as_slice(),
                program_id,
            )
            && self.authority.is_at(authority)
            && self.ot_treasury.is_derived_2(
                ot_treasury_seed().as_slice(),
                self.ot_mint.address.as_slice(),
                program_id,
            )
            && self.treasury_token_account.is_writable
            && self.treasury_token_account.is_owned_by(&spl_token_program())
            && self.destination_token_account.is_writable
            && self.destination_token_account.is_owned_by(&spl_token_program())
            && self.token_mint.is_owned_by(&spl_token_program())
            && self.token_program.is_at(&spl_token_program())
    }
}

/// What is reserved to the token's authority runs only with the signature of the recorded authority.
pub proof fn authority_must_sign(
    mint_ot: MintOt,
    spend_treasury: SpendTreasury,
    batch_update_destinations: BatchUpdateDestinations,
    propose_authority_transfer: ProposeAuthorityTransfer,
    create_ot_metadata: CreateOtMetadata,
    program_id: Address,
    authority: Address,
)
    ensures
        mint_ot.valid(program_id, authority) ==> mint_ot.authority.is_signer
            && mint_ot.authority.address == authority,
        spend_treasury.valid(program_id, authority) ==> spend_treasury.authority.is_signer
            && spend_treasury.authority.address == authority,
        batch_update_destinations.valid(program_id, authority) ==> batch_update_destinations.authority.is_signer
            && batch_update_destinations.authority.address == authority,
        propose_authority_transfer.valid(program_id, authority) ==> propose_authority_transfer.authority.is_signer
            && propose_authority_transfer.authority.address == authority,
        create_ot_metadata.valid(program_id, authority) ==> create_ot_metadata.authority.is_signer
            && create_ot_metadata.authority.address == authority,
{
}

} // verus!
