//! Reads of, and calls into, the reward-token engine and the yield program.
use vstd::prelude::*;

use crate::account::AccountInfo;
use crate::address::{address_eq, Address};
use crate::bytes::{append_bytes, append_le, le_bytes, read_u64, u64_at};
use crate::calls::{read_meta, readable, writable, write_meta, AccountMeta, Instruction};
use crate::error::{DexError, ProgramError};
use crate::native_dex::constants::{DexParams, RWT_VAULT_DISC_LEN, RWT_VAULT_NAV_OFFSET};
use crate::programs::rwt_engine_program_id;

verus! {

/// The net asset value that a reward vault account holds.
pub open spec fn vault_nav(account: AccountInfo, params: DexParams) -> Result<u64, ProgramError> {
    if account.owner != rwt_engine_program_id() || account.data@.len() < RWT_VAULT_DISC_LEN
        + RWT_VAULT_NAV_OFFSET + 8 || account.data@.subrange(0, RWT_VAULT_DISC_LEN as int)
        != params.rwt_vault_discriminator@ {
        Err(ProgramError::Dex(DexError::InvalidRwtVault))
    } else {
        Ok(u64_at(account.data@, RWT_VAULT_DISC_LEN + RWT_VAULT_NAV_OFFSET))
    }
}

/// Reads the net asset value out of a reward vault account. The account must belong to the
/// reward-token engine and carry the vault's marker.
pub fn read_rwt_vault_nav(account: &AccountInfo, params: &DexParams) -> (nav: Result<
    u64,
    ProgramError,
>)
    ensures
        nav == vault_nav(*account, *params),
{
    let engine = rwt_engine_program_id();
    if !address_eq(&account.owner, &engine) {
        return Err(ProgramError::Dex(DexError::InvalidRwtVault));
    }
    if account.data.len() < RWT_VAULT_DISC_LEN + RWT_VAULT_NAV_OFFSET + 8 {
        return Err(ProgramError::Dex(DexError::InvalidRwtVault));
    }
    let ghost marker = account.data@.subrange(0, RWT_VAULT_DISC_LEN as int);
    let mut i: usize = 0;
    while i < RWT_VAULT_DISC_LEN
        invariant
            i <= RWT_VAULT_DISC_LEN,
            RWT_VAULT_DISC_LEN == 8,
            account.data@.len() >= 40,
            marker == account.data@.subrange(0, 8),
            forall|j: int| 0 <= j < i ==> account.data@[j] == params.rwt_vault_discriminator[j],
        ensures
            i == 8,
        decreases RWT_VAULT_DISC_LEN - i,
    {
        if account.data[i] != params.rwt_vault_discriminator[i] {
            assert(marker[i as int] != params.rwt_vault_discriminator@[i as int]);
            return Err(ProgramError::Dex(DexError::InvalidRwtVault));
        }
        i += 1;
    }
    assert(marker =~= params.rwt_vault_discriminator@);
    Ok(read_u64(&account.data, RWT_VAULT_DISC_LEN + RWT_VAULT_NAV_OFFSET))
}

/// The mint call of the reward-token engine.
#[derive(Clone, Copy, Debug, PartialEq, Eq)]
pub struct MintRwt {
    pub user: Address,
    pub rwt_vault: Address,
    pub rwt_mint: Address,
    pub user_deposit: Address,
    pub user_rwt: Address,
    pub capital_acc: Address,
    pub dao_fee_account: Address,
    pub token_program: Address,
    pub rwt_engine_program: Address,
    pub amount_in: u64,
    pub min_rwt_out: u64,
}

/// Marker of the engine's mint instruction.
pub open spec fn spec_disc_mint_rwt() -> [u8; 8] {
    [0x62u8, 0x20u8, 0x73u8, 0xdeu8, 0x44u8, 0x0cu8, 0xa1u8, 0xa2u8]
}

/// Marker of the engine's mint instruction.
#[verifier::when_used_as_spec(spec_disc_mint_rwt)]
pub fn disc_mint_rwt() -> (disc: [u8; 8])
    ensures
        disc == disc_mint_rwt(),
{
    [0x62u8, 0x20u8, 0x73u8, 0xdeu8, 0x44u8, 0x0cu8, 0xa1u8, 0xa2u8]
}

impl MintRwt {
    /// The accounts of the call, in the order in which the engine reads them. The user is the
    /// only signer.
    pub open spec fn meta_list(&self) -> Seq<AccountMeta> {
        seq![
            AccountMeta { address: self.user, is_writable: false, is_signer: true },
            writable(self.rwt_vault),
            writable(self.rwt_mint),
            writable(self.user_deposit),
            writable(self.user_rwt),
            writable(self.capital_acc),
            writable(self.dao_fee_account),
            readable(self.token_program),
        ]
    }

    /// The accounts of the call, in the order in which the engine reads them.
    pub fn metas(&self) -> (metas: Vec<AccountMeta>)
        ensures
            metas@ == self.meta_list(),
    {
        let mut metas: Vec<AccountMeta> = Vec::new();
        metas.push(AccountMeta { address: self.user, is_writable: false, is_signer: true });
        metas.push(write_meta(&self.rwt_vault));
        metas.push(write_meta(&self.rwt_mint));
        metas.push(write_meta(&self.user_deposit));
        metas.push(write_meta(&self.user_rwt));
        metas.push(write_meta(&self.capital_acc));
        metas.push(write_meta(&self.dao_fee_account));
        metas.push(read_meta(&self.token_program));
        assert(metas@ =~= self.meta_list());
        metas
    }

    /// The data of the call: the marker, the dollars in, the least reward tokens out.
    pub open spec fn data_bytes(&self) -> Seq<u8> {
        disc_mint_rwt()@ + le_bytes(self.amount_in as nat, 8) + le_bytes(self.min_rwt_out as nat, 8)
    }

    /// The data of the call.
    pub fn data(&self) -> (data: Vec<u8>)
        ensures
            data@ == self.data_bytes(),
    {
        let mut data: Vec<u8> = Vec::new();
        let disc = disc_mint_rwt();
        append_bytes(&mut data, disc.as_slice());
        append_le(&mut data, self.amount_in as u128, 8);
        append_le(&mut data, self.min_rwt_out as u128, 8);
        assert(data@ =~= self.data_bytes());
        data
    }

    /// The call into the engine.
    pub fn call(&self) -> (call: Instruction)
        ensures
            call.program == self.rwt_engine_program,
            call.accounts@ == self.meta_list(),
            call.data@ == self.data_bytes(),
    {
        Instruction { program: self.rwt_engine_program, accounts: self.metas(), data: self.data() }
    }
}

} // verus!
