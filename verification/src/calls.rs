//! Calls into programs of the protocol: the accounts they pass and the data they carry.
use vstd::prelude::*;

use crate::address::Address;
use crate::bytes::{append_bytes, append_le, le_bytes};
use crate::seeds::SignedBy;

verus! {

/// How a call passes an account.
#[derive(Clone, Copy, Debug, PartialEq, Eq)]
pub struct AccountMeta {
    pub address: Address,
    pub is_writable: bool,
    pub is_signer: bool,
}

/// An account passed for reading.
pub open spec fn readable(address: Address) -> AccountMeta {
    AccountMeta { address, is_writable: false, is_signer: false }
}

/// An account passed for writing.
pub open spec fn writable(address: Address) -> AccountMeta {
    AccountMeta { address, is_writable: true, is_signer: false }
}

/// Passes an account for reading.
pub fn read_meta(address: &Address) -> (meta: AccountMeta)
    ensures
        meta == readable(*address),
{
    AccountMeta { address: *address, is_writable: false, is_signer: false }
}

/// Passes an account for writing.
pub fn write_meta(address: &Address) -> (meta: AccountMeta)
    ensures
        meta == writable(*address),
{
    AccountMeta { address: *address, is_writable: true, is_signer: false }
}

/// A call into another program.
#[derive(Debug, PartialEq, Eq)]
pub struct Instruction {
    pub program: Address,
    pub accounts: Vec<AccountMeta>,
    pub data: Vec<u8>,
}

/// Marker of the yield program's claim instruction.
pub open spec fn spec_disc_yd_claim() -> [u8; 8] {
    [0x3eu8, 0xc6u8, 0xd6u8, 0xc1u8, 0xd5u8, 0x9fu8, 0x6cu8, 0xd2u8]
}

/// Marker of the yield program's claim instruction.
#[verifier::when_used_as_spec(spec_disc_yd_claim)]
pub fn disc_yd_claim() -> (disc: [u8; 8])
    ensures
        disc == disc_yd_claim(),
{
    [0x3eu8, 0xc6u8, 0xd6u8, 0xc1u8, 0xd5u8, 0x9fu8, 0x6cu8, 0xd2u8]
}

/// A claim of vested yield from the yield program, signed by the claimant's own seeds.
#[derive(Clone, Copy, Debug, PartialEq, Eq)]
pub struct YdClaim {
    pub claimant: Address,
    pub payer: Address,
    pub config: Address,
    pub ot_mint: Address,
    pub distributor: Address,
    pub claim_status: Address,
    pub reward_vault: Address,
    pub claimant_token: Address,
    pub token_program: Address,
    pub system_program: Address,
    pub program: Address,
    pub signed_by: SignedBy,
}

impl YdClaim {
    /// The accounts of the call, in the order in which the yield program reads them.
    pub open spec fn meta_list(&self) -> Seq<AccountMeta> {
        seq![
            AccountMeta { address: self.claimant, is_writable: false, is_signer: true },
            AccountMeta { address: self.payer, is_writable: true, is_signer: true },
            readable(self.config),
            readable(self.ot_mint),
            writable(self.distributor),
            writable(self.claim_status),
            writable(self.reward_vault),
            writable(self.claimant_token),
            readable(self.token_program),
            readable(self.system_program),
        ]
    }

    /// The accounts of the call, in the order in which the yield program reads them.
    pub fn metas(&self) -> (metas: Vec<AccountMeta>)
        ensures
            metas@ == self.meta_list(),
    {
        let mut metas: Vec<AccountMeta> = Vec::new();
        metas.push(AccountMeta { address: self.claimant, is_writable: false, is_signer: true });
        metas.push(AccountMeta { address: self.payer, is_writable: true, is_signer: true });
        metas.push(read_meta(&self.config));
        metas.push(read_meta(&self.ot_mint));
        metas.push(write_meta(&self.distributor));
        metas.push(write_meta(&self.claim_status));
        metas.push(write_meta(&self.reward_vault));
        metas.push(write_meta(&self.claimant_token));
        metas.push(read_meta(&self.token_program));
        metas.push(read_meta(&self.system_program));
        assert(metas@ =~= self.meta_list());
        metas
    }
}

/// The hashes of a proof, one after another.
pub open spec fn proof_bytes(hashes: Seq<Address>) -> Seq<u8>
    decreases hashes.len(),
{
    if hashes.len() == 0 {
        Seq::empty()
    } else {
        proof_bytes(hashes.drop_last()) + hashes.last()@
    }
}

/// The data of a claim: the marker, the cumulative amount, the number of hashes, the hashes.
pub open spec fn claim_bytes(cumulative_amount: u64, hashes: Seq<Address>) -> Seq<u8> {
    disc_yd_claim()@ + le_bytes(cumulative_amount as nat, 8) + le_bytes(hashes.len(), 4)
        + proof_bytes(hashes)
}

/// Builds the data of a claim.
pub fn claim_data(cumulative_amount: u64, hashes: &Vec<Address>) -> (data: Vec<u8>)
    requires
        hashes@.len() <= u32::MAX,
    ensures
        data@ == claim_bytes(cumulative_amount, hashes@),
{
    let mut data: Vec<u8> = Vec::new();
    let disc = disc_yd_claim();
    append_bytes(&mut data, disc.as_slice());
    append_le(&mut data, cumulative_amount as u128, 8);
    append_le(&mut data, hashes.len() as u128, 4);
    let ghost head = data@;
    assert(head =~= disc_yd_claim()@ + le_bytes(cumulative_amount as nat, 8) + le_bytes(
        hashes@.len(),
        4,
    ));
    let mut i: usize = 0;
    assert(head + proof_bytes(hashes@.take(0)) =~= head);
    while i < hashes.len()
        invariant
            i <= hashes@.len(),
            data@ == head + proof_bytes(hashes@.take(i as int)),
        decreases hashes@.len() - i,
    {
        append_bytes(&mut data, hashes[i].as_slice());
        i += 1;
        proof {
            let taken = hashes@.take(i as int);
            assert(taken.drop_last() =~= hashes@.take(i - 1));
            assert(data@ =~= head + proof_bytes(taken));
        }
    }
    assert(hashes@.take(i as int) =~= hashes@);
    data
}

/// Whether `call` is the call of `claim` with the given amount and proof.
pub open spec fn is_claim_call(
    call: Instruction,
    claim: YdClaim,
    cumulative_amount: u64,
    hashes: Seq<Address>,
) -> bool {
    &&& call.program == claim.program
    &&& call.accounts@ == claim.meta_list()
    &&& call.data@ == claim_bytes(cumulative_amount, hashes)
}

/// Builds the call of a claim.
pub fn cpi_yd_claim(claim: &YdClaim, cumulative_amount: u64, hashes: &Vec<Address>) -> (call:
    Instruction)
    requires
        hashes@.len() <= u32::MAX,
    ensures
        is_claim_call(call, *claim, cumulative_amount, hashes@),
{
    Instruction {
        program: claim.program,
        accounts: claim.metas(),
        data: claim_data(cumulative_amount, hashes),
    }
}

} // verus!
