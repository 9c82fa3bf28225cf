//! Accounts as an instruction receives them, and the checks a slot can declare.
use vstd::prelude::*;

use crate::address::{address_eq, derived_address, find_address_1, find_address_2, Address};
use crate::bytes::{address_at, append_bytes, read_address, read_u64, u64_at};
use crate::error::ProgramError;

verus! {

/// An account handed to an instruction.
#[derive(Debug, PartialEq, Eq)]
pub struct AccountInfo {
    pub address: Address,
    /// The program that owns the account.
    pub owner: Address,
    pub is_signer: bool,
    pub is_writable: bool,
    pub lamports: u64,
    pub data: Vec<u8>,
}

/// What an instruction runs with besides its own state and arguments.
pub struct Context<'a, T> {
    /// The named accounts.
    pub accounts: &'a T,
    /// The accounts passed after the named ones.
    pub remaining_accounts: &'a Vec<AccountInfo>,
    /// The running program.
    pub program_id: &'a Address,
    /// The chain's clock, in seconds.
    pub now: i64,
}

impl AccountInfo {
    /// The mint field of a token account: its first 32 bytes.
    pub open spec fn token_mint(&self) -> Result<Address, ProgramError> {
        if self.data@.len() < 32 {
            Err(ProgramError::InvalidAccountData)
        } else {
            Ok(address_at(self.data@, 0))
        }
    }

    /// The owner field of a token account: the 32 bytes after its mint.
    pub open spec fn token_owner(&self) -> Result<Address, ProgramError> {
        if self.data@.len() < 64 {
            Err(ProgramError::InvalidAccountData)
        } else {
            Ok(address_at(self.data@, 32))
        }
    }

    /// The balance field of a token account: the eight bytes after its owner.
    pub open spec fn token_amount(&self) -> Result<u64, ProgramError> {
        if self.data@.len() < 72 {
            Err(ProgramError::InvalidAccountData)
        } else {
            Ok(u64_at(self.data@, 64))
        }
    }

    /// Whether the account sits at `address`.
    pub fn is_at(&self, address: &Address) -> (yes: bool)
        ensures
            yes == (self.address == *address),
    {
        address_eq(&self.address, address)
    }

    /// Whether `program` owns the account.
    pub fn is_owned_by(&self, program: &Address) -> (yes: bool)
        ensures
            yes == (self.owner == *program),
    {
        address_eq(&self.owner, program)
    }

    /// Whether the account sits at the address derived from one seed.
    pub open spec fn derives_from_1(&self, seed: Seq<u8>, program_id: Address) -> bool {
        derived_address(seq![seed], program_id@) matches Some(found) && found.0 == self.address
    }

    /// Whether the account sits at the address derived from two seeds.
    pub open spec fn derives_from_2(
        &self,
        first: Seq<u8>,
        second: Seq<u8>,
        program_id: Address,
    ) -> bool {
        derived_address(seq![first, second], program_id@) matches Some(found) && found.0
            == self.address
    }

    /// Whether the account sits at the address derived from one seed.
    pub fn is_derived_1(&self, seed: &[u8], program_id: &Address) -> (yes: bool)
        ensures
            yes == self.derives_from_1(seed@, *program_id),
    {
        match find_address_1(seed, program_id) {
            Some((address, _)) => address_eq(&address, &self.address),
            None => false,
        }
    }

    /// Whether the account sits at the address derived from two seeds.
    pub fn is_derived_2(&self, first: &[u8], second: &[u8], program_id: &Address) -> (yes: bool)
        ensures
            yes == self.derives_from_2(first@, second@, *program_id),
    {
        match find_address_2(first, second, program_id) {
            Some((address, _)) => address_eq(&address, &self.address),
            None => false,
        }
    }
}

impl AccountInfo {
    /// Whether this is an account of `program_id` whose data start with `marker`.
    pub open spec fn holds(&self, program_id: Address, marker: [u8; 8]) -> bool {
        self.owner == program_id && self.data@.len() >= 8 && self.data@.subrange(0, 8) == marker@
    }

    /// The data after the marker, of an account of `program_id` that starts with it.
    pub fn fields(&self, program_id: &Address, marker: &[u8; 8]) -> (r: Result<
        Vec<u8>,
        ProgramError,
    >)
        ensures
            match r {
                Ok(fields) => self.holds(*program_id, *marker) && fields@ == self.data@.skip(8),
                Err(e) => e == ProgramError::InvalidAccountData && !self.holds(*program_id, *marker),
            },
    {
        if !address_eq(&self.owner, program_id) || self.data.len() < 8 {
            return Err(ProgramError::InvalidAccountData);
        }
        let mut i: usize = 0;
        while i < 8
            invariant
                i <= 8 <= self.data@.len(),
                forall|j: int| 0 <= j < i ==> self.data@[j] == marker[j],
            ensures
                i == 8,
            decreases 8 - i,
        {
            if self.data[i] != marker[i] {
                assert(self.data@.subrange(0, 8)[i as int] != marker@[i as int]);
                return Err(ProgramError::InvalidAccountData);
            }
            i += 1;
        }
        assert(self.data@.subrange(0, 8) =~= marker@);
        let rest = vstd::slice::slice_subrange(self.data.as_slice(), 8, self.data.len());
        let mut fields: Vec<u8> = Vec::new();
        append_bytes(&mut fields, rest);
        assert(fields@ =~= self.data@.skip(8));
        Ok(fields)
    }
}

/// Reads the mint field of a token account.
pub fn read_token_account_mint(account: &AccountInfo) -> (mint: Result<Address, ProgramError>)
    ensures
        mint == account.token_mint(),
{
    if account.data.len() < 32 {
        return Err(ProgramError::InvalidAccountData);
    }
    Ok(read_address(&account.data, 0))
}

/// Reads the owner field of a token account.
pub fn read_token_account_owner(account: &AccountInfo) -> (owner: Result<Address, ProgramError>)
    ensures
        owner == account.token_owner(),
{
    if account.data.len() < 64 {
        return Err(ProgramError::InvalidAccountData);
    }
    Ok(read_address(&account.data, 32))
}

/// Reads the balance field of a token account.
pub fn read_token_account_amount(account: &AccountInfo) -> (amount: Result<u64, ProgramError>)
    ensures
        amount == account.token_amount(),
{
    if account.data.len() < 72 {
        return Err(ProgramError::InvalidAccountData);
    }
    Ok(read_u64(&account.data, 64))
}

} // verus!
