//! What the two ways to create a pool share.
use vstd::prelude::*;

use crate::account::AccountInfo;
use crate::actions::{CreateAccount, InitializeTokenAccount};
use crate::address::{
    address_before, address_eq, address_lt, address_order_is_total, derived_address, find_address_2,
    find_address_3, zero_address, Address,
};
use crate::error::{DexError, ProgramError};
use crate::native_dex::constants::{DexParams, SPL_TOKEN_ACCOUNT_SIZE};
use crate::native_dex::state::{PoolCreators, PoolState};
use crate::native_dex::validation::{is_rwt_mint, rwt_side, token_a_is_rwt};
use crate::programs::{associated_token_program, ot_program_id, spl_token_program};
use crate::seeds::{ot_treasury_seed, pool_seed, SignedBy};

verus! {

/// The creator's address, where the creator is listed.
pub open spec fn whitelisted(creators: PoolCreators, creator: Address) -> Result<
    Address,
    ProgramError,
> {
    if creators.listed().contains(creator) {
        Ok(creator)
    } else {
        Err(ProgramError::Dex(DexError::CreatorNotWhitelisted))
    }
}

/// The place of `wallet` in the creator list: the first one that holds it.
pub fn find_creator(creators: &PoolCreators, wallet: &Address) -> (place: Option<usize>)
    requires
        creators.wf(),
    ensures
        place is None <==> !creators.listed().contains(*wallet),
        place matches Some(i) ==> i < creators.active_count && creators.creators[i as int] == *wallet
            && forall|j: int| 0 <= j < i ==> creators.creators[j] != *wallet,
{
    let mut i: usize = 0;
    while i < creators.active_count as usize
        invariant
            creators.wf(),
            i <= creators.active_count,
            forall|j: int| 0 <= j < i ==> creators.creators[j] != *wallet,
        decreases creators.active_count - i,
    {
        if address_eq(&creators.creators[i], wallet) {
            assert(creators.listed()[i as int] == *wallet);
            return Some(i);
        }
        i += 1;
    }
    assert forall|j: int| 0 <= j < creators.listed().len() implies creators.listed()[j]
        != *wallet by {
        assert(creators.listed()[j] == creators.creators[j]);
    }
    None
}

/// Refuses a creator that is not listed.
pub fn require_whitelisted_creator(creators: &PoolCreators, creator: &AccountInfo) -> (r: Result<
    Address,
    ProgramError,
>)
    requires
        creators.wf(),
    ensures
        r == whitelisted(*creators, creator.address),
{
    match find_creator(creators, &creator.address) {
        Some(_) => Ok(creator.address),
        None => Err(ProgramError::Dex(DexError::CreatorNotWhitelisted)),
    }
}

/// A pair of mints for a pool: different, in byte order, one of them the reward token.
pub open spec fn valid_pair(mint_a: Address, mint_b: Address, params: DexParams) -> Result<
    (Address, Address),
    ProgramError,
> {
    if mint_a == mint_b {
        Err(ProgramError::Dex(DexError::IdenticalMints))
    } else if !address_before(mint_a, mint_b) {
        Err(ProgramError::Dex(DexError::InvalidMintOrder))
    } else {
        match rwt_side(mint_a, mint_b, params) {
            Err(e) => Err(e),
            Ok(_) => Ok((mint_a, mint_b)),
        }
    }
}

/// Refuses a pair of mints that no pool can have.
pub fn require_valid_mint_pair(
    token_a_mint: &AccountInfo,
    token_b_mint: &AccountInfo,
    params: &DexParams,
) -> (r: Result<(Address, Address), ProgramError>)
    ensures
        r == valid_pair(token_a_mint.address, token_b_mint.address, *params),
{
    let mint_a = token_a_mint.address;
    let mint_b = token_b_mint.address;
    if address_eq(&mint_a, &mint_b) {
        return Err(ProgramError::Dex(DexError::IdenticalMints));
    }
    if !address_lt(&mint_a, &mint_b) {
        return Err(ProgramError::Dex(DexError::InvalidMintOrder));
    }
    match token_a_is_rwt(&mint_a, &mint_b, params) {
        Err(e) => Err(e),
        Ok(_) => Ok((mint_a, mint_b)),
    }
}

/// Two mints make a pool in one order at most.
pub proof fn pair_has_one_order(mint_a: Address, mint_b: Address, params: DexParams)
    ensures
        valid_pair(mint_a, mint_b, params) is Ok ==> valid_pair(mint_b, mint_a, params) is Err,
{
    address_order_is_total(mint_a, mint_b);
}

/// The creation of a pool's account, with the bump of its address.
pub open spec fn pool_account(
    creator: Address,
    pool_state: Address,
    mint_a: Address,
    mint_b: Address,
    program_id: Address,
) -> Result<(CreateAccount, u8), ProgramError> {
    match derived_address(seq![pool_seed()@, mint_a@, mint_b@], program_id@) {
        None => Err(ProgramError::InvalidSeeds),
        Some((address, bump)) => if pool_state != address {
            Err(ProgramError::InvalidSeeds)
        } else {
            Ok(
                (
                    CreateAccount {
                        payer: creator,
                        account: pool_state,
                        space: PoolState::SPACE as u64,
                        owner: program_id,
                        signed_by: SignedBy::Pool {
                            token_a_mint: mint_a,
                            token_b_mint: mint_b,
                            bump,
                        },
                    },
                    bump,
                ),
            )
        },
    }
}

/// The creation of a pool's account, with the bump of its address. The account must sit at the
/// address derived from the two mints.
pub fn create_pool_account(
    creator: &AccountInfo,
    pool_state: &AccountInfo,
    mint_a: &Address,
    mint_b: &Address,
    program_id: &Address,
) -> (r: Result<(CreateAccount, u8), ProgramError>)
    ensures
        r == pool_account(creator.address, pool_state.address, *mint_a, *mint_b, *program_id),
{
    let seed = pool_seed();
    match find_address_3(seed.as_slice(), mint_a.as_slice(), mint_b.as_slice(), program_id) {
        None => Err(ProgramError::InvalidSeeds),
        Some((address, bump)) => {
            if !pool_state.is_at(&address) {
                return Err(ProgramError::InvalidSeeds);
            }
            Ok(
                (
                    CreateAccount {
                        payer: creator.address,
                        account: pool_state.address,
                        space: PoolState::SPACE as u64,
                        owner: *program_id,
                        signed_by: SignedBy::Pool {
                            token_a_mint: *mint_a,
                            token_b_mint: *mint_b,
                            bump,
                        },
                    },
                    bump,
                ),
            )
        },
    }
}

/// The creation of a pool's two vaults.
#[derive(Clone, Copy, Debug, PartialEq, Eq)]
pub struct VaultPair {
    pub create_a: CreateAccount,
    pub init_a: InitializeTokenAccount,
    pub create_b: CreateAccount,
    pub init_b: InitializeTokenAccount,
}

/// The creation of a token account.
pub open spec fn vault_account(creator: Address, vault: Address) -> CreateAccount {
    CreateAccount {
        payer: creator,
        account: vault,
        space: SPL_TOKEN_ACCOUNT_SIZE,
        owner: spl_token_program(),
        signed_by: SignedBy::Transaction,
    }
}

/// The creation of a pool's two vaults, both controlled by the pool.
pub open spec fn vault_pair(
    creator: Address,
    vault_a: Address,
    vault_b: Address,
    token_a_mint: Address,
    token_b_mint: Address,
    pool_pda: Address,
) -> VaultPair {
    VaultPair {
        create_a: vault_account(creator, vault_a),
        init_a: InitializeTokenAccount { account: vault_a, mint: token_a_mint, owner: pool_pda },
        create_b: vault_account(creator, vault_b),
        init_b: InitializeTokenAccount { account: vault_b, mint: token_b_mint, owner: pool_pda },
    }
}

/// The creation of a pool's two vaults, both controlled by the pool.
pub fn init_vault_pair(
    creator: &AccountInfo,
    vault_a: &AccountInfo,
    vault_b: &AccountInfo,
    token_a_mint: &AccountInfo,
    token_b_mint: &AccountInfo,
    pool_pda: &Address,
) -> (pair: VaultPair)
    ensures
        pair == vault_pair(
            creator.address,
            vault_a.address,
            vault_b.address,
            token_a_mint.address,
            token_b_mint.address,
            *pool_pda,
        ),
{
    VaultPair {
        create_a: CreateAccount {
            payer: creator.address,
            account: vault_a.address,
            space: SPL_TOKEN_ACCOUNT_SIZE,
            owner: spl_token_program(),
            signed_by: SignedBy::Transaction,
        },
        init_a: InitializeTokenAccount {
            account: vault_a.address,
            mint: token_a_mint.address,
            owner: *pool_pda,
        },
        create_b: CreateAccount {
            payer: creator.address,
            account: vault_b.address,
            space: SPL_TOKEN_ACCOUNT_SIZE,
            owner: spl_token_program(),
            signed_by: SignedBy::Transaction,
        },
        init_b: InitializeTokenAccount {
            account: vault_b.address,
            mint: token_b_mint.address,
            owner: *pool_pda,
        },
    }
}

/// The treasury fee account of a new pool and whether it has one. With two accounts passed, they
/// must be the treasury of the pair's other token and that treasury's reward-token account.
pub open spec fn ot_treasury_of(
    remaining: Seq<AccountInfo>,
    mint_a: Address,
    mint_b: Address,
    params: DexParams,
) -> Result<(Address, bool), ProgramError> {
    if remaining.len() < 2 {
        Ok((zero_address(), false))
    } else {
        let ot_mint = if mint_a == params.rwt_mint { mint_b } else { mint_a };
        match derived_address(seq![ot_treasury_seed()@, ot_mint@], ot_program_id()@) {
            None => Err(ProgramError::InvalidSeeds),
            Some((treasury, _)) => if remaining[0].address != treasury || remaining[0].owner
                != ot_program_id() {
                Err(ProgramError::Dex(DexError::InvalidOtTreasuryDestination))
            } else {
                match derived_address(
                    seq![treasury@, spl_token_program()@, params.rwt_mint@],
                    associated_token_program()@,
                ) {
                    None => Err(ProgramError::InvalidSeeds),
                    Some((ata, _)) => if remaining[1].address != ata {
                        Err(ProgramError::Dex(DexError::InvalidOtTreasuryDestination))
                    } else {
                        Ok((ata, true))
                    },
                }
            },
        }
    }
}

/// The treasury fee account of a new pool and whether it has one.
pub fn detect_ot_treasury(
    remaining: &Vec<AccountInfo>,
    mint_a: &Address,
    mint_b: &Address,
    params: &DexParams,
) -> (r: Result<(Address, bool), ProgramError>)
    ensures
        r == ot_treasury_of(remaining@, *mint_a, *mint_b, *params),
{
    if remaining.len() < 2 {
        return Ok((zero_address(), false));
    }
    let ot_mint = if is_rwt_mint(mint_a, params) {
        mint_b
    } else {
        mint_a
    };
    let ot_program = ot_program_id();
    let seed = ot_treasury_seed();
    let treasury = match find_address_2(seed.as_slice(), ot_mint.as_slice(), &ot_program) {
        None => {
            return Err(ProgramError::InvalidSeeds);
        },
        Some((treasury, _)) => treasury,
    };
    if !remaining[0].is_at(&treasury) || !remaining[0].is_owned_by(&ot_program) {
        return Err(ProgramError::Dex(DexError::InvalidOtTreasuryDestination));
    }
    let token_program = spl_token_program();
    let ata_program = associated_token_program();
    match find_address_3(
        treasury.as_slice(),
        token_program.as_slice(),
        params.rwt_mint.as_slice(),
        &ata_program,
    ) {
        None => Err(ProgramError::InvalidSeeds),
        Some((ata, _)) => {
            if !remaining[1].is_at(&ata) {
                return Err(ProgramError::Dex(DexError::InvalidOtTreasuryDestination));
            }
            Ok((ata, true))
        },
    }
}

} // verus!
