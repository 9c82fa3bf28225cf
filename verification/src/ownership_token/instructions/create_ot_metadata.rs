//! Wallet metadata of an ownership token.
use vstd::prelude::*;

use crate::account::{AccountInfo, Context};
use crate::address::Address;
use crate::bytes::{append_bytes, append_le, le_bytes, le_width};
use crate::calls::{read_meta, readable, writable, write_meta, AccountMeta};
use crate::error::{OtError, ProgramError};
use crate::ownership_token::constants::{mpl_token_metadata_program, rent_sysvar};
use crate::ownership_token::state::{OtConfig, OtGovernance};
use crate::programs::system_program;
use crate::seeds::SignedBy;

verus! {

/// The accounts of the metadata's creation.
pub struct CreateOtMetadata {
    pub authority: AccountInfo,
    pub ot_governance: AccountInfo,
    pub ot_config: AccountInfo,
    pub ot_mint: AccountInfo,
    pub metadata_account: AccountInfo,
    pub payer: AccountInfo,
    pub mpl_token_metadata_program: AccountInfo,
    pub system_program: AccountInfo,
    pub rent: AccountInfo,
}

/// The call that creates the metadata.
#[derive(Clone, Copy, Debug, PartialEq, Eq)]
pub struct CreateMetadata {
    pub metadata_account: Address,
    pub ot_mint: Address,
    /// Mint authority and update authority.
    pub ot_config: Address,
    pub payer: Address,
    pub system_program: Address,
    pub rent: Address,
    pub program: Address,
    pub signed_by: SignedBy,
}

impl CreateMetadata {
    /// The accounts of the call, in the order in which the metadata program reads them.
    pub open spec fn meta_list(&self) -> Seq<AccountMeta> {
        seq![
            writable(self.metadata_account),
            readable(self.ot_mint),
            AccountMeta { address: self.ot_config, is_writable: false, is_signer: true },
            AccountMeta { address: self.payer, is_writable: true, is_signer: true },
            readable(self.ot_config),
            readable(self.system_program),
            readable(self.rent),
        ]
    }

    /// The accounts of the call, in the order in which the metadata program reads them.
    pub fn metas(&self) -> (metas: Vec<AccountMeta>)
        ensures
            metas@ == self.meta_list(),
    {
        let mut metas: Vec<AccountMeta> = Vec::new();
        metas.push(write_meta(&self.metadata_account));
        metas.push(read_meta(&self.ot_mint));
        metas.push(AccountMeta { address: self.ot_config, is_writable: false, is_signer: true });
        metas.push(AccountMeta { address: self.payer, is_writable: true, is_signer: true });
        metas.push(read_meta(&self.ot_config));
        metas.push(read_meta(&self.system_program));
        metas.push(read_meta(&self.rent));
        assert(metas@ =~= self.meta_list());
        metas
    }
}

/// A text as the metadata program reads it: its length in four bytes, then its bytes.
pub open spec fn text_bytes(text: Seq<u8>) -> Seq<u8> {
    le_bytes(text.len(), 4) + text
}

/// The data of the call: the instruction's tag, the three texts, no seller fee, no creators,
/// collection or uses, mutable, no collection details.
pub open spec fn metadata_bytes(name: Seq<u8>, symbol: Seq<u8>, uri: Seq<u8>) -> Seq<u8> {
    seq![33u8] + text_bytes(name) + text_bytes(symbol) + text_bytes(uri) + seq![
        0u8,
        0u8,
        0u8,
        0u8,
        0u8,
        1u8,
        0u8,
    ]
}

/// The call that creates the metadata, or why it is refused.
pub open spec fn metadata_call(
    accounts: CreateOtMetadata,
    governance: OtGovernance,
    config: OtConfig,
    name_len: u8,
    symbol_len: u8,
    uri_len: u8,
) -> Result<CreateMetadata, ProgramError> {
    if !governance.is_active {
        Err(ProgramError::Ot(OtError::GovernanceInactive))
    } else if accounts.ot_mint.address != config.ot_mint {
        Err(ProgramError::Ot(OtError::TokenMintMismatch))
    } else if accounts.mpl_token_metadata_program.address != mpl_token_metadata_program()
        || accounts.system_program.address != system_program() || accounts.rent.address
        != rent_sysvar() {
        Err(ProgramError::Ot(OtError::Unauthorized))
    } else if name_len > 32 || symbol_len > 10 || uri_len > 200 {
        Err(ProgramError::Ot(OtError::InvalidName))
    } else {
        Ok(
            CreateMetadata {
                metadata_account: accounts.metadata_account.address,
                ot_mint: accounts.ot_mint.address,
                ot_config: accounts.ot_config.address,
                payer: accounts.payer.address,
                system_program: accounts.system_program.address,
                rent: accounts.rent.address,
                program: accounts.mpl_token_metadata_program.address,
                signed_by: SignedBy::OtConfig { ot_mint: config.ot_mint, bump: config.bump },
            },
        )
    }
}

/// Appends the first `n` bytes of `text` as a text.
fn append_text(out: &mut Vec<u8>, text: &[u8], n: usize)
    requires
        n <= text@.len(),
        n <= u32::MAX,
    ensures
        final(out)@ == old(out)@ + text_bytes(text@.take(n as int)),
{
    append_le(out, n as u128, 4);
    let head = vstd::slice::slice_subrange(text, 0, n);
    append_bytes(out, head);
    assert(head@ =~= text@.take(n as int));
    assert(out@ =~= old(out)@ + text_bytes(text@.take(n as int)));
}

/// Builds the call that creates the metadata, and its data.
pub fn handler(
    ctx: &Context<'_, CreateOtMetadata>,
    governance: &OtGovernance,
    config: &OtConfig,
    name: [u8; 32],
    name_len: u8,
    symbol: [u8; 10],
    symbol_len: u8,
    uri: [u8; 200],
    uri_len: u8,
) -> (r: Result<(CreateMetadata, Vec<u8>), ProgramError>)
    ensures
        match (
            r,
            metadata_call(*ctx.accounts, *governance, *config, name_len, symbol_len, uri_len),
        ) {
            (Ok((call, data)), Ok(expected)) => call == expected && data@ == metadata_bytes(
                name@.take(name_len as int),
                symbol@.take(symbol_len as int),
                uri@.take(uri_len as int),
            ),
            (Err(e), Err(expected)) => e == expected,
            _ => false,
        },
{
    let a = ctx.accounts;
    if !governance.is_active {
        return Err(ProgramError::Ot(OtError::GovernanceInactive));
    }
    if !a.ot_mint.is_at(&config.ot_mint) {
        return Err(ProgramError::Ot(OtError::TokenMintMismatch));
    }
    let metadata_program = mpl_token_metadata_program();
    if !a.mpl_token_metadata_program.is_at(&metadata_program) {
        return Err(ProgramError::Ot(OtError::Unauthorized));
    }
    let system = system_program();
    if !a.system_program.is_at(&system) {
        return Err(ProgramError::Ot(OtError::Unauthorized));
    }
    let rent = rent_sysvar();
    if !a.rent.is_at(&rent) {
        return Err(ProgramError::Ot(OtError::Unauthorized));
    }
    if name_len > 32 || symbol_len > 10 || uri_len > 200 {
        return Err(ProgramError::Ot(OtError::InvalidName));
    }
    let mut data: Vec<u8> = Vec::new();
    data.push(33);
    append_text(&mut data, name.as_slice(), name_len as usize);
    append_text(&mut data, symbol.as_slice(), symbol_len as usize);
    append_text(&mut data, uri.as_slice(), uri_len as usize);
    let tail: [u8; 7] = [0u8, 0u8, 0u8, 0u8, 0u8, 1u8, 0u8];
    append_bytes(&mut data, tail.as_slice());
    proof {
        assert(tail@ =~= seq![0u8, 0u8, 0u8, 0u8, 0u8, 1u8, 0u8]);
        assert(data@ =~= metadata_bytes(
            name@.take(name_len as int),
            symbol@.take(symbol_len as int),
            uri@.take(uri_len as int),
        ));
    }
    Ok(
        (
            CreateMetadata {
                metadata_account: a.metadata_account.address,
                ot_mint: a.ot_mint.address,
                ot_config: a.ot_config.address,
                payer: a.payer.address,
                system_program: a.system_program.address,
                rent: a.rent.address,
                program: a.mpl_token_metadata_program.address,
                signed_by: SignedBy::OtConfig { ot_mint: config.ot_mint, bump: config.bump },
            },
            data,
        ),
    )
}

/// The data of the call never exceeds 262 bytes.
pub proof fn metadata_is_bounded(name: Seq<u8>, symbol: Seq<u8>, uri: Seq<u8>)
    requires
        name.len() <= 32,
        symbol.len() <= 10,
        uri.len() <= 200,
    ensures
        metadata_bytes(name, symbol, uri).len() == 20 + name.len() + symbol.len() + uri.len(),
        metadata_bytes(name, symbol, uri).len() <= 262,
{
    le_width(name.len(), 4);
    le_width(symbol.len(), 4);
    le_width(uri.len(), 4);
}

} // verus!
