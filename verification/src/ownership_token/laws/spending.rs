//! What minting, spending and claiming do, and when they are accepted.
use vstd::prelude::*;

use crate::account::AccountInfo;
use crate::actions::TokenTransfer;
use crate::address::{derived_address, Address};
use crate::error::{OtError, ProgramError};
use crate::ownership_token::constants::{mpl_token_metadata_program, rent_sysvar};
use crate::ownership_token::events::{TreasurySpent, TreasuryYieldClaimed};
use crate::ownership_token::instructions::claim_yd_for_treasury::{
    treasury_claim_plan, treasury_claimed, ClaimYdForTreasury, TreasuryClaimPlan,
};
use crate::ownership_token::instructions::create_ot_metadata::{
    metadata_bytes, metadata_call, CreateMetadata, CreateOtMetadata,
};
use crate::ownership_token::instructions::mint_ot::{mint_result, MintOt, MintOutcome};
use crate::ownership_token::instructions::spend_treasury::{spend_result, SpendTreasury};
use crate::ownership_token::state::{OtConfig, OtGovernance, OtTreasury};
use crate::programs::{system_program, yd_program_id};
use crate::seeds::{ot_treasury_seed, SignedBy};

verus! {

/// What a minting does: the asked amount, of the mint, to the recipient's account, under the
/// signature of the configuration account; the counter rises by as much and the configuration keeps
/// everything else. The recipient's account is made where there is none. An accepted minting is of
/// something, under an active governance, within what the counter holds.
pub proof fn minting_gives_what_is_asked(
    accounts: MintOt,
    governance: OtGovernance,
    config: OtConfig,
    amount: u64,
    now: i64,
)
    ensures
        ({
            let r = mint_result(accounts, governance, config, amount, now);
            let told = |e: OtError| r == Err::<MintOutcome, ProgramError>(ProgramError::Ot(e));
            &&& r is Ok <==> amount > 0 && governance.is_active && config.total_minted + amount
                <= u64::MAX
            &&& told(OtError::ZeroAmount) <==> amount == 0
            &&& told(OtError::GovernanceInactive) <==> amount > 0 && !governance.is_active
            &&& told(OtError::MathOverflow) <==> amount > 0 && governance.is_active
                && config.total_minted + amount > u64::MAX
            &&& r matches Ok(o) ==> {
                &&& o.mint.amount == amount
                &&& o.mint.mint == accounts.ot_mint.address
                &&& o.mint.account == accounts.recipient_token_account.address
                &&& o.mint.mint_authority == accounts.ot_config.address
                &&& o.mint.signed_by == (SignedBy::OtConfig {
                    ot_mint: config.ot_mint,
                    bump: config.bump,
                })
                &&& o.create.payer == accounts.payer.address
                &&& o.create.account == accounts.recipient_token_account.address
                &&& o.create.wallet == accounts.recipient.address
                &&& o.create.mint == accounts.ot_mint.address
                &&& o.create.keep_existing
                &&& o.config.total_minted - config.total_minted == amount
                &&& o.config.ot_mint == config.ot_mint && o.config.name == config.name
                &&& o.config.symbol == config.symbol && o.config.decimals == config.decimals
                &&& o.config.uri == config.uri && o.config.bump == config.bump
                &&& o.event.ot_mint == config.ot_mint
                &&& o.event.recipient == accounts.recipient.address
                &&& o.event.amount == amount
                &&& o.event.new_total_minted == o.config.total_minted
                &&& o.event.timestamp == now
            }
        }),
{
}

/// What a payout does: the asked amount leaves the treasury's token account for the named one,
/// under the treasury's signature. It is accepted of something, under an active governance, from an
/// account of the named token that the treasury holds, to an account of the same token. Why it is
/// refused otherwise is told of the first of these that fails.
pub proof fn payout_leaves_the_treasury(
    accounts: SpendTreasury,
    governance: OtGovernance,
    treasury: OtTreasury,
    amount: u64,
    now: i64,
)
    ensures
        ({
            let source = accounts.treasury_token_account;
            let target = accounts.destination_token_account;
            let token = accounts.token_mint.address@;
            let r = spend_result(accounts, governance, treasury, amount, now);
            let told = |e: OtError| r == Err::<(TokenTransfer, TreasurySpent), ProgramError>(
                ProgramError::Ot(e),
            );
            let unread = r == Err::<(TokenTransfer, TreasurySpent), ProgramError>(
                ProgramError::InvalidAccountData,
            );
            let active = amount > 0 && governance.is_active;
            let sized = active && source.data@.len() >= 64;
            let same = sized && source.data@.subrange(0, 32) == token;
            let held = same && source.data@.subrange(32, 64) == accounts.ot_treasury.address@;
            let receives = held && target.data@.len() >= 32;
            let fits = receives && target.data@.subrange(0, 32) == token;
            &&& r is Ok <==> fits
            &&& told(OtError::ZeroAmount) <==> amount == 0
            &&& told(OtError::GovernanceInactive) <==> amount > 0 && !governance.is_active
            &&& unread <==> (active && !sized) || (held && !receives)
            &&& told(OtError::TokenMintMismatch) <==> (sized && !same) || (receives && !fits)
            &&& told(OtError::InvalidTokenAccountOwner) <==> same && !held
            &&& r matches Ok((t, event)) ==> {
                &&& t.amount == amount
                &&& t.from == source.address
                &&& t.to == target.address
                &&& t.authority == accounts.ot_treasury.address
                &&& t.signed_by == (SignedBy::OtTreasury {
                    ot_mint: treasury.ot_mint,
                    bump: treasury.bump,
                })
                &&& event.ot_mint == treasury.ot_mint
                &&& event.token_mint == accounts.token_mint.address
                &&& event.amount == amount
                &&& event.destination == target.address
                &&& event.timestamp == now
            }
        }),
{
    let source = accounts.treasury_token_account;
    let target = accounts.destination_token_account;
    if source.data@.len() >= 64 {
        crate::laws::address_is_its_bytes(source.data@, 0, accounts.token_mint.address);
        crate::laws::address_is_its_bytes(source.data@, 32, accounts.ot_treasury.address);
    }
    if target.data@.len() >= 32 {
        crate::laws::address_is_its_bytes(target.data@, 0, accounts.token_mint.address);
    }
}

/// What a claim asks of the yield program: the treasury claims, the caller pays, the rewards of the
/// named token go to the treasury's reward account, and the treasury's own derived address signs.
/// It is asked where the yield program is the known one, the treasury is the one derived for its
/// token, and the receiving account holds reward tokens and is the treasury's. Why it is refused
/// otherwise is told of the first of these that fails.
pub proof fn claim_is_for_the_treasury(
    accounts: ClaimYdForTreasury,
    program_id: Address,
    rwt_mint: Address,
)
    ensures
        ({
            let ata = accounts.treasury_rwt_ata;
            let found = derived_address(
                seq![ot_treasury_seed()@, accounts.ot_mint.address@],
                program_id@,
            );
            let r = treasury_claim_plan(accounts, program_id, rwt_mint);
            let told = |e: OtError| r == Err::<TreasuryClaimPlan, ProgramError>(ProgramError::Ot(e));
            let known = accounts.yd_program.address == yd_program_id();
            let derived = known && found is Some;
            let own = derived && accounts.ot_treasury.address == (found->0).0;
            let sized = own && ata.data@.len() >= 72;
            let rewards = sized && ata.data@.subrange(0, 32) == rwt_mint@;
            let held = rewards && ata.data@.subrange(32, 64) == accounts.ot_treasury.address@;
            &&& r is Ok <==> held
            &&& told(OtError::InvalidYdProgram) <==> !known
            &&& r == Err::<TreasuryClaimPlan, ProgramError>(ProgramError::InvalidSeeds) <==> known
                && !derived
            &&& told(OtError::InvalidOtTreasuryPda) <==> derived && !own
            &&& r == Err::<TreasuryClaimPlan, ProgramError>(ProgramError::InvalidAccountData)
                <==> own && !sized
            &&& told(OtError::InvalidTreasuryAtaMint) <==> sized && !rewards
            &&& told(OtError::InvalidTreasuryAtaOwner) <==> rewards && !held
            &&& r matches Ok(p) ==> {
                &&& p.ot_mint == accounts.ot_mint.address
                &&& ata.token_amount() == Ok::<u64, ProgramError>(p.before)
                &&& p.claim.claimant == accounts.ot_treasury.address
                &&& p.claim.payer == accounts.crank.address
                &&& p.claim.config == accounts.yd_config.address
                &&& p.claim.ot_mint == accounts.yd_ot_mint.address
                &&& p.claim.distributor == accounts.yd_distributor.address
                &&& p.claim.claim_status == accounts.yd_claim_status.address
                &&& p.claim.reward_vault == accounts.yd_reward_vault.address
                &&& p.claim.claimant_token == ata.address
                &&& p.claim.token_program == accounts.token_program.address
                &&& p.claim.system_program == accounts.system_program.address
                &&& p.claim.program == yd_program_id()
                &&& p.claim.signed_by == (SignedBy::OtTreasury {
                    ot_mint: accounts.ot_mint.address,
                    bump: (found->0).1,
                })
            }
        }),
{
    let ata = accounts.treasury_rwt_ata;
    if ata.data@.len() >= 72 {
        crate::laws::address_is_its_bytes(ata.data@, 0, rwt_mint);
        crate::laws::address_is_its_bytes(ata.data@, 32, accounts.ot_treasury.address);
    }
}

/// What a claim reports: what the treasury's reward account holds more than before, under both
/// tokens' names, and nothing where it holds as much. A balance that fell is refused.
pub proof fn claim_reports_what_arrived(plan: TreasuryClaimPlan, ata: AccountInfo, now: i64)
    ensures
        ({
            let r = treasury_claimed(plan, ata, now);
            let amount = ata.token_amount();
            &&& amount matches Err(e) ==> r == Err::<Option<TreasuryYieldClaimed>, ProgramError>(e)
            &&& amount matches Ok(after) ==> {
                &&& r is Err <==> after < plan.before
                &&& r is Err ==> r == Err::<Option<TreasuryYieldClaimed>, ProgramError>(
                    ProgramError::Ot(OtError::MathOverflow),
                )
                &&& r matches Ok(report) ==> {
                    &&& report is None <==> after == plan.before
                    &&& report matches Some(event) ==> plan.before + event.amount == after
                        && event.ot_mint == plan.ot_mint && event.yd_ot_mint == plan.claim.ot_mint
                        && event.timestamp == now
                }
            }
        }),
{
}

/// What the metadata call names: the token's own metadata account and mint, the configuration
/// account as the authority that signs, and the payer. It is made under an active governance, for
/// the recorded mint, through the known programs, with texts that fit their fields.
pub proof fn metadata_is_made_for_the_token(
    accounts: CreateOtMetadata,
    governance: OtGovernance,
    config: OtConfig,
    name_len: u8,
    symbol_len: u8,
    uri_len: u8,
)
    ensures
        ({
            let r = metadata_call(accounts, governance, config, name_len, symbol_len, uri_len);
            let told = |e: OtError| r == Err::<CreateMetadata, ProgramError>(ProgramError::Ot(e));
            let own = governance.is_active && accounts.ot_mint.address == config.ot_mint;
            let known = own && accounts.mpl_token_metadata_program.address
                == mpl_token_metadata_program() && accounts.system_program.address
                == system_program() && accounts.rent.address == rent_sysvar();
            &&& r is Ok <==> known && name_len <= 32 && symbol_len <= 10 && uri_len <= 200
            &&& told(OtError::GovernanceInactive) <==> !governance.is_active
            &&& told(OtError::TokenMintMismatch) <==> governance.is_active && !own
            &&& told(OtError::Unauthorized) <==> own && !known
            &&& told(OtError::InvalidName)
                <==> known && (name_len > 32 || symbol_len > 10 || uri_len
                > 200)
            &&& r matches Ok(call) ==> {
                &&& call.metadata_account == accounts.metadata_account.address
                &&& call.ot_mint == config.ot_mint
                &&& call.ot_config == accounts.ot_config.address
                &&& call.payer == accounts.payer.address
                &&& call.system_program == system_program()
                &&& call.rent == rent_sysvar()
                &&& call.program == mpl_token_metadata_program()
                &&& call.signed_by == (SignedBy::OtConfig {
                    ot_mint: config.ot_mint,
                    bump: config.bump,
                })
                &&& call.meta_list().len() == 7
                &&& call.meta_list()[0].address == call.metadata_account
                &&& call.meta_list()[1].address == config.ot_mint
                &&& call.meta_list()[2].address == accounts.ot_config.address
                &&& call.meta_list()[3].address == call.payer
                &&& call.meta_list()[4].address == accounts.ot_config.address
                &&& call.meta_list()[5].address == system_program()
                &&& call.meta_list()[6].address == rent_sysvar()
                &&& forall|i: int|
                    0 <= i < 7 ==> ((#[trigger] call.meta_list()[i]).is_signer
                        <==> i == 2 || i == 3)
                        && (call.meta_list()[i].is_writable <==> i == 0 || i == 3)
            }
        }),
{
}

/// The metadata's data can be read back: the tag, and behind it each text in its order with its
/// length before it.
pub proof fn metadata_can_be_read(name: Seq<u8>, symbol: Seq<u8>, uri: Seq<u8>)
    requires
        name.len() <= 32,
        symbol.len() <= 10,
        uri.len() <= 200,
    ensures
        ({
            let data = metadata_bytes(name, symbol, uri);
            let second = 5int + name.len();
            let third = second + 4 + symbol.len();
            let tail = third + 4 + uri.len();
            &&& data.len() == tail + 7
            &&& data[0] == 33
            &&& data[1] == name.len() && data[2] == 0 && data[3] == 0 && data[4] == 0
            &&& data.subrange(5, second) == name
            &&& data[second] == symbol.len()
            &&& data.subrange(second + 4, third) == symbol
            &&& data[third] == uri.len()
            &&& data.subrange(third + 4, tail) == uri
            &&& forall|i: int|
                tail <= i < tail + 7 ==> #[trigger] data[i] == if i == tail + 5 {
                    1u8
                } else {
                    0u8
                }
        }),
{
    reveal_with_fuel(crate::bytes::le_bytes, 5);
    let data = metadata_bytes(name, symbol, uri);
    let second = 5int + name.len();
    let third = second + 4 + symbol.len();
    let tail = third + 4 + uri.len();
    assert(data.subrange(5, second) =~= name);
    assert(data.subrange(second + 4, third) =~= symbol);
    assert(data.subrange(third + 4, tail) =~= uri);
}

} // verus!
