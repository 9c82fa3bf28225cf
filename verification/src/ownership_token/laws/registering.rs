//! What the registration of an ownership token sets up, and when it is accepted.
use vstd::prelude::*;

use crate::address::{derived_address, zero_address, Address};
use crate::bytes::{u32_at, u64_at};
use crate::error::{OtError, ProgramError};
use crate::ownership_token::instructions::initialize_ot::{
    blank, initialize_ot_result, InitializeOt, InitializeOtOutcome,
};
use crate::seeds::{
    ot_config_seed, ot_governance_seed, ot_treasury_seed, revenue_config_seed, revenue_seed,
};

verus! {

/// The address and bump that `seed` derives for `ot_mint`, where there is one.
pub open spec fn derived_for(seed: Seq<u8>, ot_mint: Address, program_id: Address) -> Option<
    (Address, u8),
> {
    derived_address(seq![seed, ot_mint@], program_id@)
}

/// What a registration sets up: a token under its name, of the mint's own decimals, with nothing
/// minted; a revenue account that distributes from a new dollar account of its own, a hundred
/// dollars at least, and never yet; an empty list of destinations and the protocol's fee account;
/// an active governance under the named authority; and a treasury. Every account keeps the bump of
/// its own derived address, and the right to mint passes from the deployer to the configuration
/// account.
pub proof fn registration_sets_up_the_token(
    accounts: InitializeOt,
    program_id: Address,
    name: [u8; 32],
    symbol: [u8; 10],
    uri: [u8; 200],
    initial_authority: Address,
    now: i64,
)
    ensures
        initialize_ot_result(
            accounts,
            program_id,
            name,
            symbol,
            uri,
            initial_authority,
            now,
        ) matches Ok(o) ==> {
            let mint = accounts.ot_mint.address;
            let config = derived_for(ot_config_seed()@, mint, program_id);
            let revenue = derived_for(revenue_seed()@, mint, program_id);
            let list = derived_for(revenue_config_seed()@, mint, program_id);
            let governance = derived_for(ot_governance_seed()@, mint, program_id);
            let treasury = derived_for(ot_treasury_seed()@, mint, program_id);
            &&& o.config.ot_mint == mint && o.config.name == name && o.config.symbol == symbol
            &&& o.config.uri == uri && o.config.decimals == accounts.ot_mint.data@[44]
            &&& o.config.total_minted == 0
            &&& config is Some && o.config.bump == (config->0).1
            &&& o.revenue.ot_mint == mint
            &&& o.revenue.revenue_token_account == accounts.revenue_token_account.address
            &&& o.revenue.total_distributed == 0 && o.revenue.distribution_count == 0
            &&& o.revenue.last_distribution_ts == 0 && !o.revenue.is_distributing
            &&& o.revenue.min_distribution_amount == 100_000_000
            &&& revenue is Some && o.revenue.bump == (revenue->0).1
            &&& o.revenue_config.ot_mint == mint
            &&& o.revenue_config.active_count == 0 && o.revenue_config.config_version == 0
            &&& o.revenue_config.areal_fee_destination
                == accounts.areal_fee_destination_account.address
            &&& list is Some && o.revenue_config.bump == (list->0).1
            &&& forall|i: int|
                0 <= i < 10 ==> (#[trigger] o.revenue_config.destinations[i]).address
                    == zero_address() && o.revenue_config.destinations[i].allocation_bps == 0
            &&& o.governance.ot_mint == mint && o.governance.authority == initial_authority
            &&& o.governance.pending_authority == zero_address() && !o.governance.has_pending
            &&& o.governance.is_active
            &&& governance is Some && o.governance.bump == (governance->0).1
            &&& o.treasury.ot_mint == mint
            &&& treasury is Some && o.treasury.bump == (treasury->0).1
            &&& o.create_revenue_token_account.payer == accounts.deployer.address
            &&& o.create_revenue_token_account.account == accounts.revenue_token_account.address
            &&& o.create_revenue_token_account.wallet == accounts.revenue_account.address
            &&& o.create_revenue_token_account.mint == accounts.usdc_mint.address
            &&& !o.create_revenue_token_account.keep_existing
            &&& o.set_mint_authority.mint == mint
            &&& o.set_mint_authority.authority == accounts.deployer.address
            &&& o.set_mint_authority.new_authority == (config->0).0
            &&& o.event.ot_mint == mint && o.event.authority == initial_authority
            &&& o.event.decimals == accounts.ot_mint.data@[44] && o.event.timestamp == now
        },
{
    let r = initialize_ot_result(
        accounts,
        program_id,
        name,
        symbol,
        uri,
        initial_authority,
        now,
    );
    if let Ok(o) = r {
        assert forall|i: int| 0 <= i < 10 implies (#[trigger] o.revenue_config.destinations[i]).address
            == zero_address() && o.revenue_config.destinations[i].allocation_bps == 0 by {
            assert(o.revenue_config.destinations@[i] == o.revenue_config.destinations[i]);
        }
    }
}

/// When a registration is accepted: of a mint of 82 bytes with nothing minted, one to nine
/// decimals, the deployer as its one authority and nobody who can freeze it; under a name and a
/// symbol that are not blank; for an authority that is not the zero address. Why it is refused
/// otherwise is told of the first of these that fails.
pub proof fn registration_is_owed(
    accounts: InitializeOt,
    program_id: Address,
    name: [u8; 32],
    symbol: [u8; 10],
    uri: [u8; 200],
    initial_authority: Address,
    now: i64,
)
    ensures
        ({
            let mint = accounts.ot_mint.address;
            let data = accounts.ot_mint.data@;
            let r = initialize_ot_result(
                accounts,
                program_id,
                name,
                symbol,
                uri,
                initial_authority,
                now,
            );
            let told = |e: OtError| r == Err::<InitializeOtOutcome, ProgramError>(
                ProgramError::Ot(e),
            );
            let derived = derived_for(ot_config_seed()@, mint, program_id) is Some && derived_for(
                revenue_seed()@,
                mint,
                program_id,
            ) is Some && derived_for(revenue_config_seed()@, mint, program_id) is Some
                && derived_for(ot_governance_seed()@, mint, program_id) is Some && derived_for(
                ot_treasury_seed()@,
                mint,
                program_id,
            ) is Some;
            let sized = derived && data.len() >= 82;
            let unminted = sized && u64_at(data, 36) == 0;
            let divided = unminted && 1 <= data[44] <= 9;
            let owned = divided && u32_at(data, 0) == 1 && data.subrange(4, 36)
                == accounts.deployer.address@;
            let free = owned && u32_at(data, 46) == 0;
            let named = free && exists|i: int| 0 <= i < 32 && #[trigger] name@[i] != 0;
            let marked = named && exists|i: int| 0 <= i < 10 && #[trigger] symbol@[i] != 0;
            &&& r is Ok <==> marked && initial_authority != zero_address()
            &&& r == Err::<InitializeOtOutcome, ProgramError>(ProgramError::InvalidSeeds)
                <==> !derived
            &&& r == Err::<InitializeOtOutcome, ProgramError>(ProgramError::InvalidAccountData)
                <==> derived && !sized
            &&& told(OtError::InvalidMintSupply) <==> sized && !unminted
            &&& told(OtError::InvalidDecimals) <==> unminted && !divided
            &&& told(OtError::InvalidMintAuthority) <==> divided && !owned
            &&& told(OtError::FreezeAuthoritySet) <==> owned && !free
            &&& told(OtError::InvalidName) <==> free && !named
            &&& told(OtError::InvalidSymbol) <==> named && !marked
            &&& told(OtError::InvalidInitialAuthority) <==> marked && initial_authority
                == zero_address()
        }),
{
    let data = accounts.ot_mint.data@;
    if data.len() >= 82 {
        crate::laws::address_is_its_bytes(data, 4, accounts.deployer.address);
    }
    assert(blank(name@) <==> !(exists|i: int| 0 <= i < 32 && #[trigger] name@[i] != 0));
    assert(blank(symbol@) <==> !(exists|i: int| 0 <= i < 10 && #[trigger] symbol@[i] != 0));
}

} // verus!
