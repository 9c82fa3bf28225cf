//! Changes of the protocol's fee account.
use vstd::prelude::*;

use crate::account::{AccountInfo, Context};
use crate::address::{address_eq, is_zero_address, zero_address, Address};
use crate::error::{DexError, ProgramError};
use crate::native_dex::constants::DexParams;
use crate::native_dex::events::ArealFeeDestinationUpdated;
use crate::native_dex::state::DexConfig;
use crate::native_dex::validation::{is_rwt_mint, read_token_account_mint};

verus! {

/// The accounts of a change of the fee account.
pub struct UpdateArealFeeDestination {
    pub authority: AccountInfo,
    pub dex_config: AccountInfo,
    pub new_areal_fee_account: AccountInfo,
}

/// What a change of the fee account does, or why it is refused. Naming the present account
/// changes and reports nothing.
pub open spec fn update_destination_result(
    params: DexParams,
    config: DexConfig,
    new_account: AccountInfo,
    now: i64,
) -> Result<(DexConfig, Option<ArealFeeDestinationUpdated>), ProgramError> {
    match new_account.token_mint() {
        Err(e) => Err(e),
        Ok(mint) => if mint != params.rwt_mint {
            Err(ProgramError::Dex(DexError::InvalidProtocolFeeDestination))
        } else if new_account.address == zero_address() {
            Err(ProgramError::Dex(DexError::InvalidFeeDestination))
        } else if new_account.address == config.areal_fee_destination {
            Ok((config, None))
        } else {
            Ok(
                (
                    DexConfig { areal_fee_destination: new_account.address, ..config },
                    Some(
                        ArealFeeDestinationUpdated {
                            old_destination: config.areal_fee_destination,
                            new_destination: new_account.address,
                            timestamp: now,
                        },
                    ),
                ),
            )
        },
    }
}

/// Makes another reward-token account the protocol's fee account.
pub fn handler(
    ctx: &Context<'_, UpdateArealFeeDestination>,
    params: &DexParams,
    config: &DexConfig,
) -> (r: Result<(DexConfig, Option<ArealFeeDestinationUpdated>), ProgramError>)
    ensures
        r == update_destination_result(
            *params,
            *config,
            ctx.accounts.new_areal_fee_account,
            ctx.now,
        ),
{
    let account = &ctx.accounts.new_areal_fee_account;
    match read_token_account_mint(account) {
        Err(e) => {
            return Err(e);
        },
        Ok(mint) => {
            if !is_rwt_mint(&mint, params) {
                return Err(ProgramError::Dex(DexError::InvalidProtocolFeeDestination));
            }
        },
    }
    if is_zero_address(&account.address) {
        return Err(ProgramError::Dex(DexError::InvalidFeeDestination));
    }
    let old_destination = config.areal_fee_destination;
    if address_eq(&account.address, &old_destination) {
        return Ok((*config, None));
    }
    let mut updated = *config;
    updated.areal_fee_destination = account.address;
    Ok(
        (
            updated,
            Some(
                ArealFeeDestinationUpdated {
                    old_destination,
                    new_destination: account.address,
                    timestamp: ctx.now,
                },
            ),
        ),
    )
}

/// Whatever change is accepted, trades accept the recorded fee account: it is the named account,
/// and that holds reward tokens. Nothing is reported exactly where nothing changes.
pub proof fn accepted_account_takes_fees(
    params: DexParams,
    config: DexConfig,
    new_account: AccountInfo,
    now: i64,
)
    ensures
        update_destination_result(params, config, new_account, now) matches Ok((after, event)) ==> {
            &&& after.areal_fee_destination == new_account.address
            &&& new_account.token_mint() == Ok::<Address, ProgramError>(params.rwt_mint)
            &&& event is None <==> after == config
        },
{
}

} // verus!
