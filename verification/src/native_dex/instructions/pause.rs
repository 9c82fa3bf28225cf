//! Pausing and resuming of one pool.
use vstd::prelude::*;

use crate::account::{AccountInfo, Context};
use crate::error::{DexError, ProgramError};
use crate::native_dex::events::{PoolPaused, PoolUnpaused};
use crate::native_dex::state::{DexConfig, PoolState};

verus! {

/// The accounts of a pause.
pub struct PausePool {
    pub pause_authority: AccountInfo,
    pub dex_config: AccountInfo,
    pub pool_state: AccountInfo,
}

/// The accounts of a resumption.
pub struct UnpausePool {
    pub pause_authority: AccountInfo,
    pub dex_config: AccountInfo,
    pub pool_state: AccountInfo,
}

/// What a pause does, or why it is refused. Only the pause authority may pause.
pub open spec fn pause_result(
    accounts: PausePool,
    config: DexConfig,
    pool: PoolState,
    now: i64,
) -> Result<(PoolState, PoolPaused), ProgramError> {
    if accounts.pause_authority.address != config.pause_authority {
        Err(ProgramError::Dex(DexError::UnauthorizedPause))
    } else {
        Ok(
            (
                PoolState { is_active: false, ..pool },
                PoolPaused { pool: accounts.pool_state.address, timestamp: now },
            ),
        )
    }
}

/// What a resumption does, or why it is refused.
pub open spec fn unpause_result(
    accounts: UnpausePool,
    config: DexConfig,
    pool: PoolState,
    now: i64,
) -> Result<(PoolState, PoolUnpaused), ProgramError> {
    if accounts.pause_authority.address != config.pause_authority {
        Err(ProgramError::Dex(DexError::UnauthorizedPause))
    } else {
        Ok(
            (
                PoolState { is_active: true, ..pool },
                PoolUnpaused { pool: accounts.pool_state.address, timestamp: now },
            ),
        )
    }
}

/// Pauses a pool. Pausing a paused pool leaves it paused.
pub fn pause_handler(ctx: &Context<'_, PausePool>, config: &DexConfig, pool: &PoolState) -> (r: Result<
    (PoolState, PoolPaused),
    ProgramError,
>)
    ensures
        r == pause_result(*ctx.accounts, *config, *pool, ctx.now),
{
    if !ctx.accounts.pause_authority.is_at(&config.pause_authority) {
        return Err(ProgramError::Dex(DexError::UnauthorizedPause));
    }
    let mut updated = *pool;
    updated.is_active = false;
    Ok((updated, PoolPaused { pool: ctx.accounts.pool_state.address, timestamp: ctx.now }))
}

/// Resumes a pool. Resuming a running pool leaves it running.
pub fn unpause_handler(ctx: &Context<'_, UnpausePool>, config: &DexConfig, pool: &PoolState) -> (r:
    Result<(PoolState, PoolUnpaused), ProgramError>)
    ensures
        r == unpause_result(*ctx.accounts, *config, *pool, ctx.now),
{
    if !ctx.accounts.pause_authority.is_at(&config.pause_authority) {
        return Err(ProgramError::Dex(DexError::UnauthorizedPause));
    }
    let mut updated = *pool;
    updated.is_active = true;
    Ok((updated, PoolUnpaused { pool: ctx.accounts.pool_state.address, timestamp: ctx.now }))
}

/// Resuming undoes pausing, and the other way round: the pool is as if only the second had
/// happened.
pub proof fn pause_and_unpause_undo_each_other(
    pausing: PausePool,
    resuming: UnpausePool,
    config: DexConfig,
    pool: PoolState,
    now: i64,
)
    ensures
        pause_result(pausing, config, pool, now) matches Ok((paused, _)) ==> unpause_result(
            resuming,
            config,
            paused,
            now,
        ) matches Ok((resumed, _)) ==> resumed == (PoolState { is_active: true, ..pool }),
        unpause_result(resuming, config, pool, now) matches Ok((resumed, _)) ==> pause_result(
            pausing,
            config,
            resumed,
            now,
        ) matches Ok((paused, _)) ==> paused == (PoolState { is_active: false, ..pool }),
{
}

/// Pausing or resuming twice is the same as once.
pub proof fn pausing_is_idempotent(
    pausing: PausePool,
    resuming: UnpausePool,
    config: DexConfig,
    pool: PoolState,
    now: i64,
)
    ensures
        pause_result(pausing, config, pool, now) matches Ok(once) ==> pause_result(
            pausing,
            config,
            once.0,
            now,
        ) == Ok::<(PoolState, PoolPaused), ProgramError>(once),
        unpause_result(resuming, config, pool, now) matches Ok(once) ==> unpause_result(
            resuming,
            config,
            once.0,
            now,
        ) == Ok::<(PoolState, PoolUnpaused), ProgramError>(once),
{
}

} // verus!
