//! What a compounding claims and adds, in the terms of its inputs.
use vstd::prelude::*;

use crate::account::AccountInfo;
use crate::address::{derived_address, Address};
use crate::calls::YdClaim;
use crate::error::{DexError, ProgramError};
use crate::native_dex::constants::DexParams;
use crate::native_dex::instructions::compound_yield::{
    compound_plan, compounded, CompoundPlan, CompoundYield,
};
use crate::native_dex::state::PoolState;
use crate::programs::yd_program_id;
use crate::seeds::{pool_seed, SignedBy};

verus! {

/// An accepted compounding claims for the pool's mint that is not the reward token, into the vault
/// of the reward token, whichever side that is. The pool is the claimant and signs, the crank pays,
/// and the vault's balance before the claim is kept.
pub proof fn compounding_claims_for_the_other_token(
    params: DexParams,
    accounts: CompoundYield,
    program_id: Address,
    pool: PoolState,
)
    ensures
        compound_plan(params, accounts, program_id, pool) matches Ok(plan) ==> {
            let rwt_a = pool.token_a_mint == params.rwt_mint;
            &&& rwt_a || pool.token_b_mint == params.rwt_mint
            &&& plan.claim.ot_mint == if rwt_a { pool.token_b_mint } else { pool.token_a_mint }
            &&& plan.claim.claimant_token == if rwt_a { pool.vault_a } else { pool.vault_b }
            &&& plan.rwt_side == if rwt_a { 0int } else { 1int }
            &&& accounts.target_vault.token_amount() == Ok::<u64, ProgramError>(plan.before)
            &&& plan.claim == (YdClaim {
                claimant: accounts.pool_state.address,
                payer: accounts.crank.address,
                config: accounts.yd_config.address,
                ot_mint: plan.claim.ot_mint,
                distributor: accounts.yd_distributor.address,
                claim_status: accounts.yd_claim_status.address,
                reward_vault: accounts.yd_reward_vault.address,
                claimant_token: plan.claim.claimant_token,
                token_program: accounts.token_program.address,
                system_program: accounts.system_program.address,
                program: yd_program_id(),
                signed_by: SignedBy::Pool {
                    token_a_mint: pool.token_a_mint,
                    token_b_mint: pool.token_b_mint,
                    bump: pool.bump,
                },
            })
        },
{
}

/// When a compounding is owed, and how it is refused: with the yield program, a running pool that
/// holds the reward token on either side and sits at its derived address with the recorded bump,
/// the reward token's vault, the other token's mint, and a readable balance.
pub proof fn compounding_is_owed(
    params: DexParams,
    accounts: CompoundYield,
    program_id: Address,
    pool: PoolState,
)
    ensures
        ({
            let r = compound_plan(params, accounts, program_id, pool);
            let told = |e: DexError| r == Err::<CompoundPlan, ProgramError>(ProgramError::Dex(e));
            let program = accounts.yd_program.address == yd_program_id();
            let rwt_a = pool.token_a_mint == params.rwt_mint;
            let paired = rwt_a || pool.token_b_mint == params.rwt_mint;
            let runs = program && pool.is_active && paired;
            let found = derived_address(
                seq![pool_seed()@, pool.token_a_mint@, pool.token_b_mint@],
                program_id@,
            );
            let placed = found == Some((accounts.pool_state.address, pool.bump));
            let vault = accounts.target_vault.address == (if rwt_a { pool.vault_a } else {
                pool.vault_b
            });
            let mint = accounts.ot_mint.address == (if rwt_a { pool.token_b_mint } else {
                pool.token_a_mint
            });
            &&& r is Ok <==> runs && placed && vault && mint
                && accounts.target_vault.token_amount() is Ok
            &&& told(DexError::InvalidYdProgram) <==> !program
            &&& told(DexError::PoolNotActive) <==> program && !pool.is_active
            &&& told(DexError::TargetVaultNotRwt) <==> program && pool.is_active && !paired
            &&& r == Err::<CompoundPlan, ProgramError>(ProgramError::InvalidSeeds) <==> runs
                && found is None
            &&& told(DexError::InvalidPoolPda) <==> runs && found is Some && !placed
            &&& told(DexError::InvalidTargetVault) <==> runs && placed && !vault
            &&& told(DexError::InvalidOtMint) <==> runs && placed && vault && !mint
        }),
{
}

/// What arrives is added to the reserve of the reward token's side, and to nothing else: of a plan
/// and the vault after the claim, the reserve on the planned side grows by what the vault gained.
/// Where nothing arrived nothing changes; where the vault lost something, or the reserve cannot
/// hold the gain, the compounding is refused.
pub proof fn compounding_adds_what_arrived(
    plan: CompoundPlan,
    target_vault: AccountInfo,
    pool: PoolState,
    now: i64,
)
    ensures
        ({
            let after = target_vault.token_amount();
            let gain = after->Ok_0 - plan.before;
            let reserve: int = if plan.rwt_side == 0 {
                pool.reserve_a as int
            } else {
                pool.reserve_b as int
            };
            match compounded(plan, target_vault, pool, now) {
                Ok(None) => after is Ok && gain == 0,
                Ok(Some((updated, event))) => {
                    &&& after is Ok
                    &&& gain > 0
                    &&& plan.rwt_side == 0 ==> updated.reserve_a == pool.reserve_a + gain
                        && updated.reserve_b == pool.reserve_b
                    &&& plan.rwt_side != 0 ==> updated.reserve_b == pool.reserve_b + gain
                        && updated.reserve_a == pool.reserve_a
                    &&& updated == (PoolState {
                        reserve_a: updated.reserve_a,
                        reserve_b: updated.reserve_b,
                        ..pool
                    })
                    &&& event.pool == plan.claim.claimant
                    &&& event.ot_mint == plan.claim.ot_mint
                    &&& event.rwt_claimed == gain
                    &&& event.rwt_side == plan.rwt_side
                    &&& event.reserve_after == reserve + gain
                    &&& event.timestamp == now
                },
                Err(e) => {
                    &&& after is Err || gain < 0 || reserve + gain > u64::MAX
                    &&& after is Ok ==> e == ProgramError::Dex(DexError::MathOverflow)
                },
            }
        }),
{
}

/// From the claim to the reserve: a compounding that was planned for a pool raises the reserve of
/// that pool's reward token by what its vault gained, and leaves the other token's as it is.
pub proof fn compounding_raises_the_reward_reserve(
    params: DexParams,
    accounts: CompoundYield,
    program_id: Address,
    pool: PoolState,
    target_vault: AccountInfo,
    now: i64,
)
    ensures
        compound_plan(params, accounts, program_id, pool) matches Ok(plan)
            ==> compounded(plan, target_vault, pool, now) matches Ok(
            Some((updated, _)),
        ) ==> {
            &&& accounts.target_vault.token_amount() matches Ok(before)
            &&& target_vault.token_amount() matches Ok(after)
            &&& pool.token_a_mint == params.rwt_mint ==> updated.reserve_a - pool.reserve_a == after
                - before && updated.reserve_b == pool.reserve_b
            &&& pool.token_a_mint != params.rwt_mint ==> updated.reserve_b - pool.reserve_b == after
                - before && updated.reserve_a == pool.reserve_a
        },
{
}

} // verus!
