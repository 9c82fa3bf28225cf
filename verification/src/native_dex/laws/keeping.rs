//! How the exchange's accounts are kept in bytes.
use vstd::prelude::*;

use crate::bytes::le_bytes;
use crate::laws::{flag, turned_32, turned_64};
use crate::native_dex::state::{
    BinArray, DexConfig, LiquidityNexus, LpPosition, PoolCreators, PoolState,
};

verus! {

/// A `DexConfig` lies in its account in 167 bytes: its fields in their order, one behind the other.
pub proof fn dex_config_lies_in_order(value: DexConfig, data: Seq<u8>)
    requires
        value.stored_in(data),
    ensures
        data.len() >= 167,
        data.take(167) == value.authority@
            + value.pending_authority@
            + flag(value.has_pending)
            + value.pause_authority@
            + le_bytes(value.base_fee_bps as nat, 2)
            + le_bytes(value.lp_fee_share_bps as nat, 2)
            + value.areal_fee_destination@
            + value.rebalancer@
            + flag(value.is_active)
            + seq![value.bump],
{
    assert(data.subrange(0, 64) =~= data.subrange(0, 32) + data.subrange(32, 64));
    assert(data.subrange(0, 65) =~= data.subrange(0, 64) + data.subrange(64, 65));
    assert(data.subrange(0, 97) =~= data.subrange(0, 65) + data.subrange(65, 97));
    assert(data.subrange(0, 99) =~= data.subrange(0, 97) + data.subrange(97, 99));
    assert(data.subrange(0, 101) =~= data.subrange(0, 99) + data.subrange(99, 101));
    assert(data.subrange(0, 133) =~= data.subrange(0, 101) + data.subrange(101, 133));
    assert(data.subrange(0, 165) =~= data.subrange(0, 133) + data.subrange(133, 165));
    assert(data.subrange(0, 166) =~= data.subrange(0, 165) + data.subrange(165, 166));
    assert(data.subrange(0, 167) =~= data.subrange(0, 166) + data.subrange(166, 167));
    assert(data.take(167) =~= data.subrange(0, 167));
}

/// A `PoolState` lies in its account in 264 bytes: its fields in their order, one behind the other.
pub proof fn pool_state_lies_in_order(value: PoolState, data: Seq<u8>)
    requires
        value.stored_in(data),
    ensures
        data.len() >= 264,
        data.take(264) == seq![value.pool_type]
            + value.token_a_mint@
            + value.token_b_mint@
            + value.vault_a@
            + value.vault_b@
            + le_bytes(value.reserve_a as nat, 8)
            + le_bytes(value.reserve_b as nat, 8)
            + le_bytes(value.total_lp_shares as nat, 16)
            + le_bytes(value.fee_bps as nat, 2)
            + flag(value.is_active)
            + le_bytes(value.total_fees_accumulated as nat, 8)
            + le_bytes(value.bin_step_bps as nat, 2)
            + le_bytes(turned_32(value.active_bin_id), 4)
            + value.ot_treasury_fee_destination@
            + flag(value.has_ot_treasury)
            + seq![value.bump]
            + le_bytes(value.cumulative_fees_per_share_a as nat, 16)
            + le_bytes(value.cumulative_fees_per_share_b as nat, 16)
            + le_bytes(turned_32(value.left_anchor_bin), 4)
            + le_bytes(turned_32(value.permanent_tail_floor_bin), 4)
            + le_bytes(turned_32(value.last_rebalance_nav_bin), 4)
            + le_bytes(turned_32(value.active_zone_lower), 4)
            + le_bytes(value.permanent_tail_offset_bps as nat, 2)
            + value._pad_monotonic@,
{
    assert(data.subrange(0, 33) =~= data.subrange(0, 1) + data.subrange(1, 33));
    assert(data.subrange(0, 65) =~= data.subrange(0, 33) + data.subrange(33, 65));
    assert(data.subrange(0, 97) =~= data.subrange(0, 65) + data.subrange(65, 97));
    assert(data.subrange(0, 129) =~= data.subrange(0, 97) + data.subrange(97, 129));
    assert(data.subrange(0, 137) =~= data.subrange(0, 129) + data.subrange(129, 137));
    assert(data.subrange(0, 145) =~= data.subrange(0, 137) + data.subrange(137, 145));
    assert(data.subrange(0, 161) =~= data.subrange(0, 145) + data.subrange(145, 161));
    assert(data.subrange(0, 163) =~= data.subrange(0, 161) + data.subrange(161, 163));
    assert(data.subrange(0, 164) =~= data.subrange(0, 163) + data.subrange(163, 164));
    assert(data.subrange(0, 172) =~= data.subrange(0, 164) + data.subrange(164, 172));
    assert(data.subrange(0, 174) =~= data.subrange(0, 172) + data.subrange(172, 174));
    assert(data.subrange(0, 178) =~= data.subrange(0, 174) + data.subrange(174, 178));
    assert(data.subrange(0, 210) =~= data.subrange(0, 178) + data.subrange(178, 210));
    assert(data.subrange(0, 211) =~= data.subrange(0, 210) + data.subrange(210, 211));
    assert(data.subrange(0, 212) =~= data.subrange(0, 211) + data.subrange(211, 212));
    assert(data.subrange(0, 228) =~= data.subrange(0, 212) + data.subrange(212, 228));
    assert(data.subrange(0, 244) =~= data.subrange(0, 228) + data.subrange(228, 244));
    assert(data.subrange(0, 248) =~= data.subrange(0, 244) + data.subrange(244, 248));
    assert(data.subrange(0, 252) =~= data.subrange(0, 248) + data.subrange(248, 252));
    assert(data.subrange(0, 256) =~= data.subrange(0, 252) + data.subrange(252, 256));
    assert(data.subrange(0, 260) =~= data.subrange(0, 256) + data.subrange(256, 260));
    assert(data.subrange(0, 262) =~= data.subrange(0, 260) + data.subrange(260, 262));
    assert(data.subrange(0, 264) =~= data.subrange(0, 262) + data.subrange(262, 264));
    assert(data.take(264) =~= data.subrange(0, 264));
}

/// An `LpPosition` lies in its account in 121 bytes: its fields in their order, one behind the
/// other.
pub proof fn lp_position_lies_in_order(value: LpPosition, data: Seq<u8>)
    requires
        value.stored_in(data),
    ensures
        data.len() >= 121,
        data.take(121) == value.pool@
            + value.owner@
            + le_bytes(value.shares as nat, 16)
            + le_bytes(turned_64(value.last_update_ts), 8)
            + seq![value.bump]
            + le_bytes(value.fees_claimed_per_share_a as nat, 16)
            + le_bytes(value.fees_claimed_per_share_b as nat, 16),
{
    assert(data.subrange(0, 64) =~= data.subrange(0, 32) + data.subrange(32, 64));
    assert(data.subrange(0, 80) =~= data.subrange(0, 64) + data.subrange(64, 80));
    assert(data.subrange(0, 88) =~= data.subrange(0, 80) + data.subrange(80, 88));
    assert(data.subrange(0, 89) =~= data.subrange(0, 88) + data.subrange(88, 89));
    assert(data.subrange(0, 105) =~= data.subrange(0, 89) + data.subrange(89, 105));
    assert(data.subrange(0, 121) =~= data.subrange(0, 105) + data.subrange(105, 121));
    assert(data.take(121) =~= data.subrange(0, 121));
}

/// A `LiquidityNexus` lies in its account in 50 bytes: its fields in their order, one behind the
/// other.
pub proof fn liquidity_nexus_lies_in_order(value: LiquidityNexus, data: Seq<u8>)
    requires
        value.stored_in(data),
    ensures
        data.len() >= 50,
        data.take(50) == value.manager@
            + le_bytes(value.total_deposited_usdc as nat, 8)
            + le_bytes(value.total_deposited_rwt as nat, 8)
            + flag(value.is_active)
            + seq![value.bump],
{
    assert(data.subrange(0, 40) =~= data.subrange(0, 32) + data.subrange(32, 40));
    assert(data.subrange(0, 48) =~= data.subrange(0, 40) + data.subrange(40, 48));
    assert(data.subrange(0, 49) =~= data.subrange(0, 48) + data.subrange(48, 49));
    assert(data.subrange(0, 50) =~= data.subrange(0, 49) + data.subrange(49, 50));
    assert(data.take(50) =~= data.subrange(0, 50));
}

/// The creator list lies in its account in 354 bytes: the authority, ten places of 32 bytes, the
/// count and the bump.
pub proof fn pool_creators_lie_in_order(value: PoolCreators, data: Seq<u8>, k: int)
    requires
        value.stored_in(data),
        0 <= k < 10,
    ensures
        data.len() >= 354,
        data.take(32) == value.authority@,
        data.subrange(32 * (k + 1), 32 * (k + 2)) == value.creators[k]@,
        data.subrange(352, 354) == seq![value.active_count, value.bump],
{
    assert(data.take(32) =~= data.subrange(0, 32));
    assert(data.subrange(32 + 32 * k, 32 + 32 * k + 32) == value.creators[k]@);
    assert(data.subrange(352, 354) =~= data.subrange(352, 353) + data.subrange(353, 354));
    assert(data.subrange(352, 354) =~= seq![value.active_count, value.bump]);
}

/// The price bins lie in their account in 16,043 bytes: the pool, a thousand bins of two numbers of
/// eight bytes, side A first, the lowest bin's number, the step, the active bin's number and the
/// bump.
pub proof fn bins_lie_in_order(value: BinArray, data: Seq<u8>, k: int)
    requires
        value.stored_in(data),
        0 <= k < 1000,
    ensures
        data.len() >= 16_043,
        data.take(32) == value.pool@,
        data.subrange(16 * (k + 2), 16 * (k + 3)) == le_bytes(value.bins[k].liquidity_a as nat, 8)
            + le_bytes(value.bins[k].liquidity_b as nat, 8),
        data.subrange(16_032, 16_043) == le_bytes(turned_32(value.lower_bin_id), 4) + le_bytes(
            value.bin_step_bps as nat,
            2,
        ) + le_bytes(turned_32(value.active_bin_id), 4) + seq![value.bump],
{
    assert(data.take(32) =~= data.subrange(0, 32));
    let at = 32 + 16 * k;
    assert(value.bins[k].stored_at(data, at));
    assert(data.subrange(at, at + 16) =~= data.subrange(at, at + 8) + data.subrange(
        at + 8,
        at + 16,
    ));
    assert(data.subrange(16_032, 16_038) =~= data.subrange(16_032, 16_036) + data.subrange(
        16_036,
        16_038,
    ));
    assert(data.subrange(16_032, 16_042) =~= data.subrange(16_032, 16_038) + data.subrange(
        16_038,
        16_042,
    ));
    assert(data.subrange(16_032, 16_043) =~= data.subrange(16_032, 16_042) + data.subrange(
        16_042,
        16_043,
    ));
}

} // verus!
