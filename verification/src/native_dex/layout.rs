//! How the exchange's accounts lie in their data: the fields one after another, without gaps.
use vstd::prelude::*;

use crate::account::AccountInfo;
use crate::address::Address;
use crate::bytes::{
    append_addresses, append_bytes, append_le, bool_byte, byte_of, le_bytes, le_is_injective,
    le_round_trip_back, le_width, read_address, read_addresses, read_array_2, read_le, read_u16,
    read_u32, read_u64, same_array, unwrap_32, unwrap_64, wrap_32, wrap_64, wrapped_32, wrapped_64,
};
use crate::error::ProgramError;
use crate::native_dex::state::{
    Bin, BinArray, DexConfig, LiquidityNexus, LpPosition, PoolCreators, PoolState,
};

verus! {

impl Bin {
    /// Whether the sixteen bytes at `offset` hold this value.
    pub open spec fn stored_at(&self, data: Seq<u8>, offset: int) -> bool {
        &&& data.subrange(offset, offset + 8) == le_bytes(self.liquidity_a as nat, 8)
        &&& data.subrange(offset + 8, offset + 16) == le_bytes(self.liquidity_b as nat, 8)
    }

    /// Bytes that grow at their end still hold the value.
    pub proof fn stays_stored(&self, before: Seq<u8>, after: Seq<u8>, offset: int)
        requires
            self.stored_at(before, offset),
            0 <= offset,
            offset + 16 <= before.len() <= after.len(),
            after.subrange(0, before.len() as int) == before,
        ensures
            self.stored_at(after, offset),
    {
        keeps_subrange(before, after, offset, offset + 8);
        keeps_subrange(before, after, offset + 8, offset + 16);
    }

    /// The bytes hold one value at most.
    pub proof fn is_read_back(&self, written: Bin, data: Seq<u8>, offset: int)
        requires
            self.stored_at(data, offset),
            written.stored_at(data, offset),
        ensures
            *self == written,
    {
        le_is_injective(self.liquidity_a as nat, written.liquidity_a as nat, 8);
        le_is_injective(self.liquidity_b as nat, written.liquidity_b as nat, 8);
    }
}

/// Appends the bytes of all bins.
fn append_bins(data: &mut Vec<u8>, bins: &[Bin; 1000])
    ensures
        final(data)@.len() == old(data)@.len() + 16_000,
        final(data)@.subrange(0, old(data)@.len() as int) == old(data)@,
        forall|i: int|
            0 <= i < 1000 ==> (#[trigger] bins[i]).stored_at(
                final(data)@,
                old(data)@.len() + 16 * i,
            ),
{
    let ghost start = data@;
    assert(start.subrange(0, start.len() as int) =~= start);
    let mut i: usize = 0;
    while i < 1000
        invariant
            i <= 1000,
            data@.len() == start.len() + 16 * i,
            data@.subrange(0, start.len() as int) == start,
            forall|k: int|
                0 <= k < i ==> (#[trigger] bins[k]).stored_at(data@, start.len() + 16 * k),
        decreases 1000 - i,
    {
        let ghost before = data@;
        append_le(data, bins[i].liquidity_a as u128, 8);
        append_le(data, bins[i].liquidity_b as u128, 8);
        proof {
            let at = start.len() + 16 * i;
            le_width(bins[i as int].liquidity_a as nat, 8);
            le_width(bins[i as int].liquidity_b as nat, 8);
            assert(data@.subrange(at, at + 8) =~= le_bytes(bins[i as int].liquidity_a as nat, 8));
            assert(data@.subrange(at + 8, at + 16) =~= le_bytes(
                bins[i as int].liquidity_b as nat,
                8,
            ));
            assert(data@.subrange(0, before.len() as int) =~= before);
            assert(data@.subrange(0, start.len() as int) =~= start) by {
                keeps_subrange(before, data@, 0, start.len() as int);
            }
            assert forall|k: int| 0 <= k < i implies (#[trigger] bins[k]).stored_at(
                data@,
                start.len() + 16 * k,
            ) by {
                bins[k].stays_stored(before, data@, start.len() + 16 * k);
            }
        }
        i += 1;
    }
}

/// Reads all bins.
fn read_bins(data: &Vec<u8>, offset: usize) -> (bins: [Bin; 1000])
    requires
        offset + 16_000 <= data@.len(),
    ensures
        forall|i: int| 0 <= i < 1000 ==> (#[trigger] bins[i]).stored_at(data@, offset + 16 * i),
{
    let len: usize = data.len();
    let mut bins: [Bin; 1000] = [Bin { liquidity_a: 0, liquidity_b: 0 };1000];
    let mut i: usize = 0;
    while i < 1000
        invariant
            i <= 1000,
            offset + 16_000 <= len == data@.len(),
            forall|k: int|
                0 <= k < i ==> (#[trigger] bins[k]).stored_at(data@, offset + 16 * k),
        decreases 1000 - i,
    {
        let at: usize = offset + 16 * i;
        let liquidity_a: u64 = read_u64(data, at);
        let liquidity_b: u64 = read_u64(data, at + 8);
        bins[i] = Bin { liquidity_a, liquidity_b };
        proof {
            le_round_trip_back(data@.subrange(at as int, at + 8));
            le_round_trip_back(data@.subrange(at + 8, at + 16));
        }
        i += 1;
    }
    bins
}

/// Bytes that grow at their end keep what they held.
proof fn keeps_subrange(before: Seq<u8>, after: Seq<u8>, from: int, to: int)
    requires
        0 <= from <= to <= before.len() <= after.len(),
        after.subrange(0, before.len() as int) == before,
    ensures
        after.subrange(from, to) == before.subrange(from, to),
{
    assert forall|j: int| 0 <= j < to - from implies after.subrange(from, to)[j]
        == before.subrange(from, to)[j] by {
        assert(after.subrange(0, before.len() as int)[from + j] == before[from + j]);
    }
    assert(after.subrange(from, to) =~= before.subrange(from, to));
}

impl DexConfig {
    /// The marker of the account: the first eight bytes of the SHA-256 hash of
    /// `"account:DexConfig"`.
    pub open spec fn spec_marker() -> [u8; 8] {
        [80u8, 197u8, 252u8, 196u8, 142u8, 152u8, 251u8, 72u8]
    }

    /// The marker of the account.
    #[verifier::when_used_as_spec(spec_marker)]
    pub fn marker() -> (marker: [u8; 8])
        ensures
            marker == Self::marker(),
    {
        [80u8, 197u8, 252u8, 196u8, 142u8, 152u8, 251u8, 72u8]
    }

    /// Whether an account of the program holds this value behind the marker.
    pub open spec fn kept_in(&self, account: AccountInfo, program_id: Address) -> bool {
        account.holds(program_id, Self::marker()) && self.stored_in(account.data@.skip(8))
    }

    /// Whether an account can be loaded: it is the program's, carries the marker and can be read.
    pub open spec fn loadable(account: AccountInfo, program_id: Address) -> bool {
        account.holds(program_id, Self::marker()) && Self::readable_from(account.data@.skip(8))
    }

    /// Loads the value that an account of the program holds.
    pub fn load(account: &AccountInfo, program_id: &Address) -> (r: Result<DexConfig, ProgramError>)
        ensures
            match r {
                Ok(value) => Self::loadable(*account, *program_id) && value.kept_in(
                    *account,
                    *program_id,
                ),
                Err(e) => e == ProgramError::InvalidAccountData && !Self::loadable(
                    *account,
                    *program_id,
                ),
            },
    {
        let marker = Self::marker();
        match account.fields(program_id, &marker) {
            Err(e) => Err(e),
            Ok(fields) => Self::decode(&fields),
        }
    }

    /// Whether the first [`Self::SIZE`] bytes of `data` hold this value.
    pub open spec fn stored_in(&self, data: Seq<u8>) -> bool {
        &&& data.len() >= 167
        &&& data.subrange(0, 32) == self.authority@
        &&& data.subrange(32, 64) == self.pending_authority@
        &&& data.subrange(64, 65) == seq![bool_byte(self.has_pending)]
        &&& data.subrange(65, 97) == self.pause_authority@
        &&& data.subrange(97, 99) == le_bytes(self.base_fee_bps as nat, 2)
        &&& data.subrange(99, 101) == le_bytes(self.lp_fee_share_bps as nat, 2)
        &&& data.subrange(101, 133) == self.areal_fee_destination@
        &&& data.subrange(133, 165) == self.rebalancer@
        &&& data.subrange(165, 166) == seq![bool_byte(self.is_active)]
        &&& data.subrange(166, 167) == seq![self.bump]
    }

    /// Whether `data` can hold a value: it is long enough, and a flag is zero or one.
    pub open spec fn readable_from(data: Seq<u8>) -> bool {
        data.len() >= 167 && data[64] <= 1 && data[165] <= 1
    }

    /// The bytes of this value.
    pub fn encode(&self) -> (data: Vec<u8>)
        ensures
            data@.len() == Self::SIZE,
            self.stored_in(data@),
    {
        let mut data: Vec<u8> = Vec::new();
        append_bytes(&mut data, self.authority.as_slice());
        append_bytes(&mut data, self.pending_authority.as_slice());
        data.push(byte_of(self.has_pending));
        append_bytes(&mut data, self.pause_authority.as_slice());
        append_le(&mut data, self.base_fee_bps as u128, 2);
        append_le(&mut data, self.lp_fee_share_bps as u128, 2);
        append_bytes(&mut data, self.areal_fee_destination.as_slice());
        append_bytes(&mut data, self.rebalancer.as_slice());
        data.push(byte_of(self.is_active));
        data.push(self.bump);
        proof {
            le_width(self.base_fee_bps as nat, 2);
            le_width(self.lp_fee_share_bps as nat, 2);
            assert(data@.subrange(0, 32) =~= self.authority@);
            assert(data@.subrange(32, 64) =~= self.pending_authority@);
            assert(data@.subrange(64, 65) =~= seq![bool_byte(self.has_pending)]);
            assert(data@.subrange(65, 97) =~= self.pause_authority@);
            assert(data@.subrange(97, 99) =~= le_bytes(self.base_fee_bps as nat, 2));
            assert(data@.subrange(99, 101) =~= le_bytes(self.lp_fee_share_bps as nat, 2));
            assert(data@.subrange(101, 133) =~= self.areal_fee_destination@);
            assert(data@.subrange(133, 165) =~= self.rebalancer@);
            assert(data@.subrange(165, 166) =~= seq![bool_byte(self.is_active)]);
            assert(data@.subrange(166, 167) =~= seq![self.bump]);
        }
        data
    }

    /// Reads the value that `data` starts with.
    pub fn decode(data: &Vec<u8>) -> (r: Result<DexConfig, ProgramError>)
        ensures
            match r {
                Ok(value) => Self::readable_from(data@) && value.stored_in(data@),
                Err(e) => e == ProgramError::InvalidAccountData && !Self::readable_from(data@),
            },
    {
        if data.len() < 167 || data[64] > 1 || data[165] > 1 {
            return Err(ProgramError::InvalidAccountData);
        }
        let authority = read_address(data, 0);
        let pending_authority = read_address(data, 32);
        let has_pending: bool = data[64] == 1;
        let pause_authority = read_address(data, 65);
        let base_fee_bps: u16 = read_u16(data, 97);
        let lp_fee_share_bps: u16 = read_u16(data, 99);
        let areal_fee_destination = read_address(data, 101);
        let rebalancer = read_address(data, 133);
        let is_active: bool = data[165] == 1;
        let bump: u8 = data[166];
        proof {
            assert(data@.subrange(64, 65) =~= seq![bool_byte(has_pending)]);
            le_round_trip_back(data@.subrange(97, 99));
            le_round_trip_back(data@.subrange(99, 101));
            assert(data@.subrange(165, 166) =~= seq![bool_byte(is_active)]);
            assert(data@.subrange(166, 167) =~= seq![bump]);
        }
        Ok(
            DexConfig {
                authority,
                pending_authority,
                has_pending,
                pause_authority,
                base_fee_bps,
                lp_fee_share_bps,
                areal_fee_destination,
                rebalancer,
                is_active,
                bump,
            },
        )
    }
}

/// What was written is read back: the bytes can be read, and they hold no other value.
pub proof fn dex_config_is_read_back(written: DexConfig, read: DexConfig, data: Seq<u8>)
    requires
        written.stored_in(data),
        read.stored_in(data),
    ensures
        DexConfig::readable_from(data),
        read == written,
{
    assert(data[64] == data.subrange(64, 65)[0]);
    assert(data[165] == data.subrange(165, 166)[0]);
    same_array(read.authority, written.authority);
    same_array(read.pending_authority, written.pending_authority);
    assert(seq![bool_byte(read.has_pending)][0] == seq![bool_byte(written.has_pending)][0]);
    same_array(read.pause_authority, written.pause_authority);
    le_is_injective(read.base_fee_bps as nat, written.base_fee_bps as nat, 2);
    le_is_injective(read.lp_fee_share_bps as nat, written.lp_fee_share_bps as nat, 2);
    same_array(read.areal_fee_destination, written.areal_fee_destination);
    same_array(read.rebalancer, written.rebalancer);
    assert(seq![bool_byte(read.is_active)][0] == seq![bool_byte(written.is_active)][0]);
    assert(seq![read.bump][0] == seq![written.bump][0]);
}

impl PoolState {
    /// The marker of the account: the first eight bytes of the SHA-256 hash of
    /// `"account:PoolState"`.
    pub open spec fn spec_marker() -> [u8; 8] {
        [247u8, 237u8, 227u8, 245u8, 215u8, 195u8, 222u8, 70u8]
    }

    /// The marker of the account.
    #[verifier::when_used_as_spec(spec_marker)]
    pub fn marker() -> (marker: [u8; 8])
        ensures
            marker == Self::marker(),
    {
        [247u8, 237u8, 227u8, 245u8, 215u8, 195u8, 222u8, 70u8]
    }

    /// Whether an account of the program holds this value behind the marker.
    pub open spec fn kept_in(&self, account: AccountInfo, program_id: Address) -> bool {
        account.holds(program_id, Self::marker()) && self.stored_in(account.data@.skip(8))
    }

    /// Whether an account can be loaded: it is the program's, carries the marker and can be read.
    pub open spec fn loadable(account: AccountInfo, program_id: Address) -> bool {
        account.holds(program_id, Self::marker()) && Self::readable_from(account.data@.skip(8))
    }

    /// Loads the value that an account of the program holds.
    pub fn load(account: &AccountInfo, program_id: &Address) -> (r: Result<PoolState, ProgramError>)
        ensures
            match r {
                Ok(value) => Self::loadable(*account, *program_id) && value.kept_in(
                    *account,
                    *program_id,
                ),
                Err(e) => e == ProgramError::InvalidAccountData && !Self::loadable(
                    *account,
                    *program_id,
                ),
            },
    {
        let marker = Self::marker();
        match account.fields(program_id, &marker) {
            Err(e) => Err(e),
            Ok(fields) => Self::decode(&fields),
        }
    }

    /// Whether the first [`Self::SIZE`] bytes of `data` hold this value.
    pub open spec fn stored_in(&self, data: Seq<u8>) -> bool {
        &&& data.len() >= 264
        &&& data.subrange(0, 1) == seq![self.pool_type]
        &&& data.subrange(1, 33) == self.token_a_mint@
        &&& data.subrange(33, 65) == self.token_b_mint@
        &&& data.subrange(65, 97) == self.vault_a@
        &&& data.subrange(97, 129) == self.vault_b@
        &&& data.subrange(129, 137) == le_bytes(self.reserve_a as nat, 8)
        &&& data.subrange(137, 145) == le_bytes(self.reserve_b as nat, 8)
        &&& data.subrange(145, 161) == le_bytes(self.total_lp_shares as nat, 16)
        &&& data.subrange(161, 163) == le_bytes(self.fee_bps as nat, 2)
        &&& data.subrange(163, 164) == seq![bool_byte(self.is_active)]
        &&& data.subrange(164, 172) == le_bytes(self.total_fees_accumulated as nat, 8)
        &&& data.subrange(172, 174) == le_bytes(self.bin_step_bps as nat, 2)
        &&& data.subrange(174, 178) == le_bytes(wrapped_32(self.active_bin_id), 4)
        &&& data.subrange(178, 210) == self.ot_treasury_fee_destination@
        &&& data.subrange(210, 211) == seq![bool_byte(self.has_ot_treasury)]
        &&& data.subrange(211, 212) == seq![self.bump]
        &&& data.subrange(212, 228) == le_bytes(self.cumulative_fees_per_share_a as nat, 16)
        &&& data.subrange(228, 244) == le_bytes(self.cumulative_fees_per_share_b as nat, 16)
        &&& data.subrange(244, 248) == le_bytes(wrapped_32(self.left_anchor_bin), 4)
        &&& data.subrange(248, 252) == le_bytes(wrapped_32(self.permanent_tail_floor_bin), 4)
        &&& data.subrange(252, 256) == le_bytes(wrapped_32(self.last_rebalance_nav_bin), 4)
        &&& data.subrange(256, 260) == le_bytes(wrapped_32(self.active_zone_lower), 4)
        &&& data.subrange(260, 262) == le_bytes(self.permanent_tail_offset_bps as nat, 2)
        &&& data.subrange(262, 264) == self._pad_monotonic@
    }

    /// Whether `data` can hold a value: it is long enough, and a flag is zero or one.
    pub open spec fn readable_from(data: Seq<u8>) -> bool {
        data.len() >= 264 && data[163] <= 1 && data[210] <= 1
    }

    /// The bytes of this value.
    pub fn encode(&self) -> (data: Vec<u8>)
        ensures
            data@.len() == Self::SIZE,
            self.stored_in(data@),
    {
        let mut data: Vec<u8> = Vec::new();
        data.push(self.pool_type);
        append_bytes(&mut data, self.token_a_mint.as_slice());
        append_bytes(&mut data, self.token_b_mint.as_slice());
        append_bytes(&mut data, self.vault_a.as_slice());
        append_bytes(&mut data, self.vault_b.as_slice());
        append_le(&mut data, self.reserve_a as u128, 8);
        append_le(&mut data, self.reserve_b as u128, 8);
        append_le(&mut data, self.total_lp_shares as u128, 16);
        append_le(&mut data, self.fee_bps as u128, 2);
        data.push(byte_of(self.is_active));
        append_le(&mut data, self.total_fees_accumulated as u128, 8);
        append_le(&mut data, self.bin_step_bps as u128, 2);
        append_le(&mut data, wrap_32(self.active_bin_id), 4);
        append_bytes(&mut data, self.ot_treasury_fee_destination.as_slice());
        data.push(byte_of(self.has_ot_treasury));
        data.push(self.bump);
        append_le(&mut data, self.cumulative_fees_per_share_a as u128, 16);
        append_le(&mut data, self.cumulative_fees_per_share_b as u128, 16);
        append_le(&mut data, wrap_32(self.left_anchor_bin), 4);
        append_le(&mut data, wrap_32(self.permanent_tail_floor_bin), 4);
        append_le(&mut data, wrap_32(self.last_rebalance_nav_bin), 4);
        append_le(&mut data, wrap_32(self.active_zone_lower), 4);
        append_le(&mut data, self.permanent_tail_offset_bps as u128, 2);
        append_bytes(&mut data, self._pad_monotonic.as_slice());
        proof {
            le_width(self.reserve_a as nat, 8);
            le_width(self.reserve_b as nat, 8);
            le_width(self.total_lp_shares as nat, 16);
            le_width(self.fee_bps as nat, 2);
            le_width(self.total_fees_accumulated as nat, 8);
            le_width(self.bin_step_bps as nat, 2);
            le_width(wrapped_32(self.active_bin_id), 4);
            le_width(self.cumulative_fees_per_share_a as nat, 16);
            le_width(self.cumulative_fees_per_share_b as nat, 16);
            le_width(wrapped_32(self.left_anchor_bin), 4);
            le_width(wrapped_32(self.permanent_tail_floor_bin), 4);
            le_width(wrapped_32(self.last_rebalance_nav_bin), 4);
            le_width(wrapped_32(self.active_zone_lower), 4);
            le_width(self.permanent_tail_offset_bps as nat, 2);
            assert(data@.subrange(0, 1) =~= seq![self.pool_type]);
            assert(data@.subrange(1, 33) =~= self.token_a_mint@);
            assert(data@.subrange(33, 65) =~= self.token_b_mint@);
            assert(data@.subrange(65, 97) =~= self.vault_a@);
            assert(data@.subrange(97, 129) =~= self.vault_b@);
            assert(data@.subrange(129, 137) =~= le_bytes(self.reserve_a as nat, 8));
            assert(data@.subrange(137, 145) =~= le_bytes(self.reserve_b as nat, 8));
            assert(data@.subrange(145, 161) =~= le_bytes(self.total_lp_shares as nat, 16));
            assert(data@.subrange(161, 163) =~= le_bytes(self.fee_bps as nat, 2));
            assert(data@.subrange(163, 164) =~= seq![bool_byte(self.is_active)]);
            assert(data@.subrange(164, 172) =~= le_bytes(self.total_fees_accumulated as nat, 8));
            assert(data@.subrange(172, 174) =~= le_bytes(self.bin_step_bps as nat, 2));
            assert(data@.subrange(174, 178) =~= le_bytes(wrapped_32(self.active_bin_id), 4));
            assert(data@.subrange(178, 210) =~= self.ot_treasury_fee_destination@);
            assert(data@.subrange(210, 211) =~= seq![bool_byte(self.has_ot_treasury)]);
            assert(data@.subrange(211, 212) =~= seq![self.bump]);
            assert(data@.subrange(212, 228)
                =~= le_bytes(self.cumulative_fees_per_share_a as nat, 16));
            assert(data@.subrange(228, 244)
                =~= le_bytes(self.cumulative_fees_per_share_b as nat, 16));
            assert(data@.subrange(244, 248) =~= le_bytes(wrapped_32(self.left_anchor_bin), 4));
            assert(data@.subrange(248, 252)
                =~= le_bytes(wrapped_32(self.permanent_tail_floor_bin), 4));
            assert(data@.subrange(252, 256)
                =~= le_bytes(wrapped_32(self.last_rebalance_nav_bin), 4));
            assert(data@.subrange(256, 260) =~= le_bytes(wrapped_32(self.active_zone_lower), 4));
            assert(data@.subrange(260, 262) =~= le_bytes(self.permanent_tail_offset_bps as nat, 2));
            assert(data@.subrange(262, 264) =~= self._pad_monotonic@);
        }
        data
    }

    /// Reads the value that `data` starts with.
    pub fn decode(data: &Vec<u8>) -> (r: Result<PoolState, ProgramError>)
        ensures
            match r {
                Ok(value) => Self::readable_from(data@) && value.stored_in(data@),
                Err(e) => e == ProgramError::InvalidAccountData && !Self::readable_from(data@),
            },
    {
        if data.len() < 264 || data[163] > 1 || data[210] > 1 {
            return Err(ProgramError::InvalidAccountData);
        }
        let pool_type: u8 = data[0];
        let token_a_mint = read_address(data, 1);
        let token_b_mint = read_address(data, 33);
        let vault_a = read_address(data, 65);
        let vault_b = read_address(data, 97);
        let reserve_a: u64 = read_u64(data, 129);
        let reserve_b: u64 = read_u64(data, 137);
        let total_lp_shares: u128 = read_le(data, 145, 16);
        let fee_bps: u16 = read_u16(data, 161);
        let is_active: bool = data[163] == 1;
        let total_fees_accumulated: u64 = read_u64(data, 164);
        let bin_step_bps: u16 = read_u16(data, 172);
        let active_bin_id: i32 = unwrap_32(read_u32(data, 174));
        let ot_treasury_fee_destination = read_address(data, 178);
        let has_ot_treasury: bool = data[210] == 1;
        let bump: u8 = data[211];
        let cumulative_fees_per_share_a: u128 = read_le(data, 212, 16);
        let cumulative_fees_per_share_b: u128 = read_le(data, 228, 16);
        let left_anchor_bin: i32 = unwrap_32(read_u32(data, 244));
        let permanent_tail_floor_bin: i32 = unwrap_32(read_u32(data, 248));
        let last_rebalance_nav_bin: i32 = unwrap_32(read_u32(data, 252));
        let active_zone_lower: i32 = unwrap_32(read_u32(data, 256));
        let permanent_tail_offset_bps: u16 = read_u16(data, 260);
        let _pad_monotonic = read_array_2(data, 262);
        proof {
            assert(data@.subrange(0, 1) =~= seq![pool_type]);
            le_round_trip_back(data@.subrange(129, 137));
            le_round_trip_back(data@.subrange(137, 145));
            le_round_trip_back(data@.subrange(145, 161));
            le_round_trip_back(data@.subrange(161, 163));
            assert(data@.subrange(163, 164) =~= seq![bool_byte(is_active)]);
            le_round_trip_back(data@.subrange(164, 172));
            le_round_trip_back(data@.subrange(172, 174));
            le_round_trip_back(data@.subrange(174, 178));
            assert(data@.subrange(210, 211) =~= seq![bool_byte(has_ot_treasury)]);
            assert(data@.subrange(211, 212) =~= seq![bump]);
            le_round_trip_back(data@.subrange(212, 228));
            le_round_trip_back(data@.subrange(228, 244));
            le_round_trip_back(data@.subrange(244, 248));
            le_round_trip_back(data@.subrange(248, 252));
            le_round_trip_back(data@.subrange(252, 256));
            le_round_trip_back(data@.subrange(256, 260));
            le_round_trip_back(data@.subrange(260, 262));
        }
        Ok(
            PoolState {
                pool_type,
                token_a_mint,
                token_b_mint,
                vault_a,
                vault_b,
                reserve_a,
                reserve_b,
                total_lp_shares,
                fee_bps,
                is_active,
                total_fees_accumulated,
                bin_step_bps,
                active_bin_id,
                ot_treasury_fee_destination,
                has_ot_treasury,
                bump,
                cumulative_fees_per_share_a,
                cumulative_fees_per_share_b,
                left_anchor_bin,
                permanent_tail_floor_bin,
                last_rebalance_nav_bin,
                active_zone_lower,
                permanent_tail_offset_bps,
                _pad_monotonic,
            },
        )
    }
}

/// What was written is read back: the bytes can be read, and they hold no other value.
pub proof fn pool_state_is_read_back(written: PoolState, read: PoolState, data: Seq<u8>)
    requires
        written.stored_in(data),
        read.stored_in(data),
    ensures
        PoolState::readable_from(data),
        read == written,
{
    assert(data[163] == data.subrange(163, 164)[0]);
    assert(data[210] == data.subrange(210, 211)[0]);
    assert(seq![read.pool_type][0] == seq![written.pool_type][0]);
    same_array(read.token_a_mint, written.token_a_mint);
    same_array(read.token_b_mint, written.token_b_mint);
    same_array(read.vault_a, written.vault_a);
    same_array(read.vault_b, written.vault_b);
    le_is_injective(read.reserve_a as nat, written.reserve_a as nat, 8);
    le_is_injective(read.reserve_b as nat, written.reserve_b as nat, 8);
    le_is_injective(read.total_lp_shares as nat, written.total_lp_shares as nat, 16);
    le_is_injective(read.fee_bps as nat, written.fee_bps as nat, 2);
    assert(seq![bool_byte(read.is_active)][0] == seq![bool_byte(written.is_active)][0]);
    le_is_injective(read.total_fees_accumulated as nat, written.total_fees_accumulated as nat, 8);
    le_is_injective(read.bin_step_bps as nat, written.bin_step_bps as nat, 2);
    le_is_injective(wrapped_32(read.active_bin_id), wrapped_32(written.active_bin_id), 4);
    same_array(read.ot_treasury_fee_destination, written.ot_treasury_fee_destination);
    assert(seq![bool_byte(read.has_ot_treasury)][0] == seq![bool_byte(written.has_ot_treasury)][0]);
    assert(seq![read.bump][0] == seq![written.bump][0]);
    le_is_injective(
        read.cumulative_fees_per_share_a as nat,
        written.cumulative_fees_per_share_a as nat,
        16,
    );
    le_is_injective(
        read.cumulative_fees_per_share_b as nat,
        written.cumulative_fees_per_share_b as nat,
        16,
    );
    le_is_injective(wrapped_32(read.left_anchor_bin), wrapped_32(written.left_anchor_bin), 4);
    le_is_injective(
        wrapped_32(read.permanent_tail_floor_bin),
        wrapped_32(written.permanent_tail_floor_bin),
        4,
    );
    le_is_injective(
        wrapped_32(read.last_rebalance_nav_bin),
        wrapped_32(written.last_rebalance_nav_bin),
        4,
    );
    le_is_injective(wrapped_32(read.active_zone_lower), wrapped_32(written.active_zone_lower), 4);
    le_is_injective(
        read.permanent_tail_offset_bps as nat,
        written.permanent_tail_offset_bps as nat,
        2,
    );
    same_array(read._pad_monotonic, written._pad_monotonic);
}

impl PoolCreators {
    /// The marker of the account: the first eight bytes of the SHA-256 hash of
    /// `"account:PoolCreators"`.
    pub open spec fn spec_marker() -> [u8; 8] {
        [97u8, 223u8, 23u8, 9u8, 13u8, 138u8, 117u8, 136u8]
    }

    /// The marker of the account.
    #[verifier::when_used_as_spec(spec_marker)]
    pub fn marker() -> (marker: [u8; 8])
        ensures
            marker == Self::marker(),
    {
        [97u8, 223u8, 23u8, 9u8, 13u8, 138u8, 117u8, 136u8]
    }

    /// Whether an account of the program holds this value behind the marker.
    pub open spec fn kept_in(&self, account: AccountInfo, program_id: Address) -> bool {
        account.holds(program_id, Self::marker()) && self.stored_in(account.data@.skip(8))
    }

    /// Whether an account can be loaded: it is the program's, carries the marker and can be read.
    pub open spec fn loadable(account: AccountInfo, program_id: Address) -> bool {
        account.holds(program_id, Self::marker()) && Self::readable_from(account.data@.skip(8))
    }

    /// Loads the value that an account of the program holds.
    pub fn load(account: &AccountInfo, program_id: &Address) -> (r: Result<
        PoolCreators,
        ProgramError,
    >)
        ensures
            match r {
                Ok(value) => Self::loadable(*account, *program_id) && value.kept_in(
                    *account,
                    *program_id,
                ),
                Err(e) => e == ProgramError::InvalidAccountData && !Self::loadable(
                    *account,
                    *program_id,
                ),
            },
    {
        let marker = Self::marker();
        match account.fields(program_id, &marker) {
            Err(e) => Err(e),
            Ok(fields) => Self::decode(&fields),
        }
    }

    /// Whether the first [`Self::SIZE`] bytes of `data` hold this value.
    pub open spec fn stored_in(&self, data: Seq<u8>) -> bool {
        &&& data.len() >= 354
        &&& data.subrange(0, 32) == self.authority@
        &&& forall|i: int|
            0 <= i < 10 ==> data.subrange(32 + 32 * i, 32 + 32 * i + 32)
                == (#[trigger] self.creators[i])@
        &&& data.subrange(352, 353) == seq![self.active_count]
        &&& data.subrange(353, 354) == seq![self.bump]
    }

    /// Whether `data` can hold a value: it is long enough.
    pub open spec fn readable_from(data: Seq<u8>) -> bool {
        data.len() >= 354
    }

    /// The bytes of this value.
    pub fn encode(&self) -> (data: Vec<u8>)
        ensures
            data@.len() == Self::SIZE,
            self.stored_in(data@),
    {
        let mut data: Vec<u8> = Vec::new();
        append_bytes(&mut data, self.authority.as_slice());
        append_addresses(&mut data, &self.creators);
        let ghost with_creators = data@;
        data.push(self.active_count);
        data.push(self.bump);
        proof {
            assert(data@.subrange(0, 32) =~= self.authority@);
            assert(data@.subrange(0, 352) =~= with_creators);
            assert forall|i: int| 0 <= i < 10 implies data@.subrange(
                32 + 32 * i,
                32 + 32 * i + 32,
            ) == (#[trigger] self.creators[i])@ by {
                assert(data@.subrange(32 + 32 * i, 32 + 32 * i + 32) =~= with_creators.subrange(
                    32 + 32 * i,
                    32 + 32 * i + 32,
                ));
            }
            assert(data@.subrange(352, 353) =~= seq![self.active_count]);
            assert(data@.subrange(353, 354) =~= seq![self.bump]);
        }
        data
    }

    /// Reads the value that `data` starts with.
    pub fn decode(data: &Vec<u8>) -> (r: Result<PoolCreators, ProgramError>)
        ensures
            match r {
                Ok(value) => Self::readable_from(data@) && value.stored_in(data@),
                Err(e) => e == ProgramError::InvalidAccountData && !Self::readable_from(data@),
            },
    {
        if data.len() < 354 {
            return Err(ProgramError::InvalidAccountData);
        }
        let authority = read_address(data, 0);
        let creators = read_addresses(data, 32);
        let active_count: u8 = data[352];
        let bump: u8 = data[353];
        proof {
            assert(data@.subrange(352, 353) =~= seq![active_count]);
            assert(data@.subrange(353, 354) =~= seq![bump]);
        }
        Ok(PoolCreators { authority, creators, active_count, bump })
    }
}

/// What was written is read back: the bytes can be read, and they hold no other value.
pub proof fn pool_creators_is_read_back(written: PoolCreators, read: PoolCreators, data: Seq<u8>)
    requires
        written.stored_in(data),
        read.stored_in(data),
    ensures
        PoolCreators::readable_from(data),
        read == written,
{
    same_array(read.authority, written.authority);
    assert forall|i: int| 0 <= i < 10 implies #[trigger] read.creators[i] == written.creators[i] by {
        same_array(read.creators[i], written.creators[i]);
    }
    assert(read.creators =~= written.creators);
    assert(seq![read.active_count][0] == seq![written.active_count][0]);
    assert(seq![read.bump][0] == seq![written.bump][0]);
}

impl LpPosition {
    /// The marker of the account: the first eight bytes of the SHA-256 hash of
    /// `"account:LpPosition"`.
    pub open spec fn spec_marker() -> [u8; 8] {
        [105u8, 241u8, 37u8, 200u8, 224u8, 2u8, 252u8, 90u8]
    }

    /// The marker of the account.
    #[verifier::when_used_as_spec(spec_marker)]
    pub fn marker() -> (marker: [u8; 8])
        ensures
            marker == Self::marker(),
    {
        [105u8, 241u8, 37u8, 200u8, 224u8, 2u8, 252u8, 90u8]
    }

    /// Whether an account of the program holds this value behind the marker.
    pub open spec fn kept_in(&self, account: AccountInfo, program_id: Address) -> bool {
        account.holds(program_id, Self::marker()) && self.stored_in(account.data@.skip(8))
    }

    /// Whether an account can be loaded: it is the program's, carries the marker and can be read.
    pub open spec fn loadable(account: AccountInfo, program_id: Address) -> bool {
        account.holds(program_id, Self::marker()) && Self::readable_from(account.data@.skip(8))
    }

    /// Loads the value that an account of the program holds.
    pub fn load(account: &AccountInfo, program_id: &Address) -> (r: Result<
        LpPosition,
        ProgramError,
    >)
        ensures
            match r {
                Ok(value) => Self::loadable(*account, *program_id) && value.kept_in(
                    *account,
                    *program_id,
                ),
                Err(e) => e == ProgramError::InvalidAccountData && !Self::loadable(
                    *account,
                    *program_id,
                ),
            },
    {
        let marker = Self::marker();
        match account.fields(program_id, &marker) {
            Err(e) => Err(e),
            Ok(fields) => Self::decode(&fields),
        }
    }

    /// Whether the first [`Self::SIZE`] bytes of `data` hold this value.
    pub open spec fn stored_in(&self, data: Seq<u8>) -> bool {
        &&& data.len() >= 121
        &&& data.subrange(0, 32) == self.pool@
        &&& data.subrange(32, 64) == self.owner@
        &&& data.subrange(64, 80) == le_bytes(self.shares as nat, 16)
        &&& data.subrange(80, 88) == le_bytes(wrapped_64(self.last_update_ts), 8)
        &&& data.subrange(88, 89) == seq![self.bump]
        &&& data.subrange(89, 105) == le_bytes(self.fees_claimed_per_share_a as nat, 16)
        &&& data.subrange(105, 121) == le_bytes(self.fees_claimed_per_share_b as nat, 16)
    }

    /// Whether `data` can hold a value: it is long enough.
    pub open spec fn readable_from(data: Seq<u8>) -> bool {
        data.len() >= 121
    }

    /// The bytes of this value.
    pub fn encode(&self) -> (data: Vec<u8>)
        ensures
            data@.len() == Self::SIZE,
            self.stored_in(data@),
    {
        let mut data: Vec<u8> = Vec::new();
        append_bytes(&mut data, self.pool.as_slice());
        append_bytes(&mut data, self.owner.as_slice());
        append_le(&mut data, self.shares as u128, 16);
        append_le(&mut data, wrap_64(self.last_update_ts), 8);
        data.push(self.bump);
        append_le(&mut data, self.fees_claimed_per_share_a as u128, 16);
        append_le(&mut data, self.fees_claimed_per_share_b as u128, 16);
        proof {
            le_width(self.shares as nat, 16);
            le_width(wrapped_64(self.last_update_ts), 8);
            le_width(self.fees_claimed_per_share_a as nat, 16);
            le_width(self.fees_claimed_per_share_b as nat, 16);
            assert(data@.subrange(0, 32) =~= self.pool@);
            assert(data@.subrange(32, 64) =~= self.owner@);
            assert(data@.subrange(64, 80) =~= le_bytes(self.shares as nat, 16));
            assert(data@.subrange(80, 88) =~= le_bytes(wrapped_64(self.last_update_ts), 8));
            assert(data@.subrange(88, 89) =~= seq![self.bump]);
            assert(data@.subrange(89, 105) =~= le_bytes(self.fees_claimed_per_share_a as nat, 16));
            assert(data@.subrange(105, 121) =~= le_bytes(self.fees_claimed_per_share_b as nat, 16));
        }
        data
    }

    /// Reads the value that `data` starts with.
    pub fn decode(data: &Vec<u8>) -> (r: Result<LpPosition, ProgramError>)
        ensures
            match r {
                Ok(value) => Self::readable_from(data@) && value.stored_in(data@),
                Err(e) => e == ProgramError::InvalidAccountData && !Self::readable_from(data@),
            },
    {
        if data.len() < 121 {
            return Err(ProgramError::InvalidAccountData);
        }
        let pool = read_address(data, 0);
        let owner = read_address(data, 32);
        let shares: u128 = read_le(data, 64, 16);
        let last_update_ts: i64 = unwrap_64(read_u64(data, 80));
        let bump: u8 = data[88];
        let fees_claimed_per_share_a: u128 = read_le(data, 89, 16);
        let fees_claimed_per_share_b: u128 = read_le(data, 105, 16);
        proof {
            le_round_trip_back(data@.subrange(64, 80));
            le_round_trip_back(data@.subrange(80, 88));
            assert(data@.subrange(88, 89) =~= seq![bump]);
            le_round_trip_back(data@.subrange(89, 105));
            le_round_trip_back(data@.subrange(105, 121));
        }
        Ok(
            LpPosition {
                pool,
                owner,
                shares,
                last_update_ts,
                bump,
                fees_claimed_per_share_a,
                fees_claimed_per_share_b,
            },
        )
    }
}

/// What was written is read back: the bytes can be read, and they hold no other value.
pub proof fn lp_position_is_read_back(written: LpPosition, read: LpPosition, data: Seq<u8>)
    requires
        written.stored_in(data),
        read.stored_in(data),
    ensures
        LpPosition::readable_from(data),
        read == written,
{
    same_array(read.pool, written.pool);
    same_array(read.owner, written.owner);
    le_is_injective(read.shares as nat, written.shares as nat, 16);
    le_is_injective(wrapped_64(read.last_update_ts), wrapped_64(written.last_update_ts), 8);
    assert(seq![read.bump][0] == seq![written.bump][0]);
    le_is_injective(
        read.fees_claimed_per_share_a as nat,
        written.fees_claimed_per_share_a as nat,
        16,
    );
    le_is_injective(
        read.fees_claimed_per_share_b as nat,
        written.fees_claimed_per_share_b as nat,
        16,
    );
}

impl BinArray {
    /// The marker of the account: the first eight bytes of the SHA-256 hash of
    /// `"account:BinArray"`.
    pub open spec fn spec_marker() -> [u8; 8] {
        [92u8, 142u8, 92u8, 220u8, 5u8, 148u8, 70u8, 181u8]
    }

    /// The marker of the account.
    #[verifier::when_used_as_spec(spec_marker)]
    pub fn marker() -> (marker: [u8; 8])
        ensures
            marker == Self::marker(),
    {
        [92u8, 142u8, 92u8, 220u8, 5u8, 148u8, 70u8, 181u8]
    }

    /// Whether an account of the program holds this value behind the marker.
    pub open spec fn kept_in(&self, account: AccountInfo, program_id: Address) -> bool {
        account.holds(program_id, Self::marker()) && self.stored_in(account.data@.skip(8))
    }

    /// Whether an account can be loaded: it is the program's, carries the marker and can be read.
    pub open spec fn loadable(account: AccountInfo, program_id: Address) -> bool {
        account.holds(program_id, Self::marker()) && Self::readable_from(account.data@.skip(8))
    }

    /// Loads the value that an account of the program holds.
    pub fn load(account: &AccountInfo, program_id: &Address) -> (r: Result<BinArray, ProgramError>)
        ensures
            match r {
                Ok(value) => Self::loadable(*account, *program_id) && value.kept_in(
                    *account,
                    *program_id,
                ),
                Err(e) => e == ProgramError::InvalidAccountData && !Self::loadable(
                    *account,
                    *program_id,
                ),
            },
    {
        let marker = Self::marker();
        match account.fields(program_id, &marker) {
            Err(e) => Err(e),
            Ok(fields) => Self::decode(&fields),
        }
    }

    /// Whether the first [`Self::SIZE`] bytes of `data` hold this value.
    pub open spec fn stored_in(&self, data: Seq<u8>) -> bool {
        &&& data.len() >= 16043
        &&& data.subrange(0, 32) == self.pool@
        &&& forall|i: int|
            0 <= i < 1000 ==> (#[trigger] self.bins[i]).stored_at(data, 32 + 16 * i)
        &&& data.subrange(16032, 16036) == le_bytes(wrapped_32(self.lower_bin_id), 4)
        &&& data.subrange(16036, 16038) == le_bytes(self.bin_step_bps as nat, 2)
        &&& data.subrange(16038, 16042) == le_bytes(wrapped_32(self.active_bin_id), 4)
        &&& data.subrange(16042, 16043) == seq![self.bump]
    }

    /// Whether `data` can hold a value: it is long enough.
    pub open spec fn readable_from(data: Seq<u8>) -> bool {
        data.len() >= 16043
    }

    /// The bytes of this value.
    pub fn encode(&self) -> (data: Vec<u8>)
        ensures
            data@.len() == Self::SIZE,
            self.stored_in(data@),
    {
        let mut data: Vec<u8> = Vec::new();
        append_bytes(&mut data, self.pool.as_slice());
        append_bins(&mut data, &self.bins);
        let ghost with_bins = data@;
        append_le(&mut data, wrap_32(self.lower_bin_id), 4);
        append_le(&mut data, self.bin_step_bps as u128, 2);
        append_le(&mut data, wrap_32(self.active_bin_id), 4);
        data.push(self.bump);
        proof {
            le_width(wrapped_32(self.lower_bin_id), 4);
            le_width(self.bin_step_bps as nat, 2);
            le_width(wrapped_32(self.active_bin_id), 4);
            assert(data@.subrange(0, 32) =~= self.pool@);
            assert(data@.subrange(0, 16032) =~= with_bins);
            assert forall|i: int| 0 <= i < 1000 implies (#[trigger] self.bins[i]).stored_at(
                data@,
                32 + 16 * i,
            ) by {
                self.bins[i].stays_stored(with_bins, data@, 32 + 16 * i);
            }
            assert(data@.subrange(16032, 16036) =~= le_bytes(wrapped_32(self.lower_bin_id), 4));
            assert(data@.subrange(16036, 16038) =~= le_bytes(self.bin_step_bps as nat, 2));
            assert(data@.subrange(16038, 16042) =~= le_bytes(wrapped_32(self.active_bin_id), 4));
            assert(data@.subrange(16042, 16043) =~= seq![self.bump]);
        }
        data
    }

    /// Reads the value that `data` starts with.
    pub fn decode(data: &Vec<u8>) -> (r: Result<BinArray, ProgramError>)
        ensures
            match r {
                Ok(value) => Self::readable_from(data@) && value.stored_in(data@),
                Err(e) => e == ProgramError::InvalidAccountData && !Self::readable_from(data@),
            },
    {
        if data.len() < 16043 {
            return Err(ProgramError::InvalidAccountData);
        }
        let pool = read_address(data, 0);
        let bins = read_bins(data, 32);
        let lower_bin_id: i32 = unwrap_32(read_u32(data, 16032));
        let bin_step_bps: u16 = read_u16(data, 16036);
        let active_bin_id: i32 = unwrap_32(read_u32(data, 16038));
        let bump: u8 = data[16042];
        proof {
            le_round_trip_back(data@.subrange(16032, 16036));
            le_round_trip_back(data@.subrange(16036, 16038));
            le_round_trip_back(data@.subrange(16038, 16042));
            assert(data@.subrange(16042, 16043) =~= seq![bump]);
        }
        Ok(BinArray { pool, bins, lower_bin_id, bin_step_bps, active_bin_id, bump })
    }
}

/// What was written is read back: the bytes can be read, and they hold no other value.
pub proof fn bin_array_is_read_back(written: BinArray, read: BinArray, data: Seq<u8>)
    requires
        written.stored_in(data),
        read.stored_in(data),
    ensures
        BinArray::readable_from(data),
        read == written,
{
    same_array(read.pool, written.pool);
    assert forall|i: int| 0 <= i < 1000 implies #[trigger] read.bins[i] == written.bins[i] by {
        read.bins[i].is_read_back(written.bins[i], data, 32 + 16 * i);
    }
    assert(read.bins =~= written.bins);
    le_is_injective(wrapped_32(read.lower_bin_id), wrapped_32(written.lower_bin_id), 4);
    le_is_injective(read.bin_step_bps as nat, written.bin_step_bps as nat, 2);
    le_is_injective(wrapped_32(read.active_bin_id), wrapped_32(written.active_bin_id), 4);
    assert(seq![read.bump][0] == seq![written.bump][0]);
}

impl LiquidityNexus {
    /// The marker of the account: the first eight bytes of the SHA-256 hash of
    /// `"account:LiquidityNexus"`.
    pub open spec fn spec_marker() -> [u8; 8] {
        [36u8, 55u8, 168u8, 194u8, 176u8, 11u8, 163u8, 96u8]
    }

    /// The marker of the account.
    #[verifier::when_used_as_spec(spec_marker)]
    pub fn marker() -> (marker: [u8; 8])
        ensures
            marker == Self::marker(),
    {
        [36u8, 55u8, 168u8, 194u8, 176u8, 11u8, 163u8, 96u8]
    }

    /// Whether an account of the program holds this value behind the marker.
    pub open spec fn kept_in(&self, account: AccountInfo, program_id: Address) -> bool {
        account.holds(program_id, Self::marker()) && self.stored_in(account.data@.skip(8))
    }

    /// Whether an account can be loaded: it is the program's, carries the marker and can be read.
    pub open spec fn loadable(account: AccountInfo, program_id: Address) -> bool {
        account.holds(program_id, Self::marker()) && Self::readable_from(account.data@.skip(8))
    }

    /// Loads the value that an account of the program holds.
    pub fn load(account: &AccountInfo, program_id: &Address) -> (r: Result<
        LiquidityNexus,
        ProgramError,
    >)
        ensures
            match r {
                Ok(value) => Self::loadable(*account, *program_id) && value.kept_in(
                    *account,
                    *program_id,
                ),
                Err(e) => e == ProgramError::InvalidAccountData && !Self::loadable(
                    *account,
                    *program_id,
                ),
            },
    {
        let marker = Self::marker();
        match account.fields(program_id, &marker) {
            Err(e) => Err(e),
            Ok(fields) => Self::decode(&fields),
        }
    }

    /// Whether the first [`Self::SIZE`] bytes of `data` hold this value.
    pub open spec fn stored_in(&self, data: Seq<u8>) -> bool {
        &&& data.len() >= 50
        &&& data.subrange(0, 32) == self.manager@
        &&& data.subrange(32, 40) == le_bytes(self.total_deposited_usdc as nat, 8)
        &&& data.subrange(40, 48) == le_bytes(self.total_deposited_rwt as nat, 8)
        &&& data.subrange(48, 49) == seq![bool_byte(self.is_active)]
        &&& data.subrange(49, 50) == seq![self.bump]
    }

    /// Whether `data` can hold a value: it is long enough, and a flag is zero or one.
    pub open spec fn readable_from(data: Seq<u8>) -> bool {
        data.len() >= 50 && data[48] <= 1
    }

    /// The bytes of this value.
    pub fn encode(&self) -> (data: Vec<u8>)
        ensures
            data@.len() == Self::SIZE,
            self.stored_in(data@),
    {
        let mut data: Vec<u8> = Vec::new();
        append_bytes(&mut data, self.manager.as_slice());
        append_le(&mut data, self.total_deposited_usdc as u128, 8);
        append_le(&mut data, self.total_deposited_rwt as u128, 8);
        data.push(byte_of(self.is_active));
        data.push(self.bump);
        proof {
            le_width(self.total_deposited_usdc as nat, 8);
            le_width(self.total_deposited_rwt as nat, 8);
            assert(data@.subrange(0, 32) =~= self.manager@);
            assert(data@.subrange(32, 40) =~= le_bytes(self.total_deposited_usdc as nat, 8));
            assert(data@.subrange(40, 48) =~= le_bytes(self.total_deposited_rwt as nat, 8));
            assert(data@.subrange(48, 49) =~= seq![bool_byte(self.is_active)]);
            assert(data@.subrange(49, 50) =~= seq![self.bump]);
        }
        data
    }

    /// Reads the value that `data` starts with.
    pub fn decode(data: &Vec<u8>) -> (r: Result<LiquidityNexus, ProgramError>)
        ensures
            match r {
                Ok(value) => Self::readable_from(data@) && value.stored_in(data@),
                Err(e) => e == ProgramError::InvalidAccountData && !Self::readable_from(data@),
            },
    {
        if data.len() < 50 || data[48] > 1 {
            return Err(ProgramError::InvalidAccountData);
        }
        let manager = read_address(data, 0);
        let total_deposited_usdc: u64 = read_u64(data, 32);
        let total_deposited_rwt: u64 = read_u64(data, 40);
        let is_active: bool = data[48] == 1;
        let bump: u8 = data[49];
        proof {
            le_round_trip_back(data@.subrange(32, 40));
            le_round_trip_back(data@.subrange(40, 48));
            assert(data@.subrange(48, 49) =~= seq![bool_byte(is_active)]);
            assert(data@.subrange(49, 50) =~= seq![bump]);
        }
        Ok(LiquidityNexus { manager, total_deposited_usdc, total_deposited_rwt, is_active, bump })
    }
}

/// What was written is read back: the bytes can be read, and they hold no other value.
pub proof fn liquidity_nexus_is_read_back(written: LiquidityNexus, read: LiquidityNexus, data: Seq<u8>)
    requires
        written.stored_in(data),
        read.stored_in(data),
    ensures
        LiquidityNexus::readable_from(data),
        read == written,
{
    assert(data[48] == data.subrange(48, 49)[0]);
    same_array(read.manager, written.manager);
    le_is_injective(read.total_deposited_usdc as nat, written.total_deposited_usdc as nat, 8);
    le_is_injective(read.total_deposited_rwt as nat, written.total_deposited_rwt as nat, 8);
    assert(seq![bool_byte(read.is_active)][0] == seq![bool_byte(written.is_active)][0]);
    assert(seq![read.bump][0] == seq![written.bump][0]);
}

/// The position that an account holds, or nothing where the account is yet to be created: its data
/// are empty.
pub fn position_in(account: &AccountInfo, program_id: &Address) -> (r: Result<
    Option<LpPosition>,
    ProgramError,
>)
    ensures
        r == Ok::<Option<LpPosition>, ProgramError>(None) <==> account.data@.len() == 0,
        match r {
            Ok(None) => account.data@.len() == 0,
            Ok(Some(position)) => LpPosition::loadable(*account, *program_id) && position.kept_in(
                *account,
                *program_id,
            ),
            Err(e) => account.data@.len() > 0 && e == ProgramError::InvalidAccountData
                && !LpPosition::loadable(*account, *program_id),
        },
{
    if account.data.len() == 0 {
        return Ok(None);
    }
    match LpPosition::load(account, program_id) {
        Err(e) => Err(e),
        Ok(position) => Ok(Some(position)),
    }
}

} // verus!
