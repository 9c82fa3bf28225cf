//! How the ownership token's accounts lie in their data: the fields one after another, without
//! gaps.
use vstd::prelude::*;

use crate::account::AccountInfo;
use crate::address::Address;
use crate::bytes::{
    append_bytes, append_le, bool_byte, byte_of, le_bytes, le_is_injective, le_round_trip_back,
    le_width, read_address, read_array_10, read_array_200, read_u16, read_u64, same_array,
    unwrap_64, wrap_64, wrapped_64,
};
use crate::error::ProgramError;
use crate::ownership_token::state::{
    OtConfig, OtGovernance, OtTreasury, RevenueAccount, RevenueConfig, RevenueDestination,
};

verus! {

impl RevenueDestination {
    /// Whether the bytes at `offset` hold this value.
    pub open spec fn stored_at(&self, data: Seq<u8>, offset: int) -> bool {
        &&& data.subrange(offset, offset + 32) == self.address@
        &&& data.subrange(offset + 32, offset + 34) == le_bytes(self.allocation_bps as nat, 2)
        &&& data.subrange(offset + 34, offset + 66) == self.label@
    }

    /// Bytes that grow at their end still hold the value.
    pub proof fn stays_stored(&self, before: Seq<u8>, after: Seq<u8>, offset: int)
        requires
            self.stored_at(before, offset),
            0 <= offset,
            offset + 66 <= before.len() <= after.len(),
            after.subrange(0, before.len() as int) == before,
        ensures
            self.stored_at(after, offset),
    {
        keeps_subrange(before, after, offset, offset + 32);
        keeps_subrange(before, after, offset + 32, offset + 34);
        keeps_subrange(before, after, offset + 34, offset + 66);
    }

    /// The bytes hold one value at most.
    pub proof fn is_read_back(&self, written: RevenueDestination, data: Seq<u8>, offset: int)
        requires
            self.stored_at(data, offset),
            written.stored_at(data, offset),
        ensures
            *self == written,
    {
        same_array(self.address, written.address);
        le_is_injective(self.allocation_bps as nat, written.allocation_bps as nat, 2);
        same_array(self.label, written.label);
    }
}

/// Appends the bytes of all destinations.
fn append_destinations(data: &mut Vec<u8>, destinations: &[RevenueDestination; 10])
    ensures
        final(data)@.len() == old(data)@.len() + 660,
        final(data)@.subrange(0, old(data)@.len() as int) == old(data)@,
        forall|i: int|
            0 <= i < 10 ==> (#[trigger] destinations[i]).stored_at(
                final(data)@,
                old(data)@.len() + 66 * i,
            ),
{
    let ghost start = data@;
    assert(start.subrange(0, start.len() as int) =~= start);
    let mut i: usize = 0;
    while i < 10
        invariant
            i <= 10,
            data@.len() == start.len() + 66 * i,
            data@.subrange(0, start.len() as int) == start,
            forall|k: int|
                0 <= k < i ==> (#[trigger] destinations[k]).stored_at(data@, start.len() + 66 * k),
        decreases 10 - i,
    {
        let ghost before = data@;
        append_bytes(data, destinations[i].address.as_slice());
        append_le(data, destinations[i].allocation_bps as u128, 2);
        append_bytes(data, destinations[i].label.as_slice());
        proof {
            let at = start.len() + 66 * i;
            let one = destinations[i as int];
            le_width(one.allocation_bps as nat, 2);
            assert(data@.subrange(at, at + 32) =~= one.address@);
            assert(data@.subrange(at + 32, at + 34) =~= le_bytes(one.allocation_bps as nat, 2));
            assert(data@.subrange(at + 34, at + 66) =~= one.label@);
            assert(data@.subrange(0, before.len() as int) =~= before);
            assert(data@.subrange(0, start.len() as int) =~= start) by {
                keeps_subrange(before, data@, 0, start.len() as int);
            }
            assert forall|k: int| 0 <= k < i implies (#[trigger] destinations[k]).stored_at(
                data@,
                start.len() + 66 * k,
            ) by {
                destinations[k].stays_stored(before, data@, start.len() + 66 * k);
            }
        }
        i += 1;
    }
}

/// Reads all destinations.
fn read_destinations(data: &Vec<u8>, offset: usize) -> (destinations: [RevenueDestination; 10])
    requires
        offset + 660 <= data@.len(),
    ensures
        forall|i: int|
            0 <= i < 10 ==> (#[trigger] destinations[i]).stored_at(data@, offset + 66 * i),
{
    let len: usize = data.len();
    let mut destinations: [RevenueDestination; 10] = [RevenueDestination::zeroed();10];
    let mut i: usize = 0;
    while i < 10
        invariant
            i <= 10,
            offset + 660 <= len == data@.len(),
            forall|k: int|
                0 <= k < i ==> (#[trigger] destinations[k]).stored_at(data@, offset + 66 * k),
        decreases 10 - i,
    {
        let at: usize = offset + 66 * i;
        let address = read_address(data, at);
        let allocation_bps: u16 = read_u16(data, at + 32);
        let label = read_address(data, at + 34);
        destinations[i] = RevenueDestination { address, allocation_bps, label };
        proof {
            le_round_trip_back(data@.subrange(at + 32, at + 34));
        }
        i += 1;
    }
    destinations
}

/// Bytes that grow at their end keep what they held.
proof fn keeps_subrange(before: Seq<u8>, after: Seq<u8>, from: int, to: int)
    requires
        0 <= from <= to <= before.len() <= after.len(),
        after.subrange(0, before.len() as int) == before,
    ensures
        after.subrange(from, to) == before.subrange(from, to),
{
    assert forall|j: int| 0 <= j < to - from implies after.subrange(from, to)[j]
        == before.subrange(from, to)[j] by {
        assert(after.subrange(0, before.len() as int)[from + j] == before[from + j]);
    }
    assert(after.subrange(from, to) =~= before.subrange(from, to));
}

impl OtConfig {
    /// The marker of the account: the first eight bytes of the SHA-256 hash of
    /// `"account:OtConfig"`.
    pub open spec fn spec_marker() -> [u8; 8] {
        [92u8, 167u8, 89u8, 62u8, 214u8, 181u8, 14u8, 221u8]
    }

    /// The marker of the account.
    #[verifier::when_used_as_spec(spec_marker)]
    pub fn marker() -> (marker: [u8; 8])
        ensures
            marker == Self::marker(),
    {
        [92u8, 167u8, 89u8, 62u8, 214u8, 181u8, 14u8, 221u8]
    }

    /// Whether an account of the program holds this value behind the marker.
    pub open spec fn kept_in(&self, account: AccountInfo, program_id: Address) -> bool {
        account.holds(program_id, Self::marker()) && self.stored_in(account.data@.skip(8))
    }

    /// Whether an account can be loaded: it is the program's, carries the marker and can be read.
    pub open spec fn loadable(account: AccountInfo, program_id: Address) -> bool {
        account.holds(program_id, Self::marker()) && Self::readable_from(account.data@.skip(8))
    }

    /// Loads the value that an account of the program holds.
    pub fn load(account: &AccountInfo, program_id: &Address) -> (r: Result<OtConfig, ProgramError>)
        ensures
            match r {
                Ok(value) => Self::loadable(*account, *program_id) && value.kept_in(
                    *account,
                    *program_id,
                ),
                Err(e) => e == ProgramError::InvalidAccountData && !Self::loadable(
                    *account,
                    *program_id,
                ),
            },
    {
        let marker = Self::marker();
        match account.fields(program_id, &marker) {
            Err(e) => Err(e),
            Ok(fields) => Self::decode(&fields),
        }
    }

    /// Whether the first [`Self::SIZE`] bytes of `data` hold this value.
    pub open spec fn stored_in(&self, data: Seq<u8>) -> bool {
        &&& data.len() >= 284
        &&& data.subrange(0, 32) == self.ot_mint@
        &&& data.subrange(32, 64) == self.name@
        &&& data.subrange(64, 74) == self.symbol@
        &&& data.subrange(74, 75) == seq![self.decimals]
        &&& data.subrange(75, 83) == le_bytes(self.total_minted as nat, 8)
        &&& data.subrange(83, 283) == self.uri@
        &&& data.subrange(283, 284) == seq![self.bump]
    }

    /// Whether `data` can hold a value: it is long enough.
    pub open spec fn readable_from(data: Seq<u8>) -> bool {
        data.len() >= 284
    }

    /// The bytes of this value.
    pub fn encode(&self) -> (data: Vec<u8>)
        ensures
            data@.len() == Self::SIZE,
            self.stored_in(data@),
    {
        let mut data: Vec<u8> = Vec::new();
        append_bytes(&mut data, self.ot_mint.as_slice());
        append_bytes(&mut data, self.name.as_slice());
        append_bytes(&mut data, self.symbol.as_slice());
        data.push(self.decimals);
        append_le(&mut data, self.total_minted as u128, 8);
        append_bytes(&mut data, self.uri.as_slice());
        data.push(self.bump);
        proof {
            le_width(self.total_minted as nat, 8);
            assert(data@.subrange(0, 32) =~= self.ot_mint@);
            assert(data@.subrange(32, 64) =~= self.name@);
            assert(data@.subrange(64, 74) =~= self.symbol@);
            assert(data@.subrange(74, 75) =~= seq![self.decimals]);
            assert(data@.subrange(75, 83) =~= le_bytes(self.total_minted as nat, 8));
            assert(data@.subrange(83, 283) =~= self.uri@);
            assert(data@.subrange(283, 284) =~= seq![self.bump]);
        }
        data
    }

    /// Reads the value that `data` starts with.
    pub fn decode(data: &Vec<u8>) -> (r: Result<OtConfig, ProgramError>)
        ensures
            match r {
                Ok(value) => Self::readable_from(data@) && value.stored_in(data@),
                Err(e) => e == ProgramError::InvalidAccountData && !Self::readable_from(data@),
            },
    {
        if data.len() < 284 {
            return Err(ProgramError::InvalidAccountData);
        }
        let ot_mint = read_address(data, 0);
        let name = read_address(data, 32);
        let symbol = read_array_10(data, 64);
        let decimals: u8 = data[74];
        let total_minted: u64 = read_u64(data, 75);
        let uri = read_array_200(data, 83);
        let bump: u8 = data[283];
        proof {
            assert(data@.subrange(74, 75) =~= seq![decimals]);
            le_round_trip_back(data@.subrange(75, 83));
            assert(data@.subrange(283, 284) =~= seq![bump]);
        }
        Ok(OtConfig { ot_mint, name, symbol, decimals, total_minted, uri, bump })
    }
}

/// What was written is read back: the bytes can be read, and they hold no other value.
pub proof fn ot_config_is_read_back(written: OtConfig, read: OtConfig, data: Seq<u8>)
    requires
        written.stored_in(data),
        read.stored_in(data),
    ensures
        OtConfig::readable_from(data),
        read == written,
{
    same_array(read.ot_mint, written.ot_mint);
    same_array(read.name, written.name);
    same_array(read.symbol, written.symbol);
    assert(seq![read.decimals][0] == seq![written.decimals][0]);
    le_is_injective(read.total_minted as nat, written.total_minted as nat, 8);
    same_array(read.uri, written.uri);
    assert(seq![read.bump][0] == seq![written.bump][0]);
}

impl RevenueAccount {
    /// The marker of the account: the first eight bytes of the SHA-256 hash of
    /// `"account:RevenueAccount"`.
    pub open spec fn spec_marker() -> [u8; 8] {
        [141u8, 155u8, 10u8, 1u8, 24u8, 219u8, 61u8, 207u8]
    }

    /// The marker of the account.
    #[verifier::when_used_as_spec(spec_marker)]
    pub fn marker() -> (marker: [u8; 8])
        ensures
            marker == Self::marker(),
    {
        [141u8, 155u8, 10u8, 1u8, 24u8, 219u8, 61u8, 207u8]
    }

    /// Whether an account of the program holds this value behind the marker.
    pub open spec fn kept_in(&self, account: AccountInfo, program_id: Address) -> bool {
        account.holds(program_id, Self::marker()) && self.stored_in(account.data@.skip(8))
    }

    /// Whether an account can be loaded: it is the program's, carries the marker and can be read.
    pub open spec fn loadable(account: AccountInfo, program_id: Address) -> bool {
        account.holds(program_id, Self::marker()) && Self::readable_from(account.data@.skip(8))
    }

    /// Loads the value that an account of the program holds.
    pub fn load(account: &AccountInfo, program_id: &Address) -> (r: Result<
        RevenueAccount,
        ProgramError,
    >)
        ensures
            match r {
                Ok(value) => Self::loadable(*account, *program_id) && value.kept_in(
                    *account,
                    *program_id,
                ),
                Err(e) => e == ProgramError::InvalidAccountData && !Self::loadable(
                    *account,
                    *program_id,
                ),
            },
    {
        let marker = Self::marker();
        match account.fields(program_id, &marker) {
            Err(e) => Err(e),
            Ok(fields) => Self::decode(&fields),
        }
    }

    /// Whether the first [`Self::SIZE`] bytes of `data` hold this value.
    pub open spec fn stored_in(&self, data: Seq<u8>) -> bool {
        &&& data.len() >= 98
        &&& data.subrange(0, 32) == self.ot_mint@
        &&& data.subrange(32, 64) == self.revenue_token_account@
        &&& data.subrange(64, 72) == le_bytes(self.total_distributed as nat, 8)
        &&& data.subrange(72, 80) == le_bytes(self.distribution_count as nat, 8)
        &&& data.subrange(80, 88) == le_bytes(wrapped_64(self.last_distribution_ts), 8)
        &&& data.subrange(88, 96) == le_bytes(self.min_distribution_amount as nat, 8)
        &&& data.subrange(96, 97) == seq![bool_byte(self.is_distributing)]
        &&& data.subrange(97, 98) == seq![self.bump]
    }

    /// Whether `data` can hold a value: it is long enough, and a flag is zero or one.
    pub open spec fn readable_from(data: Seq<u8>) -> bool {
        data.len() >= 98 && data[96] <= 1
    }

    /// The bytes of this value.
    pub fn encode(&self) -> (data: Vec<u8>)
        ensures
            data@.len() == Self::SIZE,
            self.stored_in(data@),
    {
        let mut data: Vec<u8> = Vec::new();
        append_bytes(&mut data, self.ot_mint.as_slice());
        append_bytes(&mut data, self.revenue_token_account.as_slice());
        append_le(&mut data, self.total_distributed as u128, 8);
        append_le(&mut data, self.distribution_count as u128, 8);
        append_le(&mut data, wrap_64(self.last_distribution_ts), 8);
        append_le(&mut data, self.min_distribution_amount as u128, 8);
        data.push(byte_of(self.is_distributing));
        data.push(self.bump);
        proof {
            le_width(self.total_distributed as nat, 8);
            le_width(self.distribution_count as nat, 8);
            le_width(wrapped_64(self.last_distribution_ts), 8);
            le_width(self.min_distribution_amount as nat, 8);
            assert(data@.subrange(0, 32) =~= self.ot_mint@);
            assert(data@.subrange(32, 64) =~= self.revenue_token_account@);
            assert(data@.subrange(64, 72) =~= le_bytes(self.total_distributed as nat, 8));
            assert(data@.subrange(72, 80) =~= le_bytes(self.distribution_count as nat, 8));
            assert(data@.subrange(80, 88) =~= le_bytes(wrapped_64(self.last_distribution_ts), 8));
            assert(data@.subrange(88, 96) =~= le_bytes(self.min_distribution_amount as nat, 8));
            assert(data@.subrange(96, 97) =~= seq![bool_byte(self.is_distributing)]);
            assert(data@.subrange(97, 98) =~= seq![self.bump]);
        }
        data
    }

    /// Reads the value that `data` starts with.
    pub fn decode(data: &Vec<u8>) -> (r: Result<RevenueAccount, ProgramError>)
        ensures
            match r {
                Ok(value) => Self::readable_from(data@) && value.stored_in(data@),
                Err(e) => e == ProgramError::InvalidAccountData && !Self::readable_from(data@),
            },
    {
        if data.len() < 98 || data[96] > 1 {
            return Err(ProgramError::InvalidAccountData);
        }
        let ot_mint = read_address(data, 0);
        let revenue_token_account = read_address(data, 32);
        let total_distributed: u64 = read_u64(data, 64);
        let distribution_count: u64 = read_u64(data, 72);
        let last_distribution_ts: i64 = unwrap_64(read_u64(data, 80));
        let min_distribution_amount: u64 = read_u64(data, 88);
        let is_distributing: bool = data[96] == 1;
        let bump: u8 = data[97];
        proof {
            le_round_trip_back(data@.subrange(64, 72));
            le_round_trip_back(data@.subrange(72, 80));
            le_round_trip_back(data@.subrange(80, 88));
            le_round_trip_back(data@.subrange(88, 96));
            assert(data@.subrange(96, 97) =~= seq![bool_byte(is_distributing)]);
            assert(data@.subrange(97, 98) =~= seq![bump]);
        }
        Ok(
            RevenueAccount {
                ot_mint,
                revenue_token_account,
                total_distributed,
                distribution_count,
                last_distribution_ts,
                min_distribution_amount,
                is_distributing,
                bump,
            },
        )
    }
}

/// What was written is read back: the bytes can be read, and they hold no other value.
pub proof fn revenue_account_is_read_back(written: RevenueAccount, read: RevenueAccount, data: Seq<u8>)
    requires
        written.stored_in(data),
        read.stored_in(data),
    ensures
        RevenueAccount::readable_from(data),
        read == written,
{
    assert(data[96] == data.subrange(96, 97)[0]);
    same_array(read.ot_mint, written.ot_mint);
    same_array(read.revenue_token_account, written.revenue_token_account);
    le_is_injective(read.total_distributed as nat, written.total_distributed as nat, 8);
    le_is_injective(read.distribution_count as nat, written.distribution_count as nat, 8);
    le_is_injective(
        wrapped_64(read.last_distribution_ts),
        wrapped_64(written.last_distribution_ts),
        8,
    );
    le_is_injective(read.min_distribution_amount as nat, written.min_distribution_amount as nat, 8);
    assert(seq![bool_byte(read.is_distributing)][0] == seq![bool_byte(written.is_distributing)][0]);
    assert(seq![read.bump][0] == seq![written.bump][0]);
}

impl RevenueConfig {
    /// The marker of the account: the first eight bytes of the SHA-256 hash of
    /// `"account:RevenueConfig"`.
    pub open spec fn spec_marker() -> [u8; 8] {
        [7u8, 27u8, 216u8, 11u8, 136u8, 50u8, 125u8, 57u8]
    }

    /// The marker of the account.
    #[verifier::when_used_as_spec(spec_marker)]
    pub fn marker() -> (marker: [u8; 8])
        ensures
            marker == Self::marker(),
    {
        [7u8, 27u8, 216u8, 11u8, 136u8, 50u8, 125u8, 57u8]
    }

    /// Whether an account of the program holds this value behind the marker.
    pub open spec fn kept_in(&self, account: AccountInfo, program_id: Address) -> bool {
        account.holds(program_id, Self::marker()) && self.stored_in(account.data@.skip(8))
    }

    /// Whether an account can be loaded: it is the program's, carries the marker and can be read.
    pub open spec fn loadable(account: AccountInfo, program_id: Address) -> bool {
        account.holds(program_id, Self::marker()) && Self::readable_from(account.data@.skip(8))
    }

    /// Loads the value that an account of the program holds.
    pub fn load(account: &AccountInfo, program_id: &Address) -> (r: Result<
        RevenueConfig,
        ProgramError,
    >)
        ensures
            match r {
                Ok(value) => Self::loadable(*account, *program_id) && value.kept_in(
                    *account,
                    *program_id,
                ),
                Err(e) => e == ProgramError::InvalidAccountData && !Self::loadable(
                    *account,
                    *program_id,
                ),
            },
    {
        let marker = Self::marker();
        match account.fields(program_id, &marker) {
            Err(e) => Err(e),
            Ok(fields) => Self::decode(&fields),
        }
    }

    /// Whether the first [`Self::SIZE`] bytes of `data` hold this value.
    pub open spec fn stored_in(&self, data: Seq<u8>) -> bool {
        &&& data.len() >= 734
        &&& data.subrange(0, 32) == self.ot_mint@
        &&& forall|i: int|
            0 <= i < 10 ==> (#[trigger] self.destinations[i]).stored_at(data, 32 + 66 * i)
        &&& data.subrange(692, 693) == seq![self.active_count]
        &&& data.subrange(693, 701) == le_bytes(self.config_version as nat, 8)
        &&& data.subrange(701, 733) == self.areal_fee_destination@
        &&& data.subrange(733, 734) == seq![self.bump]
    }

    /// Whether `data` can hold a value: it is long enough.
    pub open spec fn readable_from(data: Seq<u8>) -> bool {
        data.len() >= 734
    }

    /// The bytes of this value.
    pub fn encode(&self) -> (data: Vec<u8>)
        ensures
            data@.len() == Self::SIZE,
            self.stored_in(data@),
    {
        let mut data: Vec<u8> = Vec::new();
        append_bytes(&mut data, self.ot_mint.as_slice());
        append_destinations(&mut data, &self.destinations);
        let ghost with_destinations = data@;
        data.push(self.active_count);
        append_le(&mut data, self.config_version as u128, 8);
        append_bytes(&mut data, self.areal_fee_destination.as_slice());
        data.push(self.bump);
        proof {
            le_width(self.config_version as nat, 8);
            assert(data@.subrange(0, 32) =~= self.ot_mint@);
            assert(data@.subrange(0, 692) =~= with_destinations);
            assert forall|i: int| 0 <= i < 10 implies (#[trigger] self.destinations[i]).stored_at(
                data@,
                32 + 66 * i,
            ) by {
                self.destinations[i].stays_stored(with_destinations, data@, 32 + 66 * i);
            }
            assert(data@.subrange(692, 693) =~= seq![self.active_count]);
            assert(data@.subrange(693, 701) =~= le_bytes(self.config_version as nat, 8));
            assert(data@.subrange(701, 733) =~= self.areal_fee_destination@);
            assert(data@.subrange(733, 734) =~= seq![self.bump]);
        }
        data
    }

    /// Reads the value that `data` starts with.
    pub fn decode(data: &Vec<u8>) -> (r: Result<RevenueConfig, ProgramError>)
        ensures
            match r {
                Ok(value) => Self::readable_from(data@) && value.stored_in(data@),
                Err(e) => e == ProgramError::InvalidAccountData && !Self::readable_from(data@),
            },
    {
        if data.len() < 734 {
            return Err(ProgramError::InvalidAccountData);
        }
        let ot_mint = read_address(data, 0);
        let destinations = read_destinations(data, 32);
        let active_count: u8 = data[692];
        let config_version: u64 = read_u64(data, 693);
        let areal_fee_destination = read_address(data, 701);
        let bump: u8 = data[733];
        proof {
            assert(data@.subrange(692, 693) =~= seq![active_count]);
            le_round_trip_back(data@.subrange(693, 701));
            assert(data@.subrange(733, 734) =~= seq![bump]);
        }
        Ok(
            RevenueConfig {
                ot_mint,
                destinations,
                active_count,
                config_version,
                areal_fee_destination,
                bump,
            },
        )
    }
}

/// What was written is read back: the bytes can be read, and they hold no other value.
pub proof fn revenue_config_is_read_back(written: RevenueConfig, read: RevenueConfig, data: Seq<u8>)
    requires
        written.stored_in(data),
        read.stored_in(data),
    ensures
        RevenueConfig::readable_from(data),
        read == written,
{
    same_array(read.ot_mint, written.ot_mint);
    assert forall|i: int| 0 <= i < 10 implies #[trigger] read.destinations[i] == written.destinations[i] by {
        read.destinations[i].is_read_back(written.destinations[i], data, 32 + 66 * i);
    }
    assert(read.destinations =~= written.destinations);
    assert(seq![read.active_count][0] == seq![written.active_count][0]);
    le_is_injective(read.config_version as nat, written.config_version as nat, 8);
    same_array(read.areal_fee_destination, written.areal_fee_destination);
    assert(seq![read.bump][0] == seq![written.bump][0]);
}

impl OtGovernance {
    /// The marker of the account: the first eight bytes of the SHA-256 hash of
    /// `"account:OtGovernance"`.
    pub open spec fn spec_marker() -> [u8; 8] {
        [224u8, 100u8, 229u8, 211u8, 21u8, 216u8, 234u8, 52u8]
    }

    /// The marker of the account.
    #[verifier::when_used_as_spec(spec_marker)]
    pub fn marker() -> (marker: [u8; 8])
        ensures
            marker == Self::marker(),
    {
        [224u8, 100u8, 229u8, 211u8, 21u8, 216u8, 234u8, 52u8]
    }

    /// Whether an account of the program holds this value behind the marker.
    pub open spec fn kept_in(&self, account: AccountInfo, program_id: Address) -> bool {
        account.holds(program_id, Self::marker()) && self.stored_in(account.data@.skip(8))
    }

    /// Whether an account can be loaded: it is the program's, carries the marker and can be read.
    pub open spec fn loadable(account: AccountInfo, program_id: Address) -> bool {
        account.holds(program_id, Self::marker()) && Self::readable_from(account.data@.skip(8))
    }

    /// Loads the value that an account of the program holds.
    pub fn load(account: &AccountInfo, program_id: &Address) -> (r: Result<
        OtGovernance,
        ProgramError,
    >)
        ensures
            match r {
                Ok(value) => Self::loadable(*account, *program_id) && value.kept_in(
                    *account,
                    *program_id,
                ),
                Err(e) => e == ProgramError::InvalidAccountData && !Self::loadable(
                    *account,
                    *program_id,
                ),
            },
    {
        let marker = Self::marker();
        match account.fields(program_id, &marker) {
            Err(e) => Err(e),
            Ok(fields) => Self::decode(&fields),
        }
    }

    /// Whether the first [`Self::SIZE`] bytes of `data` hold this value.
    pub open spec fn stored_in(&self, data: Seq<u8>) -> bool {
        &&& data.len() >= 99
        &&& data.subrange(0, 32) == self.ot_mint@
        &&& data.subrange(32, 64) == self.authority@
        &&& data.subrange(64, 96) == self.pending_authority@
        &&& data.subrange(96, 97) == seq![bool_byte(self.has_pending)]
        &&& data.subrange(97, 98) == seq![bool_byte(self.is_active)]
        &&& data.subrange(98, 99) == seq![self.bump]
    }

    /// Whether `data` can hold a value: it is long enough, and a flag is zero or one.
    pub open spec fn readable_from(data: Seq<u8>) -> bool {
        data.len() >= 99 && data[96] <= 1 && data[97] <= 1
    }

    /// The bytes of this value.
    pub fn encode(&self) -> (data: Vec<u8>)
        ensures
            data@.len() == Self::SIZE,
            self.stored_in(data@),
    {
        let mut data: Vec<u8> = Vec::new();
        append_bytes(&mut data, self.ot_mint.as_slice());
        append_bytes(&mut data, self.authority.as_slice());
        append_bytes(&mut data, self.pending_authority.as_slice());
        data.push(byte_of(self.has_pending));
        data.push(byte_of(self.is_active));
        data.push(self.bump);
        proof {
            assert(data@.subrange(0, 32) =~= self.ot_mint@);
            assert(data@.subrange(32, 64) =~= self.authority@);
            assert(data@.subrange(64, 96) =~= self.pending_authority@);
            assert(data@.subrange(96, 97) =~= seq![bool_byte(self.has_pending)]);
            assert(data@.subrange(97, 98) =~= seq![bool_byte(self.is_active)]);
            assert(data@.subrange(98, 99) =~= seq![self.bump]);
        }
        data
    }

    /// Reads the value that `data` starts with.
    pub fn decode(data: &Vec<u8>) -> (r: Result<OtGovernance, ProgramError>)
        ensures
            match r {
                Ok(value) => Self::readable_from(data@) && value.stored_in(data@),
                Err(e) => e == ProgramError::InvalidAccountData && !Self::readable_from(data@),
            },
    {
        if data.len() < 99 || data[96] > 1 || data[97] > 1 {
            return Err(ProgramError::InvalidAccountData);
        }
        let ot_mint = read_address(data, 0);
        let authority = read_address(data, 32);
        let pending_authority = read_address(data, 64);
        let has_pending: bool = data[96] == 1;
        let is_active: bool = data[97] == 1;
        let bump: u8 = data[98];
        proof {
            assert(data@.subrange(96, 97) =~= seq![bool_byte(has_pending)]);
            assert(data@.subrange(97, 98) =~= seq![bool_byte(is_active)]);
            assert(data@.subrange(98, 99) =~= seq![bump]);
        }
        Ok(OtGovernance { ot_mint, authority, pending_authority, has_pending, is_active, bump })
    }
}

/// What was written is read back: the bytes can be read, and they hold no other value.
pub proof fn ot_governance_is_read_back(written: OtGovernance, read: OtGovernance, data: Seq<u8>)
    requires
        written.stored_in(data),
        read.stored_in(data),
    ensures
        OtGovernance::readable_from(data),
        read == written,
{
    assert(data[96] == data.subrange(96, 97)[0]);
    assert(data[97] == data.subrange(97, 98)[0]);
    same_array(read.ot_mint, written.ot_mint);
    same_array(read.authority, written.authority);
    same_array(read.pending_authority, written.pending_authority);
    assert(seq![bool_byte(read.has_pending)][0] == seq![bool_byte(written.has_pending)][0]);
    assert(seq![bool_byte(read.is_active)][0] == seq![bool_byte(written.is_active)][0]);
    assert(seq![read.bump][0] == seq![written.bump][0]);
}

impl OtTreasury {
    /// The marker of the account: the first eight bytes of the SHA-256 hash of
    /// `"account:OtTreasury"`.
    pub open spec fn spec_marker() -> [u8; 8] {
        [245u8, 145u8, 2u8, 50u8, 107u8, 135u8, 154u8, 61u8]
    }

    /// The marker of the account.
    #[verifier::when_used_as_spec(spec_marker)]
    pub fn marker() -> (marker: [u8; 8])
        ensures
            marker == Self::marker(),
    {
        [245u8, 145u8, 2u8, 50u8, 107u8, 135u8, 154u8, 61u8]
    }

    /// Whether an account of the program holds this value behind the marker.
    pub open spec fn kept_in(&self, account: AccountInfo, program_id: Address) -> bool {
        account.holds(program_id, Self::marker()) && self.stored_in(account.data@.skip(8))
    }

    /// Whether an account can be loaded: it is the program's, carries the marker and can be read.
    pub open spec fn loadable(account: AccountInfo, program_id: Address) -> bool {
        account.holds(program_id, Self::marker()) && Self::readable_from(account.data@.skip(8))
    }

    /// Loads the value that an account of the program holds.
    pub fn load(account: &AccountInfo, program_id: &Address) -> (r: Result<
        OtTreasury,
        ProgramError,
    >)
        ensures
            match r {
                Ok(value) => Self::loadable(*account, *program_id) && value.kept_in(
                    *account,
                    *program_id,
                ),
                Err(e) => e == ProgramError::InvalidAccountData && !Self::loadable(
                    *account,
                    *program_id,
                ),
            },
    {
        let marker = Self::marker();
        match account.fields(program_id, &marker) {
            Err(e) => Err(e),
            Ok(fields) => Self::decode(&fields),
        }
    }

    /// Whether the first [`Self::SIZE`] bytes of `data` hold this value.
    pub open spec fn stored_in(&self, data: Seq<u8>) -> bool {
        &&& data.len() >= 33
        &&& data.subrange(0, 32) == self.ot_mint@
        &&& data.subrange(32, 33) == seq![self.bump]
    }

    /// Whether `data` can hold a value: it is long enough.
    pub open spec fn readable_from(data: Seq<u8>) -> bool {
        data.len() >= 33
    }

    /// The bytes of this value.
    pub fn encode(&self) -> (data: Vec<u8>)
        ensures
            data@.len() == Self::SIZE,
            self.stored_in(data@),
    {
        let mut data: Vec<u8> = Vec::new();
        append_bytes(&mut data, self.ot_mint.as_slice());
        data.push(self.bump);
        proof {
            assert(data@.subrange(0, 32) =~= self.ot_mint@);
            assert(data@.subrange(32, 33) =~= seq![self.bump]);
        }
        data
    }

    /// Reads the value that `data` starts with.
    pub fn decode(data: &Vec<u8>) -> (r: Result<OtTreasury, ProgramError>)
        ensures
            match r {
                Ok(value) => Self::readable_from(data@) && value.stored_in(data@),
                Err(e) => e == ProgramError::InvalidAccountData && !Self::readable_from(data@),
            },
    {
        if data.len() < 33 {
            return Err(ProgramError::InvalidAccountData);
        }
        let ot_mint = read_address(data, 0);
        let bump: u8 = data[32];
        proof {
            assert(data@.subrange(32, 33) =~= seq![bump]);
        }
        Ok(OtTreasury { ot_mint, bump })
    }
}

/// What was written is read back: the bytes can be read, and they hold no other value.
pub proof fn ot_treasury_is_read_back(written: OtTreasury, read: OtTreasury, data: Seq<u8>)
    requires
        written.stored_in(data),
        read.stored_in(data),
    ensures
        OtTreasury::readable_from(data),
        read == written,
{
    same_array(read.ot_mint, written.ot_mint);
    assert(seq![read.bump][0] == seq![written.bump][0]);
}

} // verus!
