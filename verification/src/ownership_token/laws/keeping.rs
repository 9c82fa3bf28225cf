//! How the ownership token's accounts are kept in bytes.
use vstd::prelude::*;

use crate::bytes::{address_at, le_bytes};
use crate::error::ProgramError;
use crate::laws::{address_is_its_bytes, flag, number_is_its_bytes, turned_64};
use crate::ownership_token::state::{
    BatchDestination, OtConfig, OtGovernance, OtTreasury, RevenueAccount, RevenueConfig,
};

verus! {

/// An `OtConfig` lies in its account in 284 bytes: its fields in their order, one behind the other.
pub proof fn ot_config_lies_in_order(value: OtConfig, data: Seq<u8>)
    requires
        value.stored_in(data),
    ensures
        data.len() >= 284,
        data.take(284) == value.ot_mint@
            + value.name@
            + value.symbol@
            + seq![value.decimals]
            + le_bytes(value.total_minted as nat, 8)
            + value.uri@
            + seq![value.bump],
{
    assert(data.subrange(0, 64) =~= data.subrange(0, 32) + data.subrange(32, 64));
    assert(data.subrange(0, 74) =~= data.subrange(0, 64) + data.subrange(64, 74));
    assert(data.subrange(0, 75) =~= data.subrange(0, 74) + data.subrange(74, 75));
    assert(data.subrange(0, 83) =~= data.subrange(0, 75) + data.subrange(75, 83));
    assert(data.subrange(0, 283) =~= data.subrange(0, 83) + data.subrange(83, 283));
    assert(data.subrange(0, 284) =~= data.subrange(0, 283) + data.subrange(283, 284));
    assert(data.take(284) =~= data.subrange(0, 284));
}

/// A `RevenueAccount` lies in its account in 98 bytes: its fields in their order, one behind the
/// other.
pub proof fn revenue_account_lies_in_order(value: RevenueAccount, data: Seq<u8>)
    requires
        value.stored_in(data),
    ensures
        data.len() >= 98,
        data.take(98) == value.ot_mint@
            + value.revenue_token_account@
            + le_bytes(value.total_distributed as nat, 8)
            + le_bytes(value.distribution_count as nat, 8)
            + le_bytes(turned_64(value.last_distribution_ts), 8)
            + le_bytes(value.min_distribution_amount as nat, 8)
            + flag(value.is_distributing)
            + seq![value.bump],
{
    assert(data.subrange(0, 64) =~= data.subrange(0, 32) + data.subrange(32, 64));
    assert(data.subrange(0, 72) =~= data.subrange(0, 64) + data.subrange(64, 72));
    assert(data.subrange(0, 80) =~= data.subrange(0, 72) + data.subrange(72, 80));
    assert(data.subrange(0, 88) =~= data.subrange(0, 80) + data.subrange(80, 88));
    assert(data.subrange(0, 96) =~= data.subrange(0, 88) + data.subrange(88, 96));
    assert(data.subrange(0, 97) =~= data.subrange(0, 96) + data.subrange(96, 97));
    assert(data.subrange(0, 98) =~= data.subrange(0, 97) + data.subrange(97, 98));
    assert(data.take(98) =~= data.subrange(0, 98));
}

/// An `OtGovernance` lies in its account in 99 bytes: its fields in their order, one behind the
/// other.
pub proof fn ot_governance_lies_in_order(value: OtGovernance, data: Seq<u8>)
    requires
        value.stored_in(data),
    ensures
        data.len() >= 99,
        data.take(99) == value.ot_mint@
            + value.authority@
            + value.pending_authority@
            + flag(value.has_pending)
            + flag(value.is_active)
            + seq![value.bump],
{
    assert(data.subrange(0, 64) =~= data.subrange(0, 32) + data.subrange(32, 64));
    assert(data.subrange(0, 96) =~= data.subrange(0, 64) + data.subrange(64, 96));
    assert(data.subrange(0, 97) =~= data.subrange(0, 96) + data.subrange(96, 97));
    assert(data.subrange(0, 98) =~= data.subrange(0, 97) + data.subrange(97, 98));
    assert(data.subrange(0, 99) =~= data.subrange(0, 98) + data.subrange(98, 99));
    assert(data.take(99) =~= data.subrange(0, 99));
}

/// An `OtTreasury` lies in its account in 33 bytes: its fields in their order, one behind the other.
pub proof fn ot_treasury_lies_in_order(value: OtTreasury, data: Seq<u8>)
    requires
        value.stored_in(data),
    ensures
        data.len() >= 33,
        data.take(33) == value.ot_mint@
            + seq![value.bump],
{
    assert(data.subrange(0, 33) =~= data.subrange(0, 32) + data.subrange(32, 33));
    assert(data.take(33) =~= data.subrange(0, 33));
}

/// The revenue configuration lies in its account in 734 bytes: the token, ten destinations of 66
/// bytes each, which are an address, a number of two bytes and a label, the count, the version, the
/// fee account and the bump.
pub proof fn revenue_config_lies_in_order(value: RevenueConfig, data: Seq<u8>, k: int)
    requires
        value.stored_in(data),
        0 <= k < 10,
    ensures
        data.len() >= 734,
        data.take(32) == value.ot_mint@,
        data.subrange(32 + 66 * k, 98 + 66 * k) == value.destinations[k].address@ + le_bytes(
            value.destinations[k].allocation_bps as nat,
            2,
        ) + value.destinations[k].label@,
        data.subrange(692, 734) == seq![value.active_count] + le_bytes(
            value.config_version as nat,
            8,
        ) + value.areal_fee_destination@ + seq![value.bump],
{
    assert(data.take(32) =~= data.subrange(0, 32));
    let at = 32 + 66 * k;
    assert(value.destinations[k].stored_at(data, at));
    assert(data.subrange(at, at + 34) =~= data.subrange(at, at + 32) + data.subrange(
        at + 32,
        at + 34,
    ));
    assert(data.subrange(at, at + 66) =~= data.subrange(at, at + 34) + data.subrange(
        at + 34,
        at + 66,
    ));
    assert(data.subrange(692, 701) =~= data.subrange(692, 693) + data.subrange(693, 701));
    assert(data.subrange(692, 733) =~= data.subrange(692, 701) + data.subrange(701, 733));
    assert(data.subrange(692, 734) =~= data.subrange(692, 733) + data.subrange(733, 734));
}

/// A destination that an instruction names takes 66 bytes: its address, its part in two bytes, its
/// label. Fewer bytes name none.
pub proof fn named_destination_lies_in_order(data: Seq<u8>, offset: int)
    requires
        0 <= offset,
    ensures
        ({
            let r = BatchDestination::at(data, offset);
            &&& r is Ok <==> offset + 66 <= data.len()
            &&& r is Err ==> r == Err::<BatchDestination, ProgramError>(
                ProgramError::InvalidInstructionData,
            )
            &&& r matches Ok(d) ==> {
                &&& d.address@ == data.subrange(offset, offset + 32)
                &&& d.allocation_bps == data[offset + 32] + 256 * data[offset + 33]
                &&& d.label@ == data.subrange(offset + 34, offset + 66)
            }
        }),
{
    if offset + 66 <= data.len() {
        address_is_its_bytes(data, offset, address_at(data, offset));
        address_is_its_bytes(data, offset + 34, address_at(data, offset + 34));
        number_is_its_bytes(data, offset + 32);
    }
}

} // verus!
