//! What holds of the data and the signatures that both programs share.
use vstd::prelude::*;

use crate::account::AccountInfo;
use crate::address::{address_before, derived_address, Address};
use crate::bytes::{
    address_at, le_bytes, le_limit, le_round_trip, le_value, le_value_bound, le_width, same_array,
    u16_at, u32_at, u64_at,
};
use crate::calls::{is_claim_call, proof_bytes, Instruction, YdClaim};
use crate::error::ProgramError;
use crate::programs::spl_token_program;
use crate::seeds::{
    bins_seed, dex_config_seed, liq_holding_seed, liquidity_nexus_seed, lp_seed, ot_config_seed,
    ot_governance_seed, ot_treasury_seed, pool_creators_seed, pool_seed, revenue_config_seed,
    revenue_seed, SignedBy,
};

verus! {

/// The byte of a flag: one where it is set.
pub open spec fn flag(set: bool) -> Seq<u8> {
    if set {
        seq![1u8]
    } else {
        seq![0u8]
    }
}

/// A number of four bytes in two's complement.
pub open spec fn turned_32(n: i32) -> nat {
    (if n < 0 {
        n + 0x1_0000_0000
    } else {
        n as int
    }) as nat
}

/// A number of eight bytes in two's complement.
pub open spec fn turned_64(n: i64) -> nat {
    (if n < 0 {
        n + 0x1_0000_0000_0000_0000
    } else {
        n as int
    }) as nat
}

/// Whether an account signs and can be changed.
pub open spec fn signs_and_changes(account: AccountInfo) -> bool {
    account.is_signer && account.is_writable
}

/// Whether an account is a token account that can be changed.
pub open spec fn holds_tokens(account: AccountInfo) -> bool {
    account.is_writable && account.owner == spl_token_program()
}

/// Whether `address` is the one that was derived.
pub open spec fn sits_at(address: Address, derived: Option<(Address, u8)>) -> bool {
    derived is Some && address == (derived->0).0
}

/// An address stands in data as its 32 bytes.
pub proof fn address_is_its_bytes(data: Seq<u8>, offset: int, address: Address)
    requires
        0 <= offset <= data.len() - 32,
    ensures
        address_at(data, offset)@ == data.subrange(offset, offset + 32),
        (address_at(data, offset) == address) <==> data.subrange(offset, offset + 32) == address@,
{
    let bytes: Address = [
        data[offset], data[offset + 1], data[offset + 2], data[offset + 3],
        data[offset + 4], data[offset + 5], data[offset + 6], data[offset + 7],
        data[offset + 8], data[offset + 9], data[offset + 10], data[offset + 11],
        data[offset + 12], data[offset + 13], data[offset + 14], data[offset + 15],
        data[offset + 16], data[offset + 17], data[offset + 18], data[offset + 19],
        data[offset + 20], data[offset + 21], data[offset + 22], data[offset + 23],
        data[offset + 24], data[offset + 25], data[offset + 26], data[offset + 27],
        data[offset + 28], data[offset + 29], data[offset + 30], data[offset + 31],
    ];
    assert(bytes@ =~= data.subrange(offset, offset + 32));
    if address_at(data, offset)@ == address@ {
        same_array(address_at(data, offset), address);
    }
}

/// A number stands in data with its least significant byte first.
pub proof fn number_is_its_bytes(data: Seq<u8>, offset: int)
    requires
        0 <= offset <= data.len() - 8,
    ensures
        u16_at(data, offset) == data[offset] + 256 * data[offset + 1],
        u32_at(data, offset) == u16_at(data, offset) + 0x1_0000 * u16_at(data, offset + 2),
        u64_at(data, offset) == u32_at(data, offset) + 0x1_0000_0000 * u32_at(data, offset + 4),
{
    let b = data.subrange(offset, offset + 8);
    two_bytes(data, offset);
    two_bytes(data, offset + 2);
    two_bytes(data, offset + 4);
    two_bytes(data, offset + 6);
    four_bytes(data, offset);
    four_bytes(data, offset + 4);
    le_value_bound(b);
    reveal_with_fuel(le_value, 9);
    assert(b.skip(1).skip(1).skip(1).skip(1) =~= data.subrange(offset + 4, offset + 8));
    assert(data.subrange(offset, offset + 4) =~= b.take(4));
}

/// The number in two bytes.
proof fn two_bytes(data: Seq<u8>, offset: int)
    requires
        0 <= offset <= data.len() - 2,
    ensures
        u16_at(data, offset) == data[offset] + 256 * data[offset + 1],
{
    let b = data.subrange(offset, offset + 2);
    reveal_with_fuel(le_value, 3);
    le_value_bound(b);
    assert(b.skip(1).len() == 1);
    assert(b.skip(1)[0] == data[offset + 1]);
}

/// The number in four bytes.
proof fn four_bytes(data: Seq<u8>, offset: int)
    requires
        0 <= offset <= data.len() - 4,
    ensures
        u32_at(data, offset) == u16_at(data, offset) + 0x1_0000 * u16_at(data, offset + 2),
{
    let b = data.subrange(offset, offset + 4);
    two_bytes(data, offset);
    two_bytes(data, offset + 2);
    reveal_with_fuel(le_value, 5);
    le_value_bound(b);
    assert(b.skip(1)[0] == data[offset + 1]);
    assert(b.skip(1).skip(1)[0] == data[offset + 2]);
    assert(b.skip(1).skip(1).skip(1)[0] == data[offset + 3]);
    assert(b.skip(1).skip(1).skip(1).skip(1).len() == 0);
}

/// Of two addresses the one with the smaller byte at their first difference comes first, and the
/// other does not.
pub proof fn first_difference_orders(a: Address, b: Address, k: int)
    requires
        0 <= k < 32,
        forall|j: int| 0 <= j < k ==> #[trigger] a[j] == b[j],
        a[k] < b[k],
    ensures
        address_before(a, b),
        !address_before(b, a),
{
    assert(a[k] < b[k]);
    if address_before(b, a) {
        let i = choose|i: int|
            0 <= i < 32 && #[trigger] b[i] < a[i] && forall|j: int| 0 <= j < i ==> b[j] == a[j];
        assert(b[i] < a[i]);
        if i > k {
            assert(b[k] == a[k]);
        } else if i < k {
            assert(a[i] == b[i]);
        }
    }
}

/// An account holds a record of a program exactly where the program owns it and its first eight
/// bytes are the record's marker.
pub proof fn records_carry_their_marker(
    account: AccountInfo,
    program_id: Address,
    marker: [u8; 8],
)
    ensures
        account.holds(program_id, marker) <==> {
            &&& account.owner == program_id
            &&& account.data@.len() >= 8
            &&& forall|i: int| 0 <= i < 8 ==> #[trigger] account.data@[i] == marker@[i]
        },
{
    let data = account.data@;
    if data.len() >= 8 {
        if forall|i: int| 0 <= i < 8 ==> #[trigger] data[i] == marker@[i] {
            assert(data.subrange(0, 8) =~= marker@);
        } else if data.subrange(0, 8) == marker@ {
            assert forall|i: int| 0 <= i < 8 implies #[trigger] data[i] == marker@[i] by {
                assert(data.subrange(0, 8)[i] == marker@[i]);
            }
        }
    }
}

/// A token account names its token in its first 32 bytes, its holder in the next 32, and its
/// balance in the eight after those. An account that is too short for a field has none.
pub proof fn token_account_is_laid_out(account: AccountInfo)
    ensures
        ({
            let data = account.data@;
            let short = ProgramError::InvalidAccountData;
            &&& data.len() >= 32 ==> (account.token_mint() matches Ok(mint) && mint@
                == data.subrange(0, 32))
            &&& data.len() >= 64 ==> (account.token_owner() matches Ok(owner) && owner@
                == data.subrange(32, 64))
            &&& data.len() >= 72 ==> (account.token_amount() matches Ok(amount) && amount
                == le_value(data.subrange(64, 72)))
            &&& data.len() < 32 ==> account.token_mint() == Err::<Address, ProgramError>(short)
            &&& data.len() < 64 ==> account.token_owner() == Err::<Address, ProgramError>(short)
            &&& data.len() < 72 ==> account.token_amount() == Err::<u64, ProgramError>(short)
        }),
{
    let data = account.data@;
    if data.len() >= 32 {
        address_is_its_bytes(data, 0, address_at(data, 0));
    }
    if data.len() >= 64 {
        address_is_its_bytes(data, 32, address_at(data, 32));
    }
    if data.len() >= 72 {
        le_value_bound(data.subrange(64, 72));
    }
}

/// A claim of yield names ten accounts in the order of the yield program: the claimant and the
/// payer sign; the payer, the distributor, the claim's record, the reward vault and the receiving
/// account can be changed. Its data are the marker of eight bytes, the amount in eight, the number
/// of hashes in four, and the hashes in their order.
pub proof fn claim_call_is_laid_out(
    call: Instruction,
    claim: YdClaim,
    cumulative_amount: u64,
    hashes: Seq<Address>,
    k: int,
)
    requires
        is_claim_call(call, claim, cumulative_amount, hashes),
        hashes.len() <= u32::MAX,
    ensures
        ({
            let metas = call.accounts@;
            let data = call.data@;
            &&& call.program == claim.program
            &&& metas.len() == 10
            &&& metas[0].address == claim.claimant
            &&& metas[1].address == claim.payer
            &&& metas[2].address == claim.config
            &&& metas[3].address == claim.ot_mint
            &&& metas[4].address == claim.distributor
            &&& metas[5].address == claim.claim_status
            &&& metas[6].address == claim.reward_vault
            &&& metas[7].address == claim.claimant_token
            &&& metas[8].address == claim.token_program
            &&& metas[9].address == claim.system_program
            &&& forall|i: int|
                0 <= i < 10 ==> ((#[trigger] metas[i]).is_signer <==> i <= 1) && (
                metas[i].is_writable <==> i == 1 || 4 <= i <= 7)
            &&& data.len() == 20 + 32 * hashes.len()
            &&& le_value(data.subrange(8, 16)) == cumulative_amount
            &&& le_value(data.subrange(16, 20)) == hashes.len()
            &&& 0 <= k < hashes.len() ==> data.subrange(20 + 32 * k, 52 + 32 * k) == hashes[k]@
        }),
{
    let data = call.data@;
    le_width(cumulative_amount as nat, 8);
    le_width(hashes.len(), 4);
    reveal_with_fuel(le_limit, 9);
    le_round_trip(cumulative_amount as nat, 8);
    le_round_trip(hashes.len(), 4);
    hashes_lie_in_order(hashes, k);
    assert(data.subrange(8, 16) =~= le_bytes(cumulative_amount as nat, 8));
    assert(data.subrange(16, 20) =~= le_bytes(hashes.len(), 4));
    if 0 <= k < hashes.len() {
        assert(data.subrange(20 + 32 * k, 52 + 32 * k) =~= proof_bytes(hashes).subrange(
            32 * k,
            32 * k + 32,
        ));
    }
}

/// The hashes of a proof lie one behind the other.
proof fn hashes_lie_in_order(hashes: Seq<Address>, k: int)
    ensures
        proof_bytes(hashes).len() == 32 * hashes.len(),
        0 <= k < hashes.len() ==> proof_bytes(hashes).subrange(32 * k, 32 * k + 32) == hashes[k]@,
    decreases hashes.len(),
{
    if hashes.len() > 0 {
        hashes_lie_in_order(hashes.drop_last(), k);
        let before = proof_bytes(hashes.drop_last());
        let all = proof_bytes(hashes);
        if k == hashes.len() - 1 {
            assert(all.subrange(32 * k, 32 * k + 32) =~= hashes[k]@);
        } else if 0 <= k < hashes.len() {
            assert(all.subrange(32 * k, 32 * k + 32) =~= before.subrange(32 * k, 32 * k + 32));
        }
    }
}

/// Whether bytes are the letters of a name.
pub open spec fn spells(bytes: Seq<u8>, name: Seq<char>) -> bool {
    &&& bytes.len() == name.len()
    &&& forall|i: int| 0 <= i < bytes.len() ==> #[trigger] bytes[i] as char == name[i]
}

/// Every seed is the name of what it derives.
pub proof fn seeds_are_names()
    ensures
        spells(pool_seed()@, "pool"@),
        spells(lp_seed()@, "lp"@),
        spells(bins_seed()@, "bins"@),
        spells(dex_config_seed()@, "dex_config"@),
        spells(pool_creators_seed()@, "pool_creators"@),
        spells(liquidity_nexus_seed()@, "liquidity_nexus"@),
        spells(liq_holding_seed()@, "liq_holding"@),
        spells(ot_treasury_seed()@, "ot_treasury"@),
        spells(ot_config_seed()@, "ot_config"@),
        spells(revenue_seed()@, "revenue"@),
        spells(revenue_config_seed()@, "revenue_config"@),
        spells(ot_governance_seed()@, "ot_governance"@),
{
    reveal_strlit("pool");
    reveal_strlit("lp");
    reveal_strlit("bins");
    reveal_strlit("dex_config");
    reveal_strlit("pool_creators");
    reveal_strlit("liquidity_nexus");
    reveal_strlit("liq_holding");
    reveal_strlit("ot_treasury");
    reveal_strlit("ot_config");
    reveal_strlit("revenue");
    reveal_strlit("revenue_config");
    reveal_strlit("ot_governance");
}

/// A signature presents the seeds of the account that signs, and behind them the bump alone: a pool
/// its two mints in their order, a position its pool and its provider, price bins their pool, and
/// the accounts of an ownership token their mint. The transaction's own signatures present none.
pub proof fn signatures_present_their_seeds(one: Address, two: Address, bump: u8)
    ensures
        SignedBy::Transaction.seed_list() == Seq::<Seq<u8>>::empty(),
        (SignedBy::Pool { token_a_mint: one, token_b_mint: two, bump }).seed_list() == seq![
            pool_seed()@,
            one@,
            two@,
        ].push(seq![bump]),
        (SignedBy::Nexus { bump }).seed_list() == seq![liquidity_nexus_seed()@].push(seq![bump]),
        (SignedBy::Position { pool: one, provider: two, bump }).seed_list() == seq![
            lp_seed()@,
            one@,
            two@,
        ].push(seq![bump]),
        (SignedBy::Bins { pool: one, bump }).seed_list() == seq![bins_seed()@, one@].push(
            seq![bump],
        ),
        (SignedBy::Revenue { ot_mint: one, bump }).seed_list() == seq![revenue_seed()@, one@].push(
            seq![bump],
        ),
        (SignedBy::OtConfig { ot_mint: one, bump }).seed_list() == seq![
            ot_config_seed()@,
            one@,
        ].push(seq![bump]),
        (SignedBy::OtTreasury { ot_mint: one, bump }).seed_list() == seq![
            ot_treasury_seed()@,
            one@,
        ].push(seq![bump]),
{
}

/// Two of the programs' own signatures never present the same seeds unless they sign for the same
/// account: the seeds tell apart what kind of account signs, and whose it is.
pub proof fn signatures_tell_accounts_apart(one: SignedBy, other: SignedBy)
    requires
        one.seed_list() == other.seed_list(),
    ensures
        one == other,
{
    let a = one.seed_list();
    let b = other.seed_list();
    assert(a.len() == b.len());
    if a.len() > 0 {
        assert(a[0].len() == b[0].len());
        assert(a[1] == b[1]);
    }
    if a.len() > 2 {
        assert(a[2] == b[2]);
    }
    match (one, other) {
        (
            SignedBy::Pool { token_a_mint: p, token_b_mint: q, bump: m },
            SignedBy::Pool { token_a_mint: r, token_b_mint: s, bump: n },
        ) => {
            same_array(p, r);
            same_array(q, s);
            assert(a[3] == b[3]);
            same_byte(m, n);
        },
        (
            SignedBy::Position { pool: p, provider: q, bump: m },
            SignedBy::Position { pool: r, provider: s, bump: n },
        ) => {
            same_array(p, r);
            same_array(q, s);
            assert(a[3] == b[3]);
            same_byte(m, n);
        },
        (SignedBy::Nexus { bump: m }, SignedBy::Nexus { bump: n }) => {
            same_byte(m, n);
        },
        (SignedBy::Bins { pool: p, bump: m }, SignedBy::Bins { pool: r, bump: n }) => {
            same_array(p, r);
            same_byte(m, n);
        },
        (
            SignedBy::Revenue { ot_mint: p, bump: m },
            SignedBy::Revenue { ot_mint: r, bump: n },
        ) => {
            same_array(p, r);
            same_byte(m, n);
        },
        (
            SignedBy::OtConfig { ot_mint: p, bump: m },
            SignedBy::OtConfig { ot_mint: r, bump: n },
        ) => {
            same_array(p, r);
            same_byte(m, n);
        },
        (
            SignedBy::OtTreasury { ot_mint: p, bump: m },
            SignedBy::OtTreasury { ot_mint: r, bump: n },
        ) => {
            same_array(p, r);
            same_byte(m, n);
        },
        _ => {},
    }
}

/// Sequences of one byte tell their bytes apart.
proof fn same_byte(a: u8, b: u8)
    requires
        seq![a] == seq![b],
    ensures
        a == b,
{
    assert(seq![a][0] == a);
    assert(seq![b][0] == b);
}

/// An account sits at a derived address only where the seeds derive one, and then at that one.
pub proof fn derived_accounts_sit_at_one_address(
    account: AccountInfo,
    other: AccountInfo,
    first: Seq<u8>,
    second: Seq<u8>,
    program_id: Address,
)
    ensures
        account.derives_from_1(first, program_id) <==> (derived_address(
            seq![first],
            program_id@,
        ) matches Some(found) && account.address == found.0),
        account.derives_from_2(first, second, program_id) <==> (derived_address(
            seq![first, second],
            program_id@,
        ) matches Some(found) && account.address == found.0),
        account.derives_from_1(first, program_id) && other.derives_from_1(first, program_id)
            ==> account.address == other.address,
        account.derives_from_2(first, second, program_id) && other.derives_from_2(
            first,
            second,
            program_id,
        ) ==> account.address == other.address,
{
}

} // verus!
