//! The seeds of derived addresses, and the seed lists with which the programs sign.
use vstd::prelude::*;

use crate::address::Address;

verus! {

/// `"pool"`: the seed of a pool.
pub open spec fn spec_pool_seed() -> [u8; 4] {
    [112u8, 111u8, 111u8, 108u8]
}

/// `"pool"`: the seed of a pool.
#[verifier::when_used_as_spec(spec_pool_seed)]
pub fn pool_seed() -> (seed: [u8; 4])
    ensures
        seed == pool_seed(),
{
    [112u8, 111u8, 111u8, 108u8]
}

/// `"lp"`: the seed of a liquidity position.
pub open spec fn spec_lp_seed() -> [u8; 2] {
    [108u8, 112u8]
}

/// `"lp"`: the seed of a liquidity position.
#[verifier::when_used_as_spec(spec_lp_seed)]
pub fn lp_seed() -> (seed: [u8; 2])
    ensures
        seed == lp_seed(),
{
    [108u8, 112u8]
}

/// `"bins"`: the seed of a pool's price bins.
pub open spec fn spec_bins_seed() -> [u8; 4] {
    [98u8, 105u8, 110u8, 115u8]
}

/// `"bins"`: the seed of a pool's price bins.
#[verifier::when_used_as_spec(spec_bins_seed)]
pub fn bins_seed() -> (seed: [u8; 4])
    ensures
        seed == bins_seed(),
{
    [98u8, 105u8, 110u8, 115u8]
}

/// `"dex_config"`: the seed of the exchange's configuration.
pub open spec fn spec_dex_config_seed() -> [u8; 10] {
    [100u8, 101u8, 120u8, 95u8, 99u8, 111u8, 110u8, 102u8, 105u8, 103u8]
}

/// `"dex_config"`: the seed of the exchange's configuration.
#[verifier::when_used_as_spec(spec_dex_config_seed)]
pub fn dex_config_seed() -> (seed: [u8; 10])
    ensures
        seed == dex_config_seed(),
{
    [100u8, 101u8, 120u8, 95u8, 99u8, 111u8, 110u8, 102u8, 105u8, 103u8]
}

/// `"pool_creators"`: the seed of the creator whitelist.
pub open spec fn spec_pool_creators_seed() -> [u8; 13] {
    [112u8, 111u8, 111u8, 108u8, 95u8, 99u8, 114u8, 101u8, 97u8, 116u8, 111u8, 114u8, 115u8]
}

/// `"pool_creators"`: the seed of the creator whitelist.
#[verifier::when_used_as_spec(spec_pool_creators_seed)]
pub fn pool_creators_seed() -> (seed: [u8; 13])
    ensures
        seed == pool_creators_seed(),
{
    [112u8, 111u8, 111u8, 108u8, 95u8, 99u8, 114u8, 101u8, 97u8, 116u8, 111u8, 114u8, 115u8]
}

/// `"liquidity_nexus"`: the seed of the nexus.
pub open spec fn spec_liquidity_nexus_seed() -> [u8; 15] {
    [108u8, 105u8, 113u8, 117u8, 105u8, 100u8, 105u8, 116u8, 121u8, 95u8, 110u8, 101u8, 120u8, 117u8, 115u8]
}

/// `"liquidity_nexus"`: the seed of the nexus.
#[verifier::when_used_as_spec(spec_liquidity_nexus_seed)]
pub fn liquidity_nexus_seed() -> (seed: [u8; 15])
    ensures
        seed == liquidity_nexus_seed(),
{
    [108u8, 105u8, 113u8, 117u8, 105u8, 100u8, 105u8, 116u8, 121u8, 95u8, 110u8, 101u8, 120u8, 117u8, 115u8]
}

/// `"liq_holding"`: the seed of the yield program's holding account.
pub open spec fn spec_liq_holding_seed() -> [u8; 11] {
    [108u8, 105u8, 113u8, 95u8, 104u8, 111u8, 108u8, 100u8, 105u8, 110u8, 103u8]
}

/// `"liq_holding"`: the seed of the yield program's holding account.
#[verifier::when_used_as_spec(spec_liq_holding_seed)]
pub fn liq_holding_seed() -> (seed: [u8; 11])
    ensures
        seed == liq_holding_seed(),
{
    [108u8, 105u8, 113u8, 95u8, 104u8, 111u8, 108u8, 100u8, 105u8, 110u8, 103u8]
}

/// `"ot_treasury"`: the seed of an ownership token's treasury.
pub open spec fn spec_ot_treasury_seed() -> [u8; 11] {
    [111u8, 116u8, 95u8, 116u8, 114u8, 101u8, 97u8, 115u8, 117u8, 114u8, 121u8]
}

/// `"ot_treasury"`: the seed of an ownership token's treasury.
#[verifier::when_used_as_spec(spec_ot_treasury_seed)]
pub fn ot_treasury_seed() -> (seed: [u8; 11])
    ensures
        seed == ot_treasury_seed(),
{
    [111u8, 116u8, 95u8, 116u8, 114u8, 101u8, 97u8, 115u8, 117u8, 114u8, 121u8]
}

/// `"ot_config"`: the seed of an ownership token's configuration.
pub open spec fn spec_ot_config_seed() -> [u8; 9] {
    [111u8, 116u8, 95u8, 99u8, 111u8, 110u8, 102u8, 105u8, 103u8]
}

/// `"ot_config"`: the seed of an ownership token's configuration.
#[verifier::when_used_as_spec(spec_ot_config_seed)]
pub fn ot_config_seed() -> (seed: [u8; 9])
    ensures
        seed == ot_config_seed(),
{
    [111u8, 116u8, 95u8, 99u8, 111u8, 110u8, 102u8, 105u8, 103u8]
}

/// `"revenue"`: the seed of an ownership token's revenue account.
pub open spec fn spec_revenue_seed() -> [u8; 7] {
    [114u8, 101u8, 118u8, 101u8, 110u8, 117u8, 101u8]
}

/// `"revenue"`: the seed of an ownership token's revenue account.
#[verifier::when_used_as_spec(spec_revenue_seed)]
pub fn revenue_seed() -> (seed: [u8; 7])
    ensures
        seed == revenue_seed(),
{
    [114u8, 101u8, 118u8, 101u8, 110u8, 117u8, 101u8]
}

/// `"revenue_config"`: the seed of an ownership token's revenue configuration.
pub open spec fn spec_revenue_config_seed() -> [u8; 14] {
    [114u8, 101u8, 118u8, 101u8, 110u8, 117u8, 101u8, 95u8, 99u8, 111u8, 110u8, 102u8, 105u8, 103u8]
}

/// `"revenue_config"`: the seed of an ownership token's revenue configuration.
#[verifier::when_used_as_spec(spec_revenue_config_seed)]
pub fn revenue_config_seed() -> (seed: [u8; 14])
    ensures
        seed == revenue_config_seed(),
{
    [114u8, 101u8, 118u8, 101u8, 110u8, 117u8, 101u8, 95u8, 99u8, 111u8, 110u8, 102u8, 105u8, 103u8]
}

/// `"ot_governance"`: the seed of an ownership token's governance.
pub open spec fn spec_ot_governance_seed() -> [u8; 13] {
    [111u8, 116u8, 95u8, 103u8, 111u8, 118u8, 101u8, 114u8, 110u8, 97u8, 110u8, 99u8, 101u8]
}

/// `"ot_governance"`: the seed of an ownership token's governance.
#[verifier::when_used_as_spec(spec_ot_governance_seed)]
pub fn ot_governance_seed() -> (seed: [u8; 13])
    ensures
        seed == ot_governance_seed(),
{
    [111u8, 116u8, 95u8, 103u8, 111u8, 118u8, 101u8, 114u8, 110u8, 97u8, 110u8, 99u8, 101u8]
}

/// Whose signature a program call carries.
#[derive(Clone, Copy, Debug, PartialEq, Eq)]
pub enum SignedBy {
    /// Signatures of the transaction itself; no seeds are presented.
    Transaction,
    /// The pool of the two mints.
    Pool { token_a_mint: Address, token_b_mint: Address, bump: u8 },
    /// The nexus.
    Nexus { bump: u8 },
    /// A position that is being created.
    Position { pool: Address, provider: Address, bump: u8 },
    /// Price bins that are being created.
    Bins { pool: Address, bump: u8 },
    /// An ownership token's revenue account.
    Revenue { ot_mint: Address, bump: u8 },
    /// An ownership token's configuration.
    OtConfig { ot_mint: Address, bump: u8 },
    /// An ownership token's treasury.
    OtTreasury { ot_mint: Address, bump: u8 },
}

impl SignedBy {
    /// The seed list presented for the signature, bump included; empty for the transaction.
    pub open spec fn seed_list(&self) -> Seq<Seq<u8>> {
        match *self {
            SignedBy::Transaction => seq![],
            SignedBy::Pool { token_a_mint, token_b_mint, bump } => seq![
                pool_seed()@,
                token_a_mint@,
                token_b_mint@,
                seq![bump],
            ],
            SignedBy::Nexus { bump } => seq![liquidity_nexus_seed()@, seq![bump]],
            SignedBy::Position { pool, provider, bump } => seq![
                lp_seed()@,
                pool@,
                provider@,
                seq![bump],
            ],
            SignedBy::Bins { pool, bump } => seq![bins_seed()@, pool@, seq![bump]],
            SignedBy::Revenue { ot_mint, bump } => seq![revenue_seed()@, ot_mint@, seq![bump]],
            SignedBy::OtConfig { ot_mint, bump } => seq![ot_config_seed()@, ot_mint@, seq![bump]],
            SignedBy::OtTreasury { ot_mint, bump } => seq![
                ot_treasury_seed()@,
                ot_mint@,
                seq![bump],
            ],
        }
    }

    /// Whether the transaction's own signatures are meant.
    pub fn is_transaction(&self) -> (yes: bool)
        ensures
            yes == (*self is Transaction),
    {
        match self {
            SignedBy::Transaction => true,
            _ => false,
        }
    }

    /// The seed list presented for the signature, bump included; empty for the transaction.
    pub fn seeds(&self) -> (list: Vec<Vec<u8>>)
        ensures
            list@.len() == self.seed_list().len(),
            forall|i: int| 0 <= i < list@.len() ==> #[trigger] list@[i]@ == self.seed_list()[i],
    {
        let mut list: Vec<Vec<u8>> = Vec::new();
        match self {
            SignedBy::Transaction => {},
            SignedBy::Pool { token_a_mint, token_b_mint, bump } => {
                list.push(copy_of(pool_seed().as_slice()));
                list.push(copy_of(token_a_mint.as_slice()));
                list.push(copy_of(token_b_mint.as_slice()));
                list.push(one_byte(*bump));
            },
            SignedBy::Nexus { bump } => {
                list.push(copy_of(liquidity_nexus_seed().as_slice()));
                list.push(one_byte(*bump));
            },
            SignedBy::Position { pool, provider, bump } => {
                list.push(copy_of(lp_seed().as_slice()));
                list.push(copy_of(pool.as_slice()));
                list.push(copy_of(provider.as_slice()));
                list.push(one_byte(*bump));
            },
            SignedBy::Bins { pool, bump } => {
                list.push(copy_of(bins_seed().as_slice()));
                list.push(copy_of(pool.as_slice()));
                list.push(one_byte(*bump));
            },
            SignedBy::Revenue { ot_mint, bump } => {
                list.push(copy_of(revenue_seed().as_slice()));
                list.push(copy_of(ot_mint.as_slice()));
                list.push(one_byte(*bump));
            },
            SignedBy::OtConfig { ot_mint, bump } => {
                list.push(copy_of(ot_config_seed().as_slice()));
                list.push(copy_of(ot_mint.as_slice()));
                list.push(one_byte(*bump));
            },
            SignedBy::OtTreasury { ot_mint, bump } => {
                list.push(copy_of(ot_treasury_seed().as_slice()));
                list.push(copy_of(ot_mint.as_slice()));
                list.push(one_byte(*bump));
            },
        }
        list
    }
}

/// The bytes of `bytes` in a vector.
pub fn copy_of(bytes: &[u8]) -> (copy: Vec<u8>)
    ensures
        copy@ == bytes@,
{
    let mut copy: Vec<u8> = Vec::new();
    let mut i: usize = 0;
    while i < bytes.len()
        invariant
            i <= bytes@.len(),
            copy@ == bytes@.take(i as int),
        decreases bytes@.len() - i,
    {
        copy.push(bytes[i]);
        i += 1;
        assert(bytes@.take(i as int) =~= bytes@.take(i - 1).push(bytes@[i - 1]));
    }
    assert(bytes@.take(i as int) =~= bytes@);
    copy
}

/// A vector of one byte.
fn one_byte(byte: u8) -> (v: Vec<u8>)
    ensures
        v@ == seq![byte],
{
    let mut v: Vec<u8> = Vec::new();
    v.push(byte);
    assert(v@ =~= seq![byte]);
    v
}

} // verus!
