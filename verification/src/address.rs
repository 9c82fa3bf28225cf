//! Account addresses and program-derived addresses.
use vstd::prelude::*;

verus! {

/// A 32-byte account address.
pub type Address = [u8; 32];

/// The all-zero address.
pub open spec fn spec_zero_address() -> Address {
    vstd::array::spec_array_fill_for_copy_type::<u8, 32>(0u8)
}

/// The all-zero address.
#[verifier::when_used_as_spec(spec_zero_address)]
pub fn zero_address() -> (zero: Address)
    ensures
        zero == zero_address(),
{
    [0u8; 32]
}

/// Whether two addresses are the same 32 bytes.
pub fn address_eq(a: &Address, b: &Address) -> (same: bool)
    ensures
        same == (*a == *b),
{
    let mut i: usize = 0;
    while i < 32
        invariant
            i <= 32,
            forall|j: int| 0 <= j < i ==> a[j] == b[j],
        decreases 32 - i,
    {
        if a[i] != b[i] {
            return false;
        }
        i += 1;
    }
    assert(*a =~= *b);
    true
}

/// Whether an address is all zero bytes.
pub fn is_zero_address(a: &Address) -> (zero: bool)
    ensures
        zero == (*a == zero_address()),
{
    let zero = zero_address();
    address_eq(a, &zero)
}

/// Whether `a` comes before `b` in the order of their bytes: the first byte in which they differ
/// is smaller in `a`.
pub open spec fn address_before(a: Address, b: Address) -> bool {
    exists|k: int|
        0 <= k < 32 && #[trigger] a[k] < b[k] && forall|j: int| 0 <= j < k ==> a[j] == b[j]
}

/// Whether `a` comes before `b` in the order of their bytes.
pub fn address_lt(a: &Address, b: &Address) -> (before: bool)
    ensures
        before == address_before(*a, *b),
{
    let mut i: usize = 0;
    while i < 32
        invariant
            i <= 32,
            forall|j: int| 0 <= j < i ==> a[j] == b[j],
        decreases 32 - i,
    {
        if a[i] < b[i] {
            assert(a[i as int] < b[i as int]);
            return true;
        }
        if a[i] > b[i] {
            return false;
        }
        i += 1;
    }
    false
}

/// Byte order on addresses is total: of two different addresses one comes first, and not both.
pub proof fn address_order_is_total(a: Address, b: Address)
    ensures
        a != b ==> address_before(a, b) != address_before(b, a),
        !address_before(a, a),
{
    if a != b {
        assert(exists|i: int| 0 <= i < 32 && a[i] != b[i]) by {
            if forall|i: int| 0 <= i < 32 ==> a[i] == b[i] {
                assert(a =~= b);
            }
        }
        let k = first_difference(a, b, 0);
        if a[k] < b[k] {
            assert(address_before(a, b));
        } else {
            assert(address_before(b, a));
        }
    }
}

/// The first index at or after `from` where `a` and `b` differ.
proof fn first_difference(a: Address, b: Address, from: int) -> (k: int)
    requires
        0 <= from <= 32,
        exists|i: int| from <= i < 32 && a[i] != b[i],
    ensures
        from <= k < 32,
        a[k] != b[k],
        forall|j: int| from <= j < k ==> a[j] == b[j],
    decreases 32 - from,
{
    if a[from] != b[from] {
        from
    } else {
        first_difference(a, b, from + 1)
    }
}

/// The bytes of each seed, in order.
pub open spec fn seed_bytes(seeds: Seq<&[u8]>) -> Seq<Seq<u8>> {
    seeds.map_values(|s: &[u8]| s@)
}

/// The address and bump seed that the chain derives from `seeds` under `program_id`, where one
/// exists.
pub uninterp spec fn derived_address(seeds: Seq<Seq<u8>>, program_id: Seq<u8>) -> Option<(Address, u8)>;

/// Calls `Address::try_find_program_address`, which hashes the seeds with a bump byte counted
/// down from 255 to 1 and returns the first hash that is off the curve and its bump byte, or
/// nothing where no bump byte gives one or the seeds are too many or too long. Claimed of it: the
/// result depends on the seeds' bytes and the program id alone.
#[verifier::external_body]
pub(crate) fn find_program_address(seeds: &[&[u8]], program_id: &Address) -> (found: Option<
    (Address, u8),
>)
    ensures
        found == derived_address(seed_bytes(seeds@), program_id@),
{
    pinocchio::Address::try_find_program_address(
        seeds,
        &pinocchio::Address::new_from_array(*program_id),
    ).map(|(address, bump)| (address.to_bytes(), bump))
}

/// The address derived from one seed.
pub fn find_address_1(seed: &[u8], program_id: &Address) -> (found: Option<(Address, u8)>)
    ensures
        found == derived_address(seq![seed@], program_id@),
{
    let seeds: [&[u8]; 1] = [seed];
    assert(seed_bytes(seeds@) =~= seq![seed@]);
    find_program_address(seeds.as_slice(), program_id)
}

/// The address derived from two seeds.
pub fn find_address_2(first: &[u8], second: &[u8], program_id: &Address) -> (found: Option<
    (Address, u8),
>)
    ensures
        found == derived_address(seq![first@, second@], program_id@),
{
    let seeds: [&[u8]; 2] = [first, second];
    assert(seed_bytes(seeds@) =~= seq![first@, second@]);
    find_program_address(seeds.as_slice(), program_id)
}

/// The address derived from three seeds.
pub fn find_address_3(
    first: &[u8],
    second: &[u8],
    third: &[u8],
    program_id: &Address,
) -> (found: Option<(Address, u8)>)
    ensures
        found == derived_address(seq![first@, second@, third@], program_id@),
{
    let seeds: [&[u8]; 3] = [first, second, third];
    assert(seed_bytes(seeds@) =~= seq![first@, second@, third@]);
    find_program_address(seeds.as_slice(), program_id)
}

} // verus!
