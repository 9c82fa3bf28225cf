//! Little-endian numbers and addresses inside account data.
use vstd::prelude::*;

use crate::address::Address;

verus! {

/// The number that `bytes` stand for, least significant byte first.
pub open spec fn le_value(bytes: Seq<u8>) -> nat
    decreases bytes.len(),
{
    if bytes.len() == 0 {
        0
    } else {
        bytes[0] as nat + 256 * le_value(bytes.skip(1))
    }
}

/// The address whose 32 bytes start at `offset`.
pub open spec fn address_at(data: Seq<u8>, offset: int) -> Address {
    choose|a: Address| a@ == data.subrange(offset, offset + 32)
}

/// The number in the eight bytes that start at `offset`.
pub open spec fn u64_at(data: Seq<u8>, offset: int) -> u64 {
    le_value(data.subrange(offset, offset + 8)) as u64
}

/// The number in the four bytes that start at `offset`.
pub open spec fn u32_at(data: Seq<u8>, offset: int) -> u32 {
    le_value(data.subrange(offset, offset + 4)) as u32
}

/// The number in the two bytes that start at `offset`.
pub open spec fn u16_at(data: Seq<u8>, offset: int) -> u16 {
    le_value(data.subrange(offset, offset + 2)) as u16
}

/// Reads the address at `offset`.
pub fn read_address(data: &Vec<u8>, offset: usize) -> (a: Address)
    requires
        offset + 32 <= data@.len(),
    ensures
        a@ == data@.subrange(offset as int, offset + 32),
        a == address_at(data@, offset as int),
{
    let mut out = [0u8; 32];
    let len: usize = data.len();
    let mut i: usize = 0;
    while i < 32
        invariant
            i <= 32,
            offset + 32 <= len == data@.len(),
            forall|j: int| 0 <= j < i ==> out[j] == data@[offset + j],
        decreases 32 - i,
    {
        out[i] = data[offset + i];
        i += 1;
    }
    assert(out@ =~= data@.subrange(offset as int, offset + 32));
    let ghost picked = address_at(data@, offset as int);
    assert(picked@ == out@);
    assert(forall|j: int| 0 <= j < 32 ==> picked[j] == out[j]) by {
        assert forall|j: int| 0 <= j < 32 implies picked[j] == out[j] by {
            assert(picked@[j] == out@[j]);
        }
    }
    assert(picked =~= out);
    out
}

/// A number of `n` bytes is below `256` to the power of `n`.
pub proof fn le_value_bound(bytes: Seq<u8>)
    ensures
        bytes.len() <= 2 ==> le_value(bytes) <= u16::MAX,
        bytes.len() <= 4 ==> le_value(bytes) <= u32::MAX,
        bytes.len() <= 8 ==> le_value(bytes) <= u64::MAX,
        bytes.len() <= 16 ==> le_value(bytes) <= u128::MAX,
    decreases bytes.len(),
{
    reveal_with_fuel(le_value, 18);
    if bytes.len() > 0 {
        le_value_bound(bytes.skip(1));
    }
}

/// Reads the eight-byte number at `offset`.
pub fn read_u64(data: &Vec<u8>, offset: usize) -> (n: u64)
    requires
        offset + 8 <= data@.len(),
    ensures
        n == u64_at(data@, offset as int),
        n == le_value(data@.subrange(offset as int, offset + 8)),
{
    let n = read_le(data, offset, 8);
    proof {
        le_value_bound(data@.subrange(offset as int, offset + 8));
    }
    n as u64
}

/// Reads the four-byte number at `offset`.
pub fn read_u32(data: &Vec<u8>, offset: usize) -> (n: u32)
    requires
        offset + 4 <= data@.len(),
    ensures
        n == u32_at(data@, offset as int),
        n == le_value(data@.subrange(offset as int, offset + 4)),
{
    let n = read_le(data, offset, 4);
    proof {
        le_value_bound(data@.subrange(offset as int, offset + 4));
    }
    n as u32
}

/// Reads the two-byte number at `offset`.
pub fn read_u16(data: &Vec<u8>, offset: usize) -> (n: u16)
    requires
        offset + 2 <= data@.len(),
    ensures
        n == u16_at(data@, offset as int),
        n == le_value(data@.subrange(offset as int, offset + 2)),
{
    let n = read_le(data, offset, 2);
    proof {
        le_value_bound(data@.subrange(offset as int, offset + 2));
    }
    n as u16
}

/// Reads the number in the `width` bytes at `offset`.
pub fn read_le(data: &Vec<u8>, offset: usize, width: usize) -> (n: u128)
    requires
        width <= 16,
        offset + width <= data@.len(),
    ensures
        n == le_value(data@.subrange(offset as int, offset + width)),
{
    let mut n: u128 = 0;
    let len: usize = data.len();
    let mut i: usize = width;
    assert(data@.subrange(offset + width, offset + width) =~= Seq::<u8>::empty());
    while i > 0
        invariant
            i <= width <= 16,
            offset + width <= len == data@.len(),
            n == le_value(data@.subrange(offset + i, offset + width)),
        decreases i,
    {
        let ghost tail = data@.subrange(offset + i, offset + width);
        i -= 1;
        let ghost whole = data@.subrange(offset + i, offset + width);
        proof {
            assert(whole.skip(1) =~= tail);
            assert(le_value(whole) == whole[0] as nat + 256 * le_value(tail));
            le_value_bound(whole);
        }
        n = 256 * n + data[offset + i] as u128;
    }
    n
}

/// The first number that `width` bytes cannot hold.
pub open spec fn le_limit(width: nat) -> nat
    decreases width,
{
    if width == 0 {
        1
    } else {
        256 * le_limit((width - 1) as nat)
    }
}

/// The low `width` bytes of `n`, least significant byte first.
pub open spec fn le_bytes(n: nat, width: nat) -> Seq<u8>
    decreases width,
{
    if width == 0 {
        Seq::empty()
    } else {
        seq![(n % 256) as u8] + le_bytes(n / 256, (width - 1) as nat)
    }
}

/// A number takes as many bytes as are asked for.
pub proof fn le_width(n: nat, width: nat)
    ensures
        le_bytes(n, width).len() == width,
    decreases width,
{
    if width > 0 {
        le_width(n / 256, (width - 1) as nat);
    }
}

/// Writing a number into bytes that can hold it and reading it back gives the number.
pub proof fn le_round_trip(n: nat, width: nat)
    requires
        n < le_limit(width),
    ensures
        le_value(le_bytes(n, width)) == n,
    decreases width,
{
    if width > 0 {
        let rest = le_bytes(n / 256, (width - 1) as nat);
        le_round_trip(n / 256, (width - 1) as nat);
        assert(le_bytes(n, width).skip(1) =~= rest);
    }
}

/// Reading a number and writing it into as many bytes gives the bytes.
pub proof fn le_round_trip_back(bytes: Seq<u8>)
    ensures
        le_value(bytes) < le_limit(bytes.len()),
        le_bytes(le_value(bytes), bytes.len()) == bytes,
    decreases bytes.len(),
{
    if bytes.len() > 0 {
        let rest = bytes.skip(1);
        le_round_trip_back(rest);
        assert(le_bytes(le_value(bytes), bytes.len()) =~= seq![bytes[0]] + rest);
        assert(seq![bytes[0]] + rest =~= bytes);
    } else {
        assert(le_bytes(le_value(bytes), bytes.len()) =~= bytes);
    }
}

/// Appends the low `width` bytes of `value`, least significant byte first.
pub fn append_le(out: &mut Vec<u8>, value: u128, width: usize)
    ensures
        final(out)@ == old(out)@ + le_bytes(value as nat, width as nat),
{
    let ghost before = out@;
    let mut rest: u128 = value;
    let mut i: usize = 0;
    assert(before + le_bytes(value as nat, width as nat) =~= out@ + le_bytes(
        rest as nat,
        (width - i) as nat,
    ));
    while i < width
        invariant
            i <= width,
            before + le_bytes(value as nat, width as nat) == out@ + le_bytes(
                rest as nat,
                (width - i) as nat,
            ),
        decreases width - i,
    {
        let ghost tail = le_bytes(rest as nat / 256, (width - i - 1) as nat);
        let ghost so_far = out@;
        let byte: u8 = (rest % 256) as u8;
        out.push(byte);
        assert(so_far + (seq![byte] + tail) =~= out@ + tail);
        rest = rest / 256;
        i += 1;
    }
    assert(out@ + le_bytes(rest as nat, 0) =~= out@);
}

/// Appends the bytes of `bytes`.
pub fn append_bytes(out: &mut Vec<u8>, bytes: &[u8])
    ensures
        final(out)@ == old(out)@ + bytes@,
{
    let ghost before = out@;
    let mut i: usize = 0;
    assert(before + bytes@.take(0) =~= before);
    while i < bytes.len()
        invariant
            i <= bytes@.len(),
            out@ == before + bytes@.take(i as int),
        decreases bytes@.len() - i,
    {
        let ghost so_far = out@;
        out.push(bytes[i]);
        i += 1;
        assert(bytes@.take(i as int) =~= bytes@.take(i - 1).push(bytes@[i - 1]));
        assert(out@ =~= before + bytes@.take(i as int));
    }
    assert(bytes@.take(i as int) =~= bytes@);
}

/// Bytes that can hold two numbers tell them apart.
pub proof fn le_is_injective(a: nat, b: nat, width: nat)
    requires
        le_bytes(a, width) == le_bytes(b, width),
        width == 2 || width == 4 || width == 8 || width == 16,
        width == 2 ==> a <= u16::MAX && b <= u16::MAX,
        width == 4 ==> a <= u32::MAX && b <= u32::MAX,
        width == 8 ==> a <= u64::MAX && b <= u64::MAX,
        width == 16 ==> a <= u128::MAX && b <= u128::MAX,
    ensures
        a == b,
{
    reveal_with_fuel(le_limit, 17);
    le_round_trip(a, width);
    le_round_trip(b, width);
}

/// Arrays with the same bytes are the same.
pub proof fn same_array<const N: usize>(a: [u8; N], b: [u8; N])
    requires
        a@ == b@,
    ensures
        a == b,
{
    assert forall|i: int| 0 <= i < N implies a[i] == b[i] by {
        assert(a@[i] == b@[i]);
    }
    assert(a =~= b);
}

/// The byte of a flag.
pub open spec fn bool_byte(flag: bool) -> u8 {
    if flag {
        1
    } else {
        0
    }
}

/// The byte of a flag.
pub fn byte_of(flag: bool) -> (byte: u8)
    ensures
        byte == bool_byte(flag),
{
    if flag {
        1
    } else {
        0
    }
}

/// The two's complement of a 32-bit number.
pub open spec fn wrapped_32(n: i32) -> nat {
    if n >= 0 {
        n as nat
    } else {
        (n + 0x1_0000_0000) as nat
    }
}

/// The two's complement of a 64-bit number.
pub open spec fn wrapped_64(n: i64) -> nat {
    if n >= 0 {
        n as nat
    } else {
        (n + 0x1_0000_0000_0000_0000) as nat
    }
}

/// The two's complement of a 32-bit number.
pub fn wrap_32(n: i32) -> (w: u128)
    ensures
        w == wrapped_32(n),
{
    if n >= 0 {
        n as u128
    } else {
        (n as i64 + 0x1_0000_0000) as u128
    }
}

/// The two's complement of a 64-bit number.
pub fn wrap_64(n: i64) -> (w: u128)
    ensures
        w == wrapped_64(n),
{
    if n >= 0 {
        n as u128
    } else {
        (n as i128 + 0x1_0000_0000_0000_0000) as u128
    }
}

/// The 32-bit number of a two's complement.
pub fn unwrap_32(w: u32) -> (n: i32)
    ensures
        wrapped_32(n) == w,
{
    if w <= 0x7fff_ffff {
        w as i32
    } else {
        (w as i64 - 0x1_0000_0000) as i32
    }
}

/// The 64-bit number of a two's complement.
pub fn unwrap_64(w: u64) -> (n: i64)
    ensures
        wrapped_64(n) == w,
{
    if w <= 0x7fff_ffff_ffff_ffff {
        w as i64
    } else {
        (w as i128 - 0x1_0000_0000_0000_0000) as i64
    }
}

/// Reads two bytes.
pub fn read_array_2(data: &Vec<u8>, offset: usize) -> (a: [u8; 2])
    requires
        offset + 2 <= data@.len(),
    ensures
        a@ == data@.subrange(offset as int, offset + 2),
{
    let len: usize = data.len();
    assert(offset + 2 <= len);
    let a: [u8; 2] = [data[offset], data[offset + 1]];
    assert(a@ =~= data@.subrange(offset as int, offset + 2));
    a
}

/// Reads ten bytes.
pub fn read_array_10(data: &Vec<u8>, offset: usize) -> (a: [u8; 10])
    requires
        offset + 10 <= data@.len(),
    ensures
        a@ == data@.subrange(offset as int, offset + 10),
{
    let len: usize = data.len();
    let mut a: [u8; 10] = [0u8;10];
    let mut i: usize = 0;
    while i < 10
        invariant
            i <= 10,
            offset + 10 <= len == data@.len(),
            forall|j: int| 0 <= j < i ==> a[j] == data@[offset + j],
        decreases 10 - i,
    {
        a[i] = data[offset + i];
        i += 1;
    }
    assert(a@ =~= data@.subrange(offset as int, offset + 10));
    a
}

/// Reads two hundred bytes.
pub fn read_array_200(data: &Vec<u8>, offset: usize) -> (a: [u8; 200])
    requires
        offset + 200 <= data@.len(),
    ensures
        a@ == data@.subrange(offset as int, offset + 200),
{
    let len: usize = data.len();
    let mut a: [u8; 200] = [0u8;200];
    let mut i: usize = 0;
    while i < 200
        invariant
            i <= 200,
            offset + 200 <= len == data@.len(),
            forall|j: int| 0 <= j < i ==> a[j] == data@[offset + j],
        decreases 200 - i,
    {
        a[i] = data[offset + i];
        i += 1;
    }
    assert(a@ =~= data@.subrange(offset as int, offset + 200));
    a
}

/// Appends ten addresses.
pub fn append_addresses(data: &mut Vec<u8>, addresses: &[[u8; 32]; 10])
    ensures
        final(data)@.len() == old(data)@.len() + 320,
        final(data)@.subrange(0, old(data)@.len() as int) == old(data)@,
        forall|i: int|
            0 <= i < 10 ==> final(data)@.subrange(
                old(data)@.len() + 32 * i,
                old(data)@.len() + 32 * i + 32,
            ) == (#[trigger] addresses[i])@,
{
    let ghost start = data@;
    assert(start.subrange(0, start.len() as int) =~= start);
    let mut i: usize = 0;
    while i < 10
        invariant
            i <= 10,
            data@.len() == start.len() + 32 * i,
            data@.subrange(0, start.len() as int) == start,
            forall|k: int|
                0 <= k < i ==> data@.subrange(start.len() + 32 * k, start.len() + 32 * k + 32) == (
                #[trigger] addresses[k])@,
        decreases 10 - i,
    {
        let ghost before = data@;
        append_bytes(data, addresses[i].as_slice());
        proof {
            let at = start.len() + 32 * i;
            assert(data@.subrange(at, at + 32) =~= addresses[i as int]@);
            assert(data@.subrange(0, start.len() as int) =~= before.subrange(
                0,
                start.len() as int,
            ));
            assert forall|k: int| 0 <= k < i implies data@.subrange(
                start.len() + 32 * k,
                start.len() + 32 * k + 32,
            ) == (#[trigger] addresses[k])@ by {
                let from = start.len() + 32 * k;
                assert(data@.subrange(from, from + 32) =~= before.subrange(from, from + 32));
            }
        }
        i += 1;
    }
}

/// Reads ten addresses.
pub fn read_addresses(data: &Vec<u8>, offset: usize) -> (addresses: [[u8; 32]; 10])
    requires
        offset + 320 <= data@.len(),
    ensures
        forall|i: int|
            0 <= i < 10 ==> data@.subrange(offset + 32 * i, offset + 32 * i + 32) == (
            #[trigger] addresses[i])@,
{
    let len: usize = data.len();
    let zero = [0u8;32];
    let mut addresses: [[u8; 32]; 10] = [zero;10];
    let mut i: usize = 0;
    while i < 10
        invariant
            i <= 10,
            offset + 320 <= len == data@.len(),
            forall|k: int|
                0 <= k < i ==> data@.subrange(offset + 32 * k, offset + 32 * k + 32) == (
                #[trigger] addresses[k])@,
        decreases 10 - i,
    {
        addresses[i] = read_address(data, offset + 32 * i);
        i += 1;
    }
    addresses
}

} // verus!
