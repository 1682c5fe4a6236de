//! Fixed-width fields in a byte record: addresses of 32 bytes and unsigned
//! integers stored least significant byte first.

use vstd::prelude::*;

verus! {

/// A 32-byte ledger address.
pub type Pubkey = [u8; 32];

/// The address of all zero bytes, which stands for "no address".
pub open spec fn zero_key() -> Seq<u8> {
    Seq::new(32, |i: int| 0u8)
}

/// The number that two bytes spell, least significant byte first.
pub open spec fn le_u16(b: Seq<u8>) -> int {
    b[0] + 0x100 * b[1]
}

/// The number that eight bytes spell, least significant byte first.
pub open spec fn le_u64(b: Seq<u8>) -> int {
    b[0] + 0x100 * b[1] + 0x1_0000 * b[2] + 0x100_0000 * b[3] + 0x1_0000_0000 * b[4]
        + 0x100_0000_0000 * b[5] + 0x1_0000_0000_0000 * b[6] + 0x100_0000_0000_0000 * b[7]
}

/// Whether two addresses hold the same bytes.
pub fn pubkey_eq(a: &Pubkey, b: &Pubkey) -> (same: bool)
    ensures
        same == (a@ == b@),
{
    let mut i: usize = 0;
    while i < 32
        invariant
            i <= 32,
            forall|j: int| 0 <= j < i ==> a@[j] == b@[j],
        decreases 32 - i,
    {
        if a[i] != b[i] {
            return false;
        }
        i += 1;
    }
    assert(a@ =~= b@);
    true
}

/// Whether an address is all zero bytes.
pub fn pubkey_is_zero(a: &Pubkey) -> (zero: bool)
    ensures
        zero == (a@ == zero_key()),
{
    let mut i: usize = 0;
    while i < 32
        invariant
            i <= 32,
            forall|j: int| 0 <= j < i ==> a@[j] == 0u8,
        decreases 32 - i,
    {
        if a[i] != 0 {
            assert(zero_key()[i as int] == 0u8);
            return false;
        }
        i += 1;
    }
    assert(a@ =~= zero_key());
    true
}

/// The address stored in the 32 bytes of `data` that start at `at`.
pub fn read_pubkey(data: &[u8], at: usize) -> (key: Pubkey)
    requires
        at + 32 <= data@.len(),
    ensures
        key@ == data@.subrange(at as int, at + 32),
{
    let len: usize = data.len();
    let mut key: Pubkey = [0u8; 32];
    let mut i: usize = 0;
    while i < 32
        invariant
            i <= 32,
            at + 32 <= data@.len() == len,
            forall|j: int| 0 <= j < i ==> key@[j] == data@[at + j],
        decreases 32 - i,
    {
        key[i] = data[at + i];
        i += 1;
    }
    assert(key@ =~= data@.subrange(at as int, at + 32));
    key
}

/// Stores `key` in the 32 bytes of `data` that start at `at`.
pub fn write_pubkey(data: &mut Vec<u8>, at: usize, key: &Pubkey)
    requires
        at + 32 <= old(data)@.len(),
    ensures
        final(data)@.len() == old(data)@.len(),
        final(data)@.subrange(at as int, at + 32) == key@,
        forall|j: int|
            0 <= j < old(data)@.len() && !(at <= j < at + 32) ==> final(data)@[j] == old(data)@[j],
{
    let len: usize = data.len();
    let mut i: usize = 0;
    while i < 32
        invariant
            i <= 32,
            data@.len() == old(data)@.len() == len,
            at + 32 <= data@.len(),
            forall|j: int| 0 <= j < i ==> data@[at + j] == key@[j],
            forall|j: int|
                0 <= j < data@.len() && !(at <= j < at + 32) ==> data@[j] == old(data)@[j],
        decreases 32 - i,
    {
        data[at + i] = key[i];
        i += 1;
    }
    assert(data@.subrange(at as int, at + 32) =~= key@);
}

/// The 16-bit number stored in the two bytes of `data` that start at `at`.
pub fn read_u16_le(data: &[u8], at: usize) -> (value: u16)
    requires
        at + 2 <= data@.len(),
    ensures
        value == le_u16(data@.subrange(at as int, at + 2)),
{
    let len: usize = data.len();
    let lo: u16 = data[at] as u16;
    let hi: u16 = data[at + 1] as u16;
    lo + 0x100 * hi
}

/// Stores `value` in the two bytes of `data` that start at `at`.
pub fn write_u16_le(data: &mut Vec<u8>, at: usize, value: u16)
    requires
        at + 2 <= old(data)@.len(),
    ensures
        final(data)@.len() == old(data)@.len(),
        le_u16(final(data)@.subrange(at as int, at + 2)) == value,
        forall|j: int|
            0 <= j < old(data)@.len() && !(at <= j < at + 2) ==> final(data)@[j] == old(data)@[j],
{
    let len: usize = data.len();
    let next: usize = at + 1;
    data[at] = (value % 0x100) as u8;
    data[next] = (value / 0x100) as u8;
}

/// The 64-bit number stored in the eight bytes of `data` that start at `at`.
pub fn read_u64_le(data: &[u8], at: usize) -> (value: u64)
    requires
        at + 8 <= data@.len(),
    ensures
        value == le_u64(data@.subrange(at as int, at + 8)),
{
    let len: usize = data.len();
    let b0: u64 = data[at] as u64;
    let b1: u64 = data[at + 1] as u64;
    let b2: u64 = data[at + 2] as u64;
    let b3: u64 = data[at + 3] as u64;
    let b4: u64 = data[at + 4] as u64;
    let b5: u64 = data[at + 5] as u64;
    let b6: u64 = data[at + 6] as u64;
    let b7: u64 = data[at + 7] as u64;
    b0 + 0x100 * b1 + 0x1_0000 * b2 + 0x100_0000 * b3 + 0x1_0000_0000 * b4 + 0x100_0000_0000 * b5
        + 0x1_0000_0000_0000 * b6 + 0x100_0000_0000_0000 * b7
}

} // verus!
