//! Reading fixed-width fields out of a byte string.

use vstd::prelude::*;

verus! {

/// The array that holds exactly the bytes of `s`.
pub open spec fn array_of<const N: usize>(s: Seq<u8>) -> [u8; N] {
    choose|a: [u8; N]| a@ == s
}

/// An array is the array of its own bytes.
pub proof fn lemma_array_of<const N: usize>(a: [u8; N], s: Seq<u8>)
    requires
        a@ == s,
    ensures
        array_of::<N>(s) == a,
{
    let c = array_of::<N>(s);
    assert(c@ == s);
    assert(c =~= a);
}

/// The `N` bytes of `data` that start at `at`.
pub open spec fn field<const N: usize>(data: Seq<u8>, at: int) -> [u8; N] {
    array_of::<N>(data.subrange(at, at + N))
}

/// Copies the `N` bytes of `data` that start at `at`.
pub fn read_field<const N: usize>(data: &[u8], at: usize) -> (out: [u8; N])
    requires
        at + N <= data@.len(),
    ensures
        out == field::<N>(data@, at as int),
{
    let len: usize = data.len();
    let mut out = [0u8; N];
    let mut i: usize = 0;
    while i < N
        invariant
            i <= N,
            at + N <= len,
            len == data@.len(),
            forall|k: int| 0 <= k < i ==> out[k] == data@[at + k],
        decreases N - i,
    {
        out[i] = data[at + i];
        i += 1;
    }
    proof {
        assert(out@ =~= data@.subrange(at as int, at + N));
        lemma_array_of::<N>(out, data@.subrange(at as int, at + N));
    }
    out
}

/// The unsigned 16-bit number whose little-endian bytes start at `at`.
pub open spec fn le_u16(data: Seq<u8>, at: int) -> u16 {
    (data[at] + 0x100 * data[at + 1]) as u16
}

/// The unsigned 64-bit number whose little-endian bytes start at `at`.
pub open spec fn le_u64(data: Seq<u8>, at: int) -> u64 {
    (data[at] + 0x100 * data[at + 1] + 0x1_0000 * data[at + 2] + 0x100_0000 * data[at + 3]
        + 0x1_0000_0000 * data[at + 4] + 0x100_0000_0000 * data[at + 5] + 0x1_0000_0000_0000
        * data[at + 6] + 0x100_0000_0000_0000 * data[at + 7]) as u64
}

/// The signed 64-bit number whose little-endian bytes, in two's complement,
/// start at `at`.
pub open spec fn le_i64(data: Seq<u8>, at: int) -> i64 {
    if le_u64(data, at) < 0x8000_0000_0000_0000 {
        le_u64(data, at) as i64
    } else {
        (le_u64(data, at) - 0x1_0000_0000_0000_0000) as i64
    }
}

/// Reads a little-endian `u16`.
pub fn read_u16(data: &[u8], at: usize) -> (value: u16)
    requires
        at + 2 <= data@.len(),
    ensures
        value == le_u16(data@, at as int),
{
    let b0: u16 = data[at].into();
    let b1: u16 = data[at + 1].into();
    b0 + 0x100 * b1
}

/// Reads a little-endian `u64`.
pub fn read_u64(data: &[u8], at: usize) -> (value: u64)
    requires
        at + 8 <= data@.len(),
    ensures
        value == le_u64(data@, at as int),
{
    let b0: u64 = data[at].into();
    let b1: u64 = data[at + 1].into();
    let b2: u64 = data[at + 2].into();
    let b3: u64 = data[at + 3].into();
    let b4: u64 = data[at + 4].into();
    let b5: u64 = data[at + 5].into();
    let b6: u64 = data[at + 6].into();
    let b7: u64 = data[at + 7].into();
    b0 + 0x100 * b1 + 0x1_0000 * b2 + 0x100_0000 * b3 + 0x1_0000_0000 * b4 + 0x100_0000_0000 * b5
        + 0x1_0000_0000_0000 * b6 + 0x100_0000_0000_0000 * b7
}

/// Reads a little-endian `i64` in two's complement.
pub fn read_i64(data: &[u8], at: usize) -> (value: i64)
    requires
        at + 8 <= data@.len(),
    ensures
        value == le_i64(data@, at as int),
{
    let unsigned = read_u64(data, at);
    if unsigned < 0x8000_0000_0000_0000 {
        unsigned as i64
    } else {
        let below: u64 = u64::MAX - unsigned;
        -1 - (below as i64)
    }
}

} // verus!
