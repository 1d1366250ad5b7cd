//! Little-endian readers and writers for the integer fields of a record
//! header, specified against the byte sequence they inhabit.

use vstd::prelude::*;

verus! {

/// The 16-bit value stored little-endian in the two bytes starting at `i`.
pub open spec fn le16_at(b: Seq<u8>, i: int) -> u16 {
    (b[i] as u16) | ((b[i + 1] as u16) << 8)
}

/// The 32-bit value stored little-endian in the four bytes starting at `i`.
pub open spec fn le32_at(b: Seq<u8>, i: int) -> u32 {
    (b[i] as u32) | ((b[i + 1] as u32) << 8) | ((b[i + 2] as u32) << 16) | ((b[i + 3] as u32)
        << 24)
}

/// The 64-bit value stored little-endian in the eight bytes starting at `i`.
pub open spec fn le64_at(b: Seq<u8>, i: int) -> u64 {
    (b[i] as u64) | ((b[i + 1] as u64) << 8) | ((b[i + 2] as u64) << 16) | ((b[i + 3] as u64)
        << 24) | ((b[i + 4] as u64) << 32) | ((b[i + 5] as u64) << 40) | ((b[i + 6] as u64) << 48)
        | ((b[i + 7] as u64) << 56)
}

pub fn read_u16_at(b: &Vec<u8>, at: usize) -> (r: u16)
    requires
        at + 2 <= b.len(),
    ensures
        r == le16_at(b@, at as int),
{
    (b[at] as u16) | ((b[at + 1] as u16) << 8)
}

pub fn read_u32_at(b: &Vec<u8>, at: usize) -> (r: u32)
    requires
        at + 4 <= b.len(),
    ensures
        r == le32_at(b@, at as int),
{
    (b[at] as u32) | ((b[at + 1] as u32) << 8) | ((b[at + 2] as u32) << 16) | ((b[at + 3] as u32)
        << 24)
}

pub fn read_u64_at(b: &Vec<u8>, at: usize) -> (r: u64)
    requires
        at + 8 <= b.len(),
    ensures
        r == le64_at(b@, at as int),
{
    (b[at] as u64) | ((b[at + 1] as u64) << 8) | ((b[at + 2] as u64) << 16) | ((b[at + 3] as u64)
        << 24) | ((b[at + 4] as u64) << 32) | ((b[at + 5] as u64) << 40) | ((b[at + 6] as u64)
        << 48) | ((b[at + 7] as u64) << 56)
}

pub fn write_u8_at(b: &mut Vec<u8>, at: usize, x: u8)
    requires
        at + 1 <= old(b).len(),
    ensures
        final(b)@.len() == old(b)@.len(),
        final(b)@[at as int] == x,
        forall|i: int| 0 <= i < final(b)@.len() && i != at ==> final(b)@[i] == old(b)@[i],
{
    b.set(at, x);
}

pub fn write_u16_at(b: &mut Vec<u8>, at: usize, x: u16)
    requires
        at + 2 <= old(b).len(),
    ensures
        final(b)@.len() == old(b)@.len(),
        le16_at(final(b)@, at as int) == x,
        forall|i: int| 0 <= i < final(b)@.len() && !(at <= i < at + 2) ==> final(b)@[i] == old(b)@[i],
{
    let lo: u8 = #[verifier::truncate] (x as u8);
    let hi: u8 = #[verifier::truncate] ((x >> 8) as u8);
    b.set(at, lo);
    b.set(at + 1, hi);
    proof {
        assert(((x as u8) as u16) | ((((x >> 8) as u8) as u16) << 8) == x) by (bit_vector);
    }
}

pub fn write_u32_at(b: &mut Vec<u8>, at: usize, x: u32)
    requires
        at + 4 <= old(b).len(),
    ensures
        final(b)@.len() == old(b)@.len(),
        le32_at(final(b)@, at as int) == x,
        forall|i: int| 0 <= i < final(b)@.len() && !(at <= i < at + 4) ==> final(b)@[i] == old(b)@[i],
{
    let b0: u8 = #[verifier::truncate] (x as u8);
    let b1: u8 = #[verifier::truncate] ((x >> 8) as u8);
    let b2: u8 = #[verifier::truncate] ((x >> 16) as u8);
    let b3: u8 = #[verifier::truncate] ((x >> 24) as u8);
    b.set(at, b0);
    b.set(at + 1, b1);
    b.set(at + 2, b2);
    b.set(at + 3, b3);
    proof {
        assert(((x as u8) as u32) | ((((x >> 8) as u8) as u32) << 8) | ((((x >> 16) as u8) as u32)
            << 16) | ((((x >> 24) as u8) as u32) << 24) == x) by (bit_vector);
    }
}

pub fn write_u64_at(b: &mut Vec<u8>, at: usize, x: u64)
    requires
        at + 8 <= old(b).len(),
    ensures
        final(b)@.len() == old(b)@.len(),
        le64_at(final(b)@, at as int) == x,
        forall|i: int| 0 <= i < final(b)@.len() && !(at <= i < at + 8) ==> final(b)@[i] == old(b)@[i],
{
    let b0: u8 = #[verifier::truncate] (x as u8);
    let b1: u8 = #[verifier::truncate] ((x >> 8) as u8);
    let b2: u8 = #[verifier::truncate] ((x >> 16) as u8);
    let b3: u8 = #[verifier::truncate] ((x >> 24) as u8);
    let b4: u8 = #[verifier::truncate] ((x >> 32) as u8);
    let b5: u8 = #[verifier::truncate] ((x >> 40) as u8);
    let b6: u8 = #[verifier::truncate] ((x >> 48) as u8);
    let b7: u8 = #[verifier::truncate] ((x >> 56) as u8);
    b.set(at, b0);
    b.set(at + 1, b1);
    b.set(at + 2, b2);
    b.set(at + 3, b3);
    b.set(at + 4, b4);
    b.set(at + 5, b5);
    b.set(at + 6, b6);
    b.set(at + 7, b7);
    proof {
        assert(((x as u8) as u64) | ((((x >> 8) as u8) as u64) << 8) | ((((x >> 16) as u8) as u64)
            << 16) | ((((x >> 24) as u8) as u64) << 24) | ((((x >> 32) as u8) as u64) << 32) | ((((
        x >> 40) as u8) as u64) << 40) | ((((x >> 48) as u8) as u64) << 48) | ((((x >> 56) as u8)
            as u64) << 56) == x) by (bit_vector);
    }
}

} // verus!
