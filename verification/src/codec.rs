//! Writing and reading the fixed-width fields of the wire format.

use vstd::bytes::{
    spec_u32_from_le_bytes, spec_u32_to_le_bytes, spec_u64_from_le_bytes, spec_u64_to_le_bytes,
    u32_from_le_bytes, u32_to_le_bytes, u64_from_le_bytes, u64_to_le_bytes,
};
use vstd::prelude::*;
use vstd::slice::slice_subrange;

verus! {

/// Appends a byte string.
pub fn put_bytes(out: &mut Vec<u8>, more: &Vec<u8>)
    ensures
        final(out)@ == old(out)@ + more@,
{
    let ghost before = out@;
    let mut i: usize = 0;
    while i < more.len()
        invariant
            i <= more.len(),
            out@ == before + more@.take(i as int),
        decreases more.len() - i,
    {
        out.push(more[i]);
        assert(more@.take(i + 1) == more@.take(i as int).push(more@[i as int]));
        i += 1;
    }
    assert(more@.take(more.len() as int) == more@);
}

/// Appends the bytes of an array.
pub fn put_array<const N: usize>(out: &mut Vec<u8>, more: &[u8; N])
    ensures
        final(out)@ == old(out)@ + more@,
{
    let ghost before = out@;
    let mut i: usize = 0;
    while i < N
        invariant
            i <= N,
            more@.len() == N,
            out@ == before + more@.take(i as int),
        decreases N - i,
    {
        out.push(more[i]);
        assert(more@.take(i + 1) == more@.take(i as int).push(more@[i as int]));
        i += 1;
    }
    assert(more@.take(N as int) == more@);
}

/// Appends a 32-bit number, least significant byte first.
pub fn put_u32(out: &mut Vec<u8>, x: u32)
    ensures
        final(out)@ == old(out)@ + spec_u32_to_le_bytes(x),
{
    let bytes = u32_to_le_bytes(x);
    put_bytes(out, &bytes);
}

/// Appends a 64-bit number, least significant byte first.
pub fn put_u64(out: &mut Vec<u8>, x: u64)
    ensures
        final(out)@ == old(out)@ + spec_u64_to_le_bytes(x),
{
    let bytes = u64_to_le_bytes(x);
    put_bytes(out, &bytes);
}

/// The bytes from `from` up to, not including, `to`.
pub fn take_bytes(bytes: &Vec<u8>, from: usize, to: usize) -> (part: Vec<u8>)
    requires
        from <= to <= bytes.len(),
    ensures
        part@ == bytes@.subrange(from as int, to as int),
{
    let mut part: Vec<u8> = Vec::new();
    let mut i: usize = from;
    while i < to
        invariant
            from <= i <= to <= bytes.len(),
            part@ == bytes@.subrange(from as int, i as int),
        decreases to - i,
    {
        part.push(bytes[i]);
        assert(bytes@.subrange(from as int, i + 1) == bytes@.subrange(from as int, i as int).push(
            bytes@[i as int],
        ));
        i += 1;
    }
    part
}

/// The 32 bytes that start at `at`.
pub fn take_array32(bytes: &Vec<u8>, at: usize) -> (part: [u8; 32])
    requires
        at + 32 <= bytes.len(),
    ensures
        part@ == bytes@.subrange(at as int, at + 32),
{
    let mut part: [u8; 32] = [0u8;32];
    let mut i: usize = 0;
    while i < 32
        invariant
            i <= 32,
            at + 32 <= bytes.len(),
            forall|k: int| 0 <= k < i ==> part@[k] == bytes@[at + k],
        decreases 32 - i,
    {
        part[i] = bytes[at + i];
        i += 1;
    }
    assert(part@ =~= bytes@.subrange(at as int, at + 32));
    part
}

/// The 64 bytes that start at `at`.
pub fn take_array64(bytes: &Vec<u8>, at: usize) -> (part: [u8; 64])
    requires
        at + 64 <= bytes.len(),
    ensures
        part@ == bytes@.subrange(at as int, at + 64),
{
    let mut part: [u8; 64] = [0u8;64];
    let mut i: usize = 0;
    while i < 64
        invariant
            i <= 64,
            at + 64 <= bytes.len(),
            forall|k: int| 0 <= k < i ==> part@[k] == bytes@[at + k],
        decreases 64 - i,
    {
        part[i] = bytes[at + i];
        i += 1;
    }
    assert(part@ =~= bytes@.subrange(at as int, at + 64));
    part
}

/// The 32-bit number whose four bytes start at `at`.
pub fn take_u32(bytes: &Vec<u8>, at: usize) -> (x: u32)
    requires
        at + 4 <= bytes.len(),
    ensures
        x == spec_u32_from_le_bytes(bytes@.subrange(at as int, at + 4)),
{
    u32_from_le_bytes(slice_subrange(bytes.as_slice(), at, at + 4))
}

/// The 64-bit number whose eight bytes start at `at`.
pub fn take_u64(bytes: &Vec<u8>, at: usize) -> (x: u64)
    requires
        at + 8 <= bytes.len(),
    ensures
        x == spec_u64_from_le_bytes(bytes@.subrange(at as int, at + 8)),
{
    u64_from_le_bytes(slice_subrange(bytes.as_slice(), at, at + 8))
}

} // verus!
