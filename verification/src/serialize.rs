//! Big-endian integer encodings and buffer helpers used by the canonical
//! signature buffers.

use vstd::prelude::*;

verus! {

/// The four big-endian bytes of a `u32`.
pub open spec fn u32_be(x: u32) -> Seq<u8> {
    seq![
        (x >> 24) as u8,
        (x >> 16) as u8,
        (x >> 8) as u8,
        x as u8,
    ]
}

/// The eight big-endian bytes of a `u64`.
pub open spec fn u64_be(x: u64) -> Seq<u8> {
    seq![
        (x >> 56) as u8,
        (x >> 48) as u8,
        (x >> 40) as u8,
        (x >> 32) as u8,
        (x >> 24) as u8,
        (x >> 16) as u8,
        (x >> 8) as u8,
        x as u8,
    ]
}

/// The sixteen big-endian bytes of a `u128`.
pub open spec fn u128_be(x: u128) -> Seq<u8> {
    seq![
        (x >> 120) as u8,
        (x >> 112) as u8,
        (x >> 104) as u8,
        (x >> 96) as u8,
        (x >> 88) as u8,
        (x >> 80) as u8,
        (x >> 72) as u8,
        (x >> 64) as u8,
        (x >> 56) as u8,
        (x >> 48) as u8,
        (x >> 40) as u8,
        (x >> 32) as u8,
        (x >> 24) as u8,
        (x >> 16) as u8,
        (x >> 8) as u8,
        x as u8,
    ]
}

/// The sixteen big-endian bytes of an `i128` (two's complement).
pub open spec fn i128_be(x: i128) -> Seq<u8> {
    u128_be(x as u128)
}

/// Append the big-endian bytes of a `u32` to a buffer.
pub fn push_u32_be(out: &mut Vec<u8>, x: u32)
    ensures
        final(out)@ == old(out)@ + u32_be(x),
{
    let ghost orig = out@;
    out.push(#[verifier::truncate] ((x >> 24) as u8));
    out.push(#[verifier::truncate] ((x >> 16) as u8));
    out.push(#[verifier::truncate] ((x >> 8) as u8));
    out.push(#[verifier::truncate] (x as u8));
    assert(out@ =~= orig + u32_be(x));
}

/// Append the big-endian bytes of a `u64` to a buffer.
pub fn push_u64_be(out: &mut Vec<u8>, x: u64)
    ensures
        final(out)@ == old(out)@ + u64_be(x),
{
    let ghost orig = out@;
    out.push(#[verifier::truncate] ((x >> 56) as u8));
    out.push(#[verifier::truncate] ((x >> 48) as u8));
    out.push(#[verifier::truncate] ((x >> 40) as u8));
    out.push(#[verifier::truncate] ((x >> 32) as u8));
    out.push(#[verifier::truncate] ((x >> 24) as u8));
    out.push(#[verifier::truncate] ((x >> 16) as u8));
    out.push(#[verifier::truncate] ((x >> 8) as u8));
    out.push(#[verifier::truncate] (x as u8));
    assert(out@ =~= orig + u64_be(x));
}

/// Append the big-endian bytes of a `u128` to a buffer.
pub fn push_u128_be(out: &mut Vec<u8>, x: u128)
    ensures
        final(out)@ == old(out)@ + u128_be(x),
{
    let ghost orig = out@;
    out.push(#[verifier::truncate] ((x >> 120) as u8));
    out.push(#[verifier::truncate] ((x >> 112) as u8));
    out.push(#[verifier::truncate] ((x >> 104) as u8));
    out.push(#[verifier::truncate] ((x >> 96) as u8));
    out.push(#[verifier::truncate] ((x >> 88) as u8));
    out.push(#[verifier::truncate] ((x >> 80) as u8));
    out.push(#[verifier::truncate] ((x >> 72) as u8));
    out.push(#[verifier::truncate] ((x >> 64) as u8));
    out.push(#[verifier::truncate] ((x >> 56) as u8));
    out.push(#[verifier::truncate] ((x >> 48) as u8));
    out.push(#[verifier::truncate] ((x >> 40) as u8));
    out.push(#[verifier::truncate] ((x >> 32) as u8));
    out.push(#[verifier::truncate] ((x >> 24) as u8));
    out.push(#[verifier::truncate] ((x >> 16) as u8));
    out.push(#[verifier::truncate] ((x >> 8) as u8));
    out.push(#[verifier::truncate] (x as u8));
    assert(out@ =~= orig + u128_be(x));
}

/// Append the big-endian bytes of an `i128` to a buffer.
pub fn push_i128_be(out: &mut Vec<u8>, x: i128)
    ensures
        final(out)@ == old(out)@ + i128_be(x),
{
    push_u128_be(out, #[verifier::truncate] (x as u128));
}

/// Append a byte vector to a buffer.
pub fn push_bytes(out: &mut Vec<u8>, data: &Vec<u8>)
    ensures
        final(out)@ == old(out)@ + data@,
{
    let ghost orig = out@;
    let mut i: usize = 0;
    while i < data.len()
        invariant
            i <= data.len(),
            out@ == orig + data@.subrange(0, i as int),
        decreases data.len() - i,
    {
        out.push(data[i]);
        assert(out@ =~= orig + data@.subrange(0, i + 1));
        i = i + 1;
    }
    assert(out@ =~= orig + data@);
}

} // verus!
