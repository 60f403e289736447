//! Rolling, position-sensitive checksum used as a cheap equality pre-check.
use vstd::prelude::*;

verus! {

/// `x` rotated left by `r` bits (`r < 64`).
pub open spec fn rotl(x: u64, r: u64) -> u64 {
    if r == 0 {
        x
    } else {
        (x << r) | (x >> ((64 - r) as u64))
    }
}

/// What the byte at index `i` of a window adds to the checksum.
pub open spec fn checksum_term(b: u8, i: int) -> u64 {
    vstd::wrapping::u64_specs::wrapping_add(rotl(b as u64, (i % 64) as u64), b as u64)
}

/// The checksum of a window: the wrapping sum of its terms.
pub open spec fn checksum_of(s: Seq<u8>) -> u64
    decreases s.len(),
{
    if s.len() == 0 {
        0
    } else {
        vstd::wrapping::u64_specs::wrapping_add(
            checksum_of(s.drop_last()),
            checksum_term(s.last(), s.len() - 1),
        )
    }
}

fn rotate_left_u64(x: u64, r: u64) -> (res: u64)
    requires
        r < 64,
    ensures
        res == rotl(x, r),
{
    if r == 0 {
        x
    } else {
        (x << r) | (x >> (64 - r))
    }
}

/// Checksum of a window of bytes: the wrapping sum, over each index `i`, of
/// the byte rotated left by `i mod 64` bits plus the byte itself.
pub fn compute_simple_checksum(bytes: &[u8]) -> (r: u64)
    ensures
        r == checksum_of(bytes@),
{
    let mut acc: u64 = 0;
    let mut i: usize = 0;
    while i < bytes.len()
        invariant
            i <= bytes@.len(),
            acc == checksum_of(bytes@.subrange(0, i as int)),
        decreases bytes@.len() - i,
    {
        let b = bytes[i] as u64;
        let term = rotate_left_u64(b, (i % 64) as u64).wrapping_add(b);
        proof {
            let next = bytes@.subrange(0, i + 1);
            assert(next.drop_last() =~= bytes@.subrange(0, i as int));
        }
        acc = acc.wrapping_add(term);
        i += 1;
    }
    assert(bytes@.subrange(0, bytes@.len() as int) =~= bytes@);
    acc
}

} // verus!
