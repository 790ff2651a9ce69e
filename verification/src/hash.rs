use vstd::prelude::*;

verus! {

/// Offset basis of the 32-bit FNV-1 hash.
pub const FNV1_BASE: u32 = 0x811c9dc5;

/// Prime multiplier of the 32-bit FNV-1 hash.
pub const FNV1_PRIME: u32 = 0x01000193;

/// One FNV-1 step: multiply (mod 2^32) by the prime, then xor the byte in.
pub open spec fn fnv1_step(acc: u32, b: u8) -> u32 {
    (((acc as nat * FNV1_PRIME as nat) % 0x1_0000_0000) as u32) ^ (b as u32)
}

/// The FNV-1 hash of a byte sequence, folding from the left.
pub open spec fn fnv1_spec(data: Seq<u8>) -> u32
    decreases data.len(),
{
    if data.len() == 0 {
        FNV1_BASE
    } else {
        fnv1_step(fnv1_spec(data.drop_last()), data.last())
    }
}

/// 32-bit FNV-1 hash of `data`.
pub fn fnv1(data: &[u8]) -> (h: u32)
    ensures
        h == fnv1_spec(data@),
{
    let mut acc: u32 = FNV1_BASE;
    let mut i: usize = 0;
    while i < data.len()
        invariant
            i <= data.len(),
            acc == fnv1_spec(data@.take(i as int)),
        decreases data.len() - i,
    {
        assert(data@.take(i as int + 1).drop_last() == data@.take(i as int));
        acc = acc.wrapping_mul(FNV1_PRIME) ^ (data[i] as u32);
        i = i + 1;
    }
    assert(data@.take(data.len() as int) == data@);
    acc
}

} // verus!
