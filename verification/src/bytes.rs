use vstd::prelude::*;

verus! {

/// Byte order of multi-byte integers in package data.
#[derive(Clone, Copy, Debug, PartialEq, Eq, Structural)]
pub enum Endian {
    Big,
    Little,
}

/// Value of a byte sequence read least significant byte first.
pub open spec fn le_value(s: Seq<u8>) -> nat
    decreases s.len(),
{
    if s.len() == 0 {
        0
    } else {
        s[0] as nat + 256 * le_value(s.drop_first())
    }
}

/// Value of a byte sequence read most significant byte first.
pub open spec fn be_value(s: Seq<u8>) -> nat
    decreases s.len(),
{
    if s.len() == 0 {
        0
    } else {
        be_value(s.drop_last()) * 256 + s.last() as nat
    }
}

/// Value of a byte sequence in the given byte order.
pub open spec fn endian_value(endian: Endian, s: Seq<u8>) -> nat {
    match endian {
        Endian::Big => be_value(s),
        Endian::Little => le_value(s),
    }
}

/// Closed form of `le_value` on four bytes.
pub proof fn lemma_le_value_4(s: Seq<u8>)
    requires
        s.len() == 4,
    ensures
        le_value(s) == s[0] + 256 * s[1] + 65536 * s[2] + 16777216 * s[3],
{
    reveal_with_fuel(le_value, 5);
    assert(s.drop_first().drop_first().drop_first().drop_first().len() == 0);
}

/// Closed form of `be_value` on four bytes.
pub proof fn lemma_be_value_4(s: Seq<u8>)
    requires
        s.len() == 4,
    ensures
        be_value(s) == s[3] + 256 * s[2] + 65536 * s[1] + 16777216 * s[0],
{
    reveal_with_fuel(be_value, 5);
    assert(s.drop_last().drop_last().drop_last().drop_last().len() == 0);
}

/// Closed form of `le_value` on eight bytes.
pub proof fn lemma_le_value_8(s: Seq<u8>)
    requires
        s.len() == 8,
    ensures
        le_value(s) == s[0] + 0x100 * s[1] + 0x1_0000 * s[2] + 0x100_0000 * s[3] + 0x1_0000_0000
            * s[4] + 0x100_0000_0000 * s[5] + 0x1_0000_0000_0000 * s[6] + 0x100_0000_0000_0000
            * s[7],
{
    reveal_with_fuel(le_value, 9);
    let t = s.drop_first().drop_first().drop_first().drop_first();
    assert(t.drop_first().drop_first().drop_first().drop_first().len() == 0);
}

/// Closed form of `be_value` on eight bytes.
pub proof fn lemma_be_value_8(s: Seq<u8>)
    requires
        s.len() == 8,
    ensures
        be_value(s) == s[7] + 0x100 * s[6] + 0x1_0000 * s[5] + 0x100_0000 * s[4] + 0x1_0000_0000
            * s[3] + 0x100_0000_0000 * s[2] + 0x1_0000_0000_0000 * s[1] + 0x100_0000_0000_0000
            * s[0],
{
    reveal_with_fuel(be_value, 9);
    let t = s.drop_last().drop_last().drop_last().drop_last();
    assert(t.drop_last().drop_last().drop_last().drop_last().len() == 0);
}

/// Reads a 32-bit unsigned integer from four bytes in the given byte order.
pub fn u32_from_endian(endian: Endian, bytes: [u8; 4]) -> (r: u32)
    ensures
        r as nat == endian_value(endian, bytes@),
{
    proof {
        lemma_le_value_4(bytes@);
        lemma_be_value_4(bytes@);
    }
    let b0 = bytes[0] as u32;
    let b1 = bytes[1] as u32;
    let b2 = bytes[2] as u32;
    let b3 = bytes[3] as u32;
    match endian {
        Endian::Big => b3 + b2 * 0x100 + b1 * 0x1_0000 + b0 * 0x100_0000,
        Endian::Little => b0 + b1 * 0x100 + b2 * 0x1_0000 + b3 * 0x100_0000,
    }
}

/// Reads a 64-bit unsigned integer from eight bytes in the given byte order.
pub fn u64_from_endian(endian: Endian, bytes: [u8; 8]) -> (r: u64)
    ensures
        r as nat == endian_value(endian, bytes@),
{
    proof {
        lemma_le_value_8(bytes@);
        lemma_be_value_8(bytes@);
    }
    let b0 = bytes[0] as u64;
    let b1 = bytes[1] as u64;
    let b2 = bytes[2] as u64;
    let b3 = bytes[3] as u64;
    let b4 = bytes[4] as u64;
    let b5 = bytes[5] as u64;
    let b6 = bytes[6] as u64;
    let b7 = bytes[7] as u64;
    match endian {
        Endian::Big => b7 + b6 * 0x100 + b5 * 0x1_0000 + b4 * 0x100_0000 + b3 * 0x1_0000_0000 + b2
            * 0x100_0000_0000 + b1 * 0x1_0000_0000_0000 + b0 * 0x100_0000_0000_0000,
        Endian::Little => b0 + b1 * 0x100 + b2 * 0x1_0000 + b3 * 0x100_0000 + b4 * 0x1_0000_0000
            + b5 * 0x100_0000_0000 + b6 * 0x1_0000_0000_0000 + b7 * 0x100_0000_0000_0000,
    }
}

/// Reads a 32-bit integer at `offset` of `data`.
pub fn read_u32_at(data: &[u8], offset: usize, endian: Endian) -> (r: u32)
    requires
        offset + 4 <= data.len(),
    ensures
        r as nat == endian_value(endian, data@.subrange(offset as int, offset + 4)),
{
    let bytes: [u8; 4] = [data[offset], data[offset + 1], data[offset + 2], data[offset + 3]];
    assert(bytes@ == data@.subrange(offset as int, offset + 4));
    u32_from_endian(endian, bytes)
}

/// Reads a 64-bit integer at `offset` of `data`.
pub fn read_u64_at(data: &[u8], offset: usize, endian: Endian) -> (r: u64)
    requires
        offset + 8 <= data.len(),
    ensures
        r as nat == endian_value(endian, data@.subrange(offset as int, offset + 8)),
{
    let bytes: [u8; 8] = [
        data[offset],
        data[offset + 1],
        data[offset + 2],
        data[offset + 3],
        data[offset + 4],
        data[offset + 5],
        data[offset + 6],
        data[offset + 7],
    ];
    assert(bytes@ == data@.subrange(offset as int, offset + 8));
    u64_from_endian(endian, bytes)
}

/// Reads a 16-bit integer at `offset` of `data`.
pub fn read_u16_at(data: &[u8], offset: usize, endian: Endian) -> (r: u16)
    requires
        offset + 2 <= data.len(),
    ensures
        r as nat == endian_value(endian, data@.subrange(offset as int, offset + 2)),
{
    let b0 = data[offset];
    let b1 = data[offset + 1];
    let ghost s = data@.subrange(offset as int, offset + 2);
    proof {
        reveal_with_fuel(le_value, 3);
        reveal_with_fuel(be_value, 3);
        assert(s.drop_first().drop_first() =~= Seq::<u8>::empty());
        assert(s.drop_last().drop_last() =~= Seq::<u8>::empty());
        assert(s.drop_first()[0] == b1);
        assert(s.drop_last().last() == b0);
    }
    match endian {
        Endian::Big => (b0 as u16) * 256 + (b1 as u16),
        Endian::Little => (b0 as u16) + (b1 as u16) * 256,
    }
}

} // verus!
