//! Localized string tables: the string container (the hashes of the strings and the tags of
//! their data per language) and the string data of one language, read as little-endian 64-bit
//! data with relative table pointers.
use vstd::prelude::*;
use crate::bytes::{be_value, le_value, read_u16_at, read_u32_at, read_u64_at, Endian};
use crate::hash::FNV1_BASE;
use crate::strutil::{hex_upper, push_char, push_hex_upper, push_str};
use crate::taghash::TagHash;
use crate::version::{destiny_rank, GameVersion};
use std::collections::HashMap;
use crate::text::{decode_text, deciphered, utf8_lossy};

verus! {

broadcast use vstd::std_specs::hash::group_hash_axioms;

/// Why string data could not be read.
#[derive(Clone, Copy, Debug, PartialEq, Eq, Structural)]
pub enum StringDataError {
    /// A read runs past the end of the data, or a pointer leads outside the addressable range.
    Malformed,
    /// The text of a part ends inside a ciphered UTF-8 sequence (or a cipher addition
    /// overflows a byte), where deciphering would index past the data.
    TruncatedCipherText,
    /// The UTF-16 text of a part holds an unpaired surrogate.
    InvalidUtf16,
}

/// A 64-bit value read as a two's complement signed integer.
pub open spec fn signed(v: u64) -> int {
    if v < 0x8000_0000_0000_0000 {
        v as int
    } else {
        v as int - 0x1_0000_0000_0000_0000
    }
}

/// Little-endian 64-bit value at `p`.
pub open spec fn u64_at(d: Seq<u8>, p: int) -> u64 {
    le_value(d.subrange(p, p + 8)) as u64
}

/// Little-endian 32-bit value at `p`.
pub open spec fn u32_at(d: Seq<u8>, p: int) -> u32 {
    le_value(d.subrange(p, p + 4)) as u32
}

/// Little-endian 16-bit value at `p`.
pub open spec fn u16_at(d: Seq<u8>, p: int) -> u16 {
    le_value(d.subrange(p, p + 2)) as u16
}

/// Whether a position can be sought to.
pub open spec fn seekable(t: int) -> bool {
    0 <= t <= u64::MAX
}

/// The table pointer at `p`: its element count and where its elements start (16 bytes after
/// the offset field, plus the offset), when it can be read.
pub open spec fn table_at(d: Seq<u8>, p: int) -> Option<(nat, int)> {
    if p < 0 || p + 16 > d.len() {
        None
    } else {
        let off = signed(u64_at(d, p + 8));
        let t = p + 8 + off + 16;
        if off + 16 > i64::MAX || !seekable(t) {
            None
        } else {
            Some((u64_at(d, p) as nat, t))
        }
    }
}

/// The target of the relative pointer at `p` (its own position plus its offset), when it can
/// be read.
pub open spec fn rel_at(d: Seq<u8>, p: int) -> Option<int> {
    if p < 0 || p + 8 > d.len() {
        None
    } else {
        let t = p + signed(u64_at(d, p));
        if seekable(t) {
            Some(t)
        } else {
            None
        }
    }
}

/// Whether the `count` elements of `size` bytes from `t` lie in the data, each with a
/// readable relative pointer `rel` bytes into it (when `rel` is not negative).
pub open spec fn elements_read(d: Seq<u8>, t: int, count: nat, size: int, rel: int) -> bool {
    &&& t + count * size <= d.len()
    &&& rel >= 0 ==> forall|k: int| 0 <= k < count ==> (#[trigger] rel_at(d, t + k * size + rel)) is Some
}

/// Where the string data header's tables are: string parts, an unused table, the bytes and
/// the combinations. The format before Beyond Light has 16 more bytes after the parts.
pub open spec fn string_data_tables(old_format: bool) -> (int, int, int, int) {
    let p2 = if old_format { 40int } else { 24int };
    (8, p2, p2 + 16, p2 + 32)
}

/// Whether the string data header and its tables can be read.
pub open spec fn string_data_header_ok(d: Seq<u8>, old_format: bool) -> bool {
    let (p1, p2, p3, p4) = string_data_tables(old_format);
    &&& d.len() >= 8
    &&& table_at(d, p1) matches Some((c1, t1)) && elements_read(d, t1, c1, 32, 8)
    &&& table_at(d, p2) is Some
    &&& table_at(d, p3) matches Some((c3, t3)) && elements_read(d, t3, c3, 1, -1)
    &&& table_at(d, p4) matches Some((c4, t4)) && elements_read(d, t4, c4, 16, 0)
}

/// The text of the string part at `q`: a variable written as its hash in angle brackets, or
/// the part's bytes decoded (deciphered when it has a cipher).
pub open spec fn part_text(d: Seq<u8>, q: int) -> Result<Seq<char>, StringDataError> {
    if q + 32 > d.len() || rel_at(d, q + 8) is None {
        Err(StringDataError::Malformed)
    } else {
        let vh = u32_at(d, q + 16);
        if vh != FNV1_BASE {
            Ok(seq!['<'] + hex_upper(vh as nat, 8) + seq!['>'])
        } else {
            let t = rel_at(d, q + 8)->0;
            let bl = u16_at(d, q + 20);
            let cs = u16_at(d, q + 24);
            if t + bl > d.len() {
                Err(StringDataError::Malformed)
            } else {
                let bytes = d.subrange(t, t + bl);
                if cs == 0 {
                    Ok(utf8_lossy(bytes))
                } else if deciphered(bytes, cs) is None {
                    Err(StringDataError::TruncatedCipherText)
                } else {
                    Ok(utf8_lossy(deciphered(bytes, cs)->0))
                }
            }
        }
    }
}

/// The text of parts `ip..pc` of a combination whose parts start at `dt`.
pub open spec fn combination_text(d: Seq<u8>, dt: int, pc: int, ip: int) -> Result<Seq<char>, StringDataError>
    decreases pc - ip,
{
    if ip >= pc {
        Ok(seq![])
    } else {
        match part_text(d, dt + 32 * ip) {
            Err(e) => Err(e),
            Ok(s) => match combination_text(d, dt, pc, ip + 1) {
                Err(e) => Err(e),
                Ok(rest) => Ok(s + rest),
            },
        }
    }
}

/// The strings of combinations `k..n` (whose table starts at `t4`), each with its hash;
/// strings with the empty hash are left out.
pub open spec fn combination_strings(d: Seq<u8>, t4: int, hashes: Seq<u32>, k: int, n: int) -> Result<
    Seq<(u32, Seq<char>)>,
    StringDataError,
>
    decreases n - k,
{
    if k >= n {
        Ok(seq![])
    } else {
        let c = t4 + 16 * k;
        let dt = rel_at(d, c)->0;
        let pc = signed(u64_at(d, c + 8));
        match combination_text(d, dt, pc, 0) {
            Err(e) => Err(e),
            Ok(s) => match combination_strings(d, t4, hashes, k + 1, n) {
                Err(e) => Err(e),
                Ok(rest) => Ok(
                    if hashes[k] == FNV1_BASE {
                        rest
                    } else {
                        seq![(hashes[k], s)] + rest
                    },
                ),
            },
        }
    }
}

/// The strings of string data, paired in order with `hashes` (as far as both go).
pub open spec fn string_data_strings(d: Seq<u8>, old_format: bool, hashes: Seq<u32>) -> Result<
    Seq<(u32, Seq<char>)>,
    StringDataError,
> {
    if !string_data_header_ok(d, old_format) {
        Err(StringDataError::Malformed)
    } else {
        let (count, t4) = table_at(d, string_data_tables(old_format).3)->0;
        let n = if count < hashes.len() { count as int } else { hashes.len() as int };
        combination_strings(d, t4, hashes, 0, n)
    }
}

/// Strings with their hashes as plain values.
pub open spec fn hashed_strings(v: Seq<(u32, String)>) -> Seq<(u32, Seq<char>)> {
    v.map_values(|e: (u32, String)| (e.0, e.1@))
}

pub(crate) fn read64(d: &[u8], p: u64) -> (r: Option<u64>)
    ensures
        r is Some <==> p + 8 <= d@.len(),
        r matches Some(v) ==> v == u64_at(d@, p as int),
{
    if p > d.len() as u64 || (d.len() as u64) - p < 8 {
        None
    } else {
        Some(read_u64_at(d, p as usize, Endian::Little))
    }
}

/// `base + signed(off) + extra`, when it can be sought to.
pub(crate) fn offset_target(base: u64, off: u64, extra: u64) -> (r: Option<u64>)
    ensures
        r is Some <==> seekable(base + signed(off) + extra),
        r matches Some(t) ==> t == base + signed(off) + extra,
{
    if off < 0x8000_0000_0000_0000 {
        if base > u64::MAX - off {
            return None;
        }
        let s = base + off;
        if s > u64::MAX - extra {
            return None;
        }
        Some(s + extra)
    } else {
        let neg = (u64::MAX - off) + 1;
        if base >= neg {
            let s = base - neg;
            if s > u64::MAX - extra {
                return None;
            }
            Some(s + extra)
        } else {
            let short = neg - base;
            if extra >= short {
                Some(extra - short)
            } else {
                None
            }
        }
    }
}

pub(crate) fn read_table(d: &[u8], p: u64) -> (r: Option<(u64, u64)>)
    ensures
        r is Some <==> table_at(d@, p as int) is Some,
        r matches Some((c, t)) ==> table_at(d@, p as int) == Some((c as nat, t as int)),
{
    if p > d.len() as u64 || (d.len() as u64) - p < 16 {
        return None;
    }
    let count = match read64(d, p) {
        Some(c) => c,
        None => return None,
    };
    let off = match read64(d, p + 8) {
        Some(o) => o,
        None => return None,
    };
    if off < 0x8000_0000_0000_0000 && off > 0x7FFF_FFFF_FFFF_FFEF {
        return None;
    }
    match offset_target(p + 8, off, 16) {
        Some(t) => Some((count, t)),
        None => None,
    }
}

pub(crate) fn read_rel(d: &[u8], p: u64) -> (r: Option<u64>)
    ensures
        r is Some <==> rel_at(d@, p as int) is Some,
        r matches Some(t) ==> rel_at(d@, p as int) == Some(t as int),
{
    let off = match read64(d, p) {
        Some(o) => o,
        None => return None,
    };
    offset_target(p, off, 0)
}

pub(crate) fn check_elements(d: &[u8], t: u64, count: u64, size: u64, rel: i64) -> (r: bool)
    requires
        1 <= size <= 32,
        rel < size,
    ensures
        r == elements_read(d@, t as int, count as nat, size as int, rel as int),
{
    let len = d.len() as u64;
    if t > len || (len - t) / size < count {
        proof {
            if t <= len {
                assert(count * size > len - t) by (nonlinear_arith)
                    requires
                        (len - t) / (size as int) < count,
                        size >= 1,
                        len >= t,
                ;
            }
        }
        return false;
    }
    assert(count * size <= len - t) by (nonlinear_arith)
        requires
            (len - t) / (size as int) >= count,
            size >= 1,
            len >= t,
    ;
    if rel < 0 {
        return true;
    }
    let mut k: u64 = 0;
    while k < count
        invariant
            k <= count,
            d@.len() == d.len(),
            t + count * size <= d@.len(),
            1 <= size <= 32,
            0 <= rel < size,
            forall|j: int| 0 <= j < k ==> (#[trigger] rel_at(d@, t + j * size + rel)) is Some,
        decreases count - k,
    {
        assert(k * size + rel < count * size) by (nonlinear_arith)
            requires
                k < count,
                rel < size,
                rel >= 0,
        ;
        let q = t + k * size + rel as u64;
        if read_rel(d, q).is_none() {
            return false;
        }
        k += 1;
    }
    true
}

/// Reads the string data header and checks its tables (see `string_data_header_ok`); gives the
/// combination count and where the combinations start.
fn read_string_data_header(d: &[u8], old_format: bool) -> (r: Option<(u64, u64)>)
    ensures
        r is Some <==> string_data_header_ok(d@, old_format),
        r matches Some((c, t)) ==> table_at(d@, string_data_tables(old_format).3) == Some((c as nat, t as int)),
{
    if d.len() < 8 {
        return None;
    }
    let p2: u64 = if old_format {
        40
    } else {
        24
    };
    let (c1, t1) = match read_table(d, 8) {
        Some(x) => x,
        None => return None,
    };
    if !check_elements(d, t1, c1, 32, 8) {
        return None;
    }
    if read_table(d, p2).is_none() {
        return None;
    }
    let (c3, t3) = match read_table(d, p2 + 16) {
        Some(x) => x,
        None => return None,
    };
    if !check_elements(d, t3, c3, 1, -1) {
        return None;
    }
    let (c4, t4) = match read_table(d, p2 + 32) {
        Some(x) => x,
        None => return None,
    };
    if !check_elements(d, t4, c4, 16, 0) {
        return None;
    }
    Some((c4, t4))
}

fn read_part_text(d: &[u8], q: u64) -> (r: Result<String, StringDataError>)
    ensures
        match part_text(d@, q as int) {
            Ok(s) => r matches Ok(x) && x@ == s,
            Err(e) => r == Err::<String, StringDataError>(e),
        },
{
    let len = d.len() as u64;
    if q > len || len - q < 32 {
        return Err(StringDataError::Malformed);
    }
    let t = match read_rel(d, q + 8) {
        Some(t) => t,
        None => return Err(StringDataError::Malformed),
    };
    let qs = q as usize;
    let vh = read_u32_at(d, qs + 16, Endian::Little);
    if vh != 0x811c9dc5 {
        let mut s = String::new();
        push_char(&mut s, '<');
        push_hex_upper(&mut s, vh as u64, 8);
        push_char(&mut s, '>');
        assert(s@ =~= seq!['<'] + hex_upper(vh as nat, 8) + seq!['>']);
        return Ok(s);
    }
    let bl = read_u16_at(d, qs + 20, Endian::Little);
    let cs = read_u16_at(d, qs + 24, Endian::Little);
    if t > len || len - t < bl as u64 {
        return Err(StringDataError::Malformed);
    }
    let ts = t as usize;
    let bytes = vstd::slice::slice_subrange(d, ts, ts + bl as usize);
    if cs != 0 {
        if crate::text::decipher_text(bytes, cs).is_none() {
            return Err(StringDataError::TruncatedCipherText);
        }
    }
    Ok(decode_text(bytes, cs))
}

fn read_combination_text(d: &[u8], dt: u64, pc: u64) -> (r: Result<String, StringDataError>)
    ensures
        match combination_text(d@, dt as int, signed(pc), 0) {
            Ok(s) => r matches Ok(x) && x@ == s,
            Err(e) => r == Err::<String, StringDataError>(e),
        },
{
    let mut out = String::new();
    if pc >= 0x8000_0000_0000_0000 {
        return Ok(out);
    }
    let ghost total = combination_text(d@, dt as int, pc as int, 0);
    let mut ip: u64 = 0;
    while ip < pc
        invariant
            ip <= pc,
            pc < 0x8000_0000_0000_0000,
            total == combination_text(d@, dt as int, pc as int, 0),
            match combination_text(d@, dt as int, pc as int, ip as int) {
                Ok(rest) => total matches Ok(all) && all == out@ + rest,
                Err(e) => total == Err::<Seq<char>, StringDataError>(e),
            },
        decreases pc - ip,
    {
        let len = d.len() as u64;
        if dt > len || (len - dt) / 32 <= ip {
            proof {
                if dt <= len {
                    assert(dt + 32 * ip + 32 > len) by (nonlinear_arith)
                        requires
                            (len - dt) / 32 <= ip,
                            dt <= len,
                    ;
                }
            }
            return Err(StringDataError::Malformed);
        }
        assert(dt + 32 * ip + 32 <= len) by (nonlinear_arith)
            requires
                (len - dt) / 32 > ip,
                dt <= len,
        ;
        let q = dt + 32 * ip;
        match read_part_text(d, q) {
            Err(e) => {
                return Err(e);
            },
            Ok(s) => {
                let ghost before = out@;
                push_str(&mut out, s.as_str());
                proof {
                    match combination_text(d@, dt as int, pc as int, ip + 1) {
                        Ok(rest) => {
                            assert(out@ + rest =~= before + (s@ + rest));
                        },
                        Err(e) => {},
                    }
                }
            },
        }
        ip += 1;
    }
    proof {
        assert(out@ + seq![] =~= out@);
    }
    Ok(out)
}

/// Reads the strings of string data, in the order of its combinations, each paired with the
/// hash at the same place of `hashes` (as far as both go); strings whose hash is the empty
/// FNV-1 hash are left out. The header's tables must lie in the data with readable pointers;
/// each combination's parts are read from where its pointer leads, 32 bytes apart: a part
/// with a variable hash gives the hash in angle brackets, else its bytes decoded (see
/// `decode_text`).
pub fn read_string_data(data: &[u8], old_format: bool, hashes: &[u32]) -> (r: Result<Vec<(u32, String)>, StringDataError>)
    ensures
        match string_data_strings(data@, old_format, hashes@) {
            Ok(v) => r matches Ok(x) && hashed_strings(x@) == v,
            Err(e) => r == Err::<Vec<(u32, String)>, StringDataError>(e),
        },
{
    let (count, t4) = match read_string_data_header(data, old_format) {
        Some(x) => x,
        None => return Err(StringDataError::Malformed),
    };
    let n: u64 = if count < hashes.len() as u64 {
        count
    } else {
        hashes.len() as u64
    };
    let ghost d = data@;
    let ghost total = combination_strings(d, t4 as int, hashes@, 0, n as int);
    assert(total == string_data_strings(data@, old_format, hashes@));
    let mut out: Vec<(u32, String)> = Vec::new();
    let mut k: u64 = 0;
    while k < n
        invariant
            k <= n,
            n <= count,
            n <= hashes@.len(),
            data@.len() == data.len(),
            elements_read(d, t4 as int, count as nat, 16, 0),
            d == data@,
            total == combination_strings(d, t4 as int, hashes@, 0, n as int),
            total == string_data_strings(data@, old_format, hashes@),
            match combination_strings(d, t4 as int, hashes@, k as int, n as int) {
                Ok(rest) => total matches Ok(all) && all == hashed_strings(out@) + rest,
                Err(e) => total == Err::<Seq<(u32, Seq<char>)>, StringDataError>(e),
            },
        decreases n - k,
    {
        assert(16 * k + 16 <= count * 16) by (nonlinear_arith)
            requires
                k < n,
                n <= count,
        ;
        let c = t4 + 16 * k;
        assert(rel_at(d, t4 + k * 16 + 0) is Some);
        assert(t4 + k * 16 + 0 == c);
        let dt = match read_rel(data, c) {
            Some(x) => x,
            None => return Err(StringDataError::Malformed),
        };
        let pc = read_u64_at(data, (c + 8) as usize, Endian::Little);
        let h = hashes[k as usize];
        assert(pc == u64_at(d, c + 8));
        match read_combination_text(data, dt, pc) {
            Err(e) => {
                assert(combination_text(d, dt as int, signed(pc), 0) == Err::<Seq<char>, StringDataError>(e));
                assert(combination_strings(d, t4 as int, hashes@, k as int, n as int) == Err::<
                    Seq<(u32, Seq<char>)>,
                    StringDataError,
                >(e));
                return Err(e);
            },
            Ok(s) => {
                let ghost before = out@;
                if h != 0x811c9dc5 {
                    out.push((h, s));
                }
                proof {
                    match combination_strings(d, t4 as int, hashes@, k + 1, n as int) {
                        Ok(rest) => {
                            if h != FNV1_BASE {
                                assert(hashed_strings(out@) =~= hashed_strings(before).push((h, s@)));
                                assert(hashed_strings(out@) + rest =~= hashed_strings(before) + (seq![(h, s@)] + rest));
                            }
                        },
                        Err(e) => {},
                    }
                }
            },
        }
        k += 1;
    }
    proof {
        assert(hashed_strings(out@) + seq![] =~= hashed_strings(out@));
    }
    Ok(out)
}

/// The string container of a string table: the hashes of its strings, and for each language
/// the tag that holds its string data.
pub struct StringContainer {
    pub file_size: u64,
    pub string_hashes: Vec<u32>,
    pub language_english: TagHash,
    pub language_japanese: TagHash,
    pub language_german: TagHash,
    pub language_french: TagHash,
    pub language_spanish: TagHash,
    pub language_spanish_latam: TagHash,
    pub language_italian: TagHash,
    pub language_korean: TagHash,
    pub language_chinese_traditional: TagHash,
    pub language_chinese_simplified: TagHash,
    pub language_portuguese: TagHash,
    pub language_polish: TagHash,
    pub language_russian: TagHash,
}

/// Whether a string container can be read: its hash table lies in the data and the thirteen
/// language tags follow the table pointer.
pub open spec fn string_container_ok(d: Seq<u8>) -> bool {
    &&& d.len() >= 76
    &&& table_at(d, 8) matches Some((c, t)) && elements_read(d, t, c, 4, -1)
}

/// The language tags of a container, in field order.
pub open spec fn container_languages(c: StringContainer) -> Seq<TagHash> {
    seq![
        c.language_english,
        c.language_japanese,
        c.language_german,
        c.language_french,
        c.language_spanish,
        c.language_spanish_latam,
        c.language_italian,
        c.language_korean,
        c.language_chinese_traditional,
        c.language_chinese_simplified,
        c.language_portuguese,
        c.language_polish,
        c.language_russian,
    ]
}

pub(crate) fn read_tag_at(d: &[u8], p: usize) -> (r: TagHash)
    requires
        p + 4 <= d.len(),
    ensures
        r.0 == u32_at(d@, p as int),
{
    TagHash(read_u32_at(d, p, Endian::Little))
}

impl StringContainer {
    /// Reads a string container (little-endian): its size, the table of string hashes, and the
    /// thirteen language tags from offset 24 on; `None` where that does not fit the data.
    pub fn read(data: &[u8]) -> (r: Option<StringContainer>)
        ensures
            r is Some <==> string_container_ok(data@),
            r matches Some(c) ==> {
                &&& c.file_size == u64_at(data@, 0)
                &&& table_at(data@, 8) matches Some((count, t)) && c.string_hashes@.len() == count && forall|i: int|
                    0 <= i < count ==> #[trigger] c.string_hashes@[i] == u32_at(data@, t + 4 * i)
                &&& forall|j: int| 0 <= j < 13 ==> #[trigger] container_languages(c)[j].0 == u32_at(data@, 24 + 4 * j)
            },
    {
        if data.len() < 76 {
            return None;
        }
        let (count, t) = match read_table(data, 8) {
            Some(x) => x,
            None => return None,
        };
        if !check_elements(data, t, count, 4, -1) {
            return None;
        }
        let mut hashes: Vec<u32> = Vec::new();
        let mut i: u64 = 0;
        while i < count
            invariant
                i <= count,
                data@.len() == data.len(),
                t + count * 4 <= data@.len(),
                hashes@.len() == i,
                forall|j: int| 0 <= j < i ==> #[trigger] hashes@[j] == u32_at(data@, t + 4 * j),
            decreases count - i,
        {
            assert(4 * i + 4 <= count * 4) by (nonlinear_arith)
                requires
                    i < count,
            ;
            let v = read_u32_at(data, (t + 4 * i) as usize, Endian::Little);
            hashes.push(v);
            i += 1;
        }
        let c = StringContainer {
            file_size: read_u64_at(data, 0, Endian::Little),
            string_hashes: hashes,
            language_english: read_tag_at(data, 24),
            language_japanese: read_tag_at(data, 28),
            language_german: read_tag_at(data, 32),
            language_french: read_tag_at(data, 36),
            language_spanish: read_tag_at(data, 40),
            language_spanish_latam: read_tag_at(data, 44),
            language_italian: read_tag_at(data, 48),
            language_korean: read_tag_at(data, 52),
            language_chinese_traditional: read_tag_at(data, 56),
            language_chinese_simplified: read_tag_at(data, 60),
            language_portuguese: read_tag_at(data, 64),
            language_polish: read_tag_at(data, 68),
            language_russian: read_tag_at(data, 72),
        };
        assert forall|j: int| 0 <= j < 13 implies #[trigger] container_languages(c)[j].0 == u32_at(data@, 24 + 4 * j) by {
            if j == 0 {
            } else if j == 1 {
            } else if j == 2 {
            } else if j == 3 {
            } else if j == 4 {
            } else if j == 5 {
            } else if j == 6 {
            } else if j == 7 {
            } else if j == 8 {
            } else if j == 9 {
            } else if j == 10 {
            } else if j == 11 {
            } else {
            }
        }
        Some(c)
    }

    /// The language codes with their string data tags, in field order.
    pub fn all_languages(&self) -> (r: Vec<(&'static str, TagHash)>)
        ensures
            r@.len() == 13,
            forall|j: int| 0 <= j < 13 ==> #[trigger] r@[j].1 == container_languages(*self)[j],
            r@[0].0@ == "en"@,
            r@[1].0@ == "jp"@,
            r@[2].0@ == "de"@,
            r@[3].0@ == "fr"@,
            r@[4].0@ == "es"@,
            r@[5].0@ == "es_latam"@,
            r@[6].0@ == "it"@,
            r@[7].0@ == "ko"@,
            r@[8].0@ == "zh_t"@,
            r@[9].0@ == "zh_s"@,
            r@[10].0@ == "pt"@,
            r@[11].0@ == "pl"@,
            r@[12].0@ == "ru"@,
    {
        let r = vec![
            ("en", self.language_english),
            ("jp", self.language_japanese),
            ("de", self.language_german),
            ("fr", self.language_french),
            ("es", self.language_spanish),
            ("es_latam", self.language_spanish_latam),
            ("it", self.language_italian),
            ("ko", self.language_korean),
            ("zh_t", self.language_chinese_traditional),
            ("zh_s", self.language_chinese_simplified),
            ("pt", self.language_portuguese),
            ("pl", self.language_polish),
            ("ru", self.language_russian),
        ];
        assert forall|j: int| 0 <= j < 13 implies #[trigger] r@[j].1 == container_languages(*self)[j] by {
            if j == 0 {
            } else if j == 1 {
            } else if j == 2 {
            } else if j == 3 {
            } else if j == 4 {
            } else if j == 5 {
            } else if j == 6 {
            } else if j == 7 {
            } else if j == 8 {
            } else if j == 9 {
            } else if j == 10 {
            } else if j == 11 {
            } else {
            }
        }
        r
    }
}

/// The class of the string containers of a game version, where its strings can be read in
/// this format (not for Marathon).
pub open spec fn string_container_class(version: GameVersion) -> Option<u32> {
    match version {
        GameVersion::Destiny(v) => Some(
            if destiny_rank(v) <= 3 {
                0x8080035A
            } else if destiny_rank(v) <= 6 {
                0x80809A88
            } else {
                0x808099EF
            },
        ),
        GameVersion::Marathon(_) => None,
    }
}

/// The class of the string containers of a game version (see `string_container_class`).
pub fn string_reference_type(version: GameVersion) -> (r: Option<u32>)
    ensures
        r == string_container_class(version),
{
    match version {
        GameVersion::Destiny(v) => {
            let rank = v.rank();
            if rank <= 3 {
                Some(0x8080035A)
            } else if rank <= 6 {
                Some(0x80809A88)
            } else {
                Some(0x808099EF)
            }
        },
        GameVersion::Marathon(_) => None,
    }
}

/// Whether the string data of a version has the 16 extra header bytes: Destiny releases up to
/// Beyond Light.
pub fn string_data_old_format(version: GameVersion) -> (r: bool)
    ensures
        r == (version matches GameVersion::Destiny(v) && destiny_rank(v) <= 7),
{
    match version {
        GameVersion::Destiny(v) => v.rank() <= 7,
        GameVersion::Marathon(_) => false,
    }
}

/// The strings known for a hash after adding `s`: `s` added at the end unless already there.
pub open spec fn strings_with(known: Option<Seq<Seq<char>>>, s: Seq<char>) -> Seq<Seq<char>> {
    match known {
        Some(v) => if v.contains(s) {
            v
        } else {
            v.push(s)
        },
        None => seq![s],
    }
}

/// The strings of a map entry as plain values.
pub open spec fn known_strings(m: Map<u32, Vec<String>>, h: u32) -> Option<Seq<Seq<char>>> {
    if m.contains_key(h) {
        Some(m[h]@.map_values(|x: String| x@))
    } else {
        None
    }
}

/// Adds a string to the strings known for `hash`, each distinct string once, in the order they
/// were first added.
pub fn add_string(map: &mut HashMap<u32, Vec<String>>, hash: u32, s: String)
    ensures
        final(map)@.dom() == old(map)@.dom().insert(hash),
        forall|k: u32| k != hash ==> #[trigger] known_strings(final(map)@, k) == known_strings(old(map)@, k),
        known_strings(final(map)@, hash) == Some(strings_with(known_strings(old(map)@, hash), s@)),
{
    let ghost s_view = s@;
    match map.remove(&hash) {
        Some(v) => {
            let mut v = v;
            let ghost vv = v@.map_values(|x: String| x@);
            let mut found = false;
            let mut i: usize = 0;
            while i < v.len()
                invariant
                    i <= v@.len(),
                    vv == v@.map_values(|x: String| x@),
                    found ==> vv.contains(s_view),
                    !found ==> forall|j: int| 0 <= j < i ==> vv[j] != s_view,
                    s@ == s_view,
                decreases v@.len() - i,
            {
                if v[i] == s {
                    found = true;
                    assert(vv[i as int] == s_view);
                }
                i += 1;
            }
            if !found {
                v.push(s);
                assert(v@.map_values(|x: String| x@) =~= vv.push(s_view));
            }
            map.insert(hash, v);
        },
        None => {
            let mut v: Vec<String> = Vec::new();
            v.push(s);
            assert(v@.map_values(|x: String| x@) =~= seq![s_view]);
            map.insert(hash, v);
        },
    }
    assert(final(map)@.dom() =~= old(map)@.dom().insert(hash));
}

/// The strings of a raw string lookup entry as plain values.
pub open spec fn known_named(m: Map<u32, Vec<(String, bool)>>, h: u32) -> Option<Seq<(Seq<char>, bool)>> {
    if m.contains_key(h) {
        Some(m[h]@.map_values(|x: (String, bool)| (x.0@, x.1)))
    } else {
        None
    }
}

/// Whether a string is among the strings of a lookup entry.
pub open spec fn has_named(v: Seq<(Seq<char>, bool)>, s: Seq<char>) -> bool {
    exists|i: int| 0 <= i < v.len() && #[trigger] v[i].0 == s
}

/// The strings of a lookup entry after adding `s` with its flag: added at the end unless the
/// string is already there (with either flag).
pub open spec fn named_with(known: Option<Seq<(Seq<char>, bool)>>, s: Seq<char>, flag: bool) -> Seq<(Seq<char>, bool)> {
    match known {
        Some(v) => if has_named(v, s) {
            v
        } else {
            v.push((s, flag))
        },
        None => seq![(s, flag)],
    }
}

/// Adds a string with its flag (whether it came from the word list) to the strings known for
/// `hash`, each distinct string once, in the order they were first added.
pub fn add_named_string(map: &mut HashMap<u32, Vec<(String, bool)>>, hash: u32, s: String, flag: bool)
    ensures
        final(map)@.dom() == old(map)@.dom().insert(hash),
        forall|k: u32| k != hash ==> #[trigger] known_named(final(map)@, k) == known_named(old(map)@, k),
        known_named(final(map)@, hash) == Some(named_with(known_named(old(map)@, hash), s@, flag)),
{
    let ghost s_view = s@;
    match map.remove(&hash) {
        Some(v) => {
            let mut v = v;
            let ghost vv = v@.map_values(|x: (String, bool)| (x.0@, x.1));
            let mut found = false;
            let mut i: usize = 0;
            while i < v.len()
                invariant
                    i <= v@.len(),
                    vv == v@.map_values(|x: (String, bool)| (x.0@, x.1)),
                    found ==> has_named(vv, s_view),
                    !found ==> forall|j: int| 0 <= j < i ==> vv[j].0 != s_view,
                    s@ == s_view,
                decreases v@.len() - i,
            {
                if v[i].0 == s {
                    found = true;
                    assert(vv[i as int].0 == s_view);
                }
                i += 1;
            }
            if !found {
                v.push((s, flag));
                assert(v@.map_values(|x: (String, bool)| (x.0@, x.1)) =~= vv.push((s_view, flag)));
            }
            map.insert(hash, v);
        },
        None => {
            let mut v: Vec<(String, bool)> = Vec::new();
            v.push((s, flag));
            assert(v@.map_values(|x: (String, bool)| (x.0@, x.1)) =~= seq![(s_view, flag)]);
            map.insert(hash, v);
        },
    }
    assert(final(map)@.dom() =~= old(map)@.dom().insert(hash));
}

/// A 32-bit value read as a two's complement signed integer.
pub open spec fn signed32(v: u32) -> int {
    if v < 0x8000_0000 {
        v as int
    } else {
        v as int - 0x1_0000_0000
    }
}

/// Big-endian 32-bit value at `p`.
pub open spec fn be32_at(d: Seq<u8>, p: int) -> u32 {
    be_value(d.subrange(p, p + 4)) as u32
}

/// Big-endian 16-bit value at `p`.
pub open spec fn be16_at(d: Seq<u8>, p: int) -> u16 {
    be_value(d.subrange(p, p + 2)) as u16
}

/// The 32-bit big-endian table pointer at `p`: its element count and where its elements start
/// (16 bytes after the offset field, plus the offset), when it can be read.
pub open spec fn table32_at(d: Seq<u8>, p: int) -> Option<(nat, int)> {
    if p < 0 || p + 8 > d.len() {
        None
    } else {
        let t = p + 4 + signed32(be32_at(d, p + 4)) + 16;
        if !seekable(t) {
            None
        } else {
            Some((be32_at(d, p) as nat, t))
        }
    }
}

/// The target of the 32-bit big-endian relative pointer at `p`, when it can be read.
pub open spec fn rel32_at(d: Seq<u8>, p: int) -> Option<int> {
    if p < 0 || p + 4 > d.len() {
        None
    } else {
        let t = p + signed32(be32_at(d, p));
        if !seekable(t) {
            None
        } else {
            Some(t)
        }
    }
}

/// Whether the `count` elements of `size` bytes from `t` lie in the data, each with a
/// readable 32-bit relative pointer `rel` bytes into it (when `rel` is not negative).
pub open spec fn elements32_read(d: Seq<u8>, t: int, count: nat, size: int, rel: int) -> bool {
    &&& t + count * size <= d.len()
    &&& rel >= 0 ==> forall|k: int| 0 <= k < count ==> (#[trigger] rel32_at(d, t + k * size + rel)) is Some
}

/// Whether the Taken King string data header (big endian, 32-bit pointers) and its tables can
/// be read; its size field must be below 0xF00000.
pub open spec fn string_data_d1_header_ok(d: Seq<u8>) -> bool {
    &&& d.len() >= 4
    &&& be32_at(d, 0) < 0xF00000
    &&& table32_at(d, 4) matches Some((c1, t1)) && elements32_read(d, t1, c1, 20, 4)
    &&& table32_at(d, 20) is Some
    &&& table32_at(d, 28) matches Some((c3, t3)) && elements32_read(d, t3, c3, 1, -1)
    &&& table32_at(d, 36) matches Some((c4, t4)) && elements32_read(d, t4, c4, 8, 0)
}

/// The text of the Taken King string part at `q`: its bytes, deciphered when it has a cipher.
pub open spec fn part_text_d1(d: Seq<u8>, q: int) -> Result<Seq<char>, StringDataError> {
    if q + 20 > d.len() || rel32_at(d, q + 4) is None {
        Err(StringDataError::Malformed)
    } else {
        let t = rel32_at(d, q + 4)->0;
        let bl = be16_at(d, q + 12);
        let cs = be16_at(d, q + 16);
        if t + bl > d.len() {
            Err(StringDataError::Malformed)
        } else {
            let bytes = d.subrange(t, t + bl);
            if cs == 0 {
                Ok(utf8_lossy(bytes))
            } else if deciphered(bytes, cs) is None {
                Err(StringDataError::TruncatedCipherText)
            } else {
                Ok(utf8_lossy(deciphered(bytes, cs)->0))
            }
        }
    }
}

/// The text of parts `ip..pc` of a Taken King combination whose parts start at `dt`.
pub open spec fn combination_text_d1(d: Seq<u8>, dt: int, pc: int, ip: int) -> Result<Seq<char>, StringDataError>
    decreases pc - ip,
{
    if ip >= pc {
        Ok(seq![])
    } else {
        match part_text_d1(d, dt + 20 * ip) {
            Err(e) => Err(e),
            Ok(s) => match combination_text_d1(d, dt, pc, ip + 1) {
                Err(e) => Err(e),
                Ok(rest) => Ok(s + rest),
            },
        }
    }
}

/// The strings of Taken King combinations `k..n`: a combination with the empty hash is
/// skipped before its parts are read.
pub open spec fn combination_strings_d1(d: Seq<u8>, t4: int, hashes: Seq<u32>, k: int, n: int) -> Result<
    Seq<(u32, Seq<char>)>,
    StringDataError,
>
    decreases n - k,
{
    if k >= n {
        Ok(seq![])
    } else if hashes[k] == FNV1_BASE {
        combination_strings_d1(d, t4, hashes, k + 1, n)
    } else {
        let c = t4 + 8 * k;
        let dt = rel32_at(d, c)->0;
        let pc = signed32(be32_at(d, c + 4));
        match combination_text_d1(d, dt, pc, 0) {
            Err(e) => Err(e),
            Ok(s) => match combination_strings_d1(d, t4, hashes, k + 1, n) {
                Err(e) => Err(e),
                Ok(rest) => Ok(seq![(hashes[k], s)] + rest),
            },
        }
    }
}

/// The strings of Taken King string data: nothing (`None`) when its header cannot be read,
/// else its strings paired in order with `hashes`.
pub open spec fn string_data_d1_strings(d: Seq<u8>, hashes: Seq<u32>) -> Result<
    Option<Seq<(u32, Seq<char>)>>,
    StringDataError,
> {
    if !string_data_d1_header_ok(d) {
        Ok(None)
    } else {
        let (count, t4) = table32_at(d, 36)->0;
        let n = if count < hashes.len() { count as int } else { hashes.len() as int };
        match combination_strings_d1(d, t4, hashes, 0, n) {
            Ok(v) => Ok(Some(v)),
            Err(e) => Err(e),
        }
    }
}

pub(crate) fn read_be32(d: &[u8], p: u64) -> (r: Option<u32>)
    ensures
        r is Some <==> p + 4 <= d@.len(),
        r matches Some(v) ==> v == be32_at(d@, p as int),
{
    if p > d.len() as u64 || (d.len() as u64) - p < 4 {
        None
    } else {
        Some(read_u32_at(d, p as usize, Endian::Big))
    }
}

/// `base + signed32(off) + extra`, when it can be sought to.
pub(crate) fn offset32_target(base: u64, off: u32, extra: u64) -> (r: Option<u64>)
    requires
        extra <= 16,
    ensures
        r is Some <==> seekable(base + signed32(off) + extra),
        r matches Some(t) ==> t == base + signed32(off) + extra,
{
    if off < 0x8000_0000 {
        let o = off as u64 + extra;
        if base > u64::MAX - o {
            return None;
        }
        Some(base + o)
    } else {
        let neg = 0x1_0000_0000u64 - off as u64;
        if base >= neg {
            let s = base - neg;
            if s > u64::MAX - extra {
                return None;
            }
            Some(s + extra)
        } else {
            let short = neg - base;
            if extra >= short {
                Some(extra - short)
            } else {
                None
            }
        }
    }
}

pub(crate) fn read_table32(d: &[u8], p: u64) -> (r: Option<(u64, u64)>)
    ensures
        r is Some <==> table32_at(d@, p as int) is Some,
        r matches Some((c, t)) ==> table32_at(d@, p as int) == Some((c as nat, t as int)),
{
    if p > d.len() as u64 || (d.len() as u64) - p < 8 {
        return None;
    }
    let count = match read_be32(d, p) {
        Some(c) => c,
        None => return None,
    };
    let off = match read_be32(d, p + 4) {
        Some(o) => o,
        None => return None,
    };
    match offset32_target(p + 4, off, 16) {
        Some(t) => Some((count as u64, t)),
        None => None,
    }
}

pub(crate) fn read_rel32(d: &[u8], p: u64) -> (r: Option<u64>)
    ensures
        r is Some <==> rel32_at(d@, p as int) is Some,
        r matches Some(t) ==> rel32_at(d@, p as int) == Some(t as int),
{
    let off = match read_be32(d, p) {
        Some(o) => o,
        None => return None,
    };
    offset32_target(p, off, 0)
}

pub(crate) fn check_elements32(d: &[u8], t: u64, count: u64, size: u64, rel: i64) -> (r: bool)
    requires
        1 <= size <= 32,
        rel < size,
    ensures
        r == elements32_read(d@, t as int, count as nat, size as int, rel as int),
{
    let len = d.len() as u64;
    if t > len || (len - t) / size < count {
        proof {
            if t <= len {
                assert(count * size > len - t) by (nonlinear_arith)
                    requires
                        (len - t) / (size as int) < count,
                        size >= 1,
                        len >= t,
                ;
            }
        }
        return false;
    }
    assert(count * size <= len - t) by (nonlinear_arith)
        requires
            (len - t) / (size as int) >= count,
            size >= 1,
            len >= t,
    ;
    if rel < 0 {
        return true;
    }
    let mut k: u64 = 0;
    while k < count
        invariant
            k <= count,
            d@.len() == d.len(),
            t + count * size <= d@.len(),
            1 <= size <= 32,
            0 <= rel < size,
            forall|j: int| 0 <= j < k ==> (#[trigger] rel32_at(d@, t + j * size + rel)) is Some,
        decreases count - k,
    {
        assert(k * size + rel < count * size) by (nonlinear_arith)
            requires
                k < count,
                rel < size,
                rel >= 0,
        ;
        let q = t + k * size + rel as u64;
        if read_rel32(d, q).is_none() {
            return false;
        }
        k += 1;
    }
    true
}

fn read_string_data_d1_header(d: &[u8]) -> (r: Option<(u64, u64)>)
    ensures
        r is Some <==> string_data_d1_header_ok(d@),
        r matches Some((c, t)) ==> table32_at(d@, 36) == Some((c as nat, t as int)),
{
    let size = match read_be32(d, 0) {
        Some(s) => s,
        None => return None,
    };
    if size >= 0xF00000 {
        return None;
    }
    let (c1, t1) = match read_table32(d, 4) {
        Some(x) => x,
        None => return None,
    };
    if !check_elements32(d, t1, c1, 20, 4) {
        return None;
    }
    if read_table32(d, 20).is_none() {
        return None;
    }
    let (c3, t3) = match read_table32(d, 28) {
        Some(x) => x,
        None => return None,
    };
    if !check_elements32(d, t3, c3, 1, -1) {
        return None;
    }
    let (c4, t4) = match read_table32(d, 36) {
        Some(x) => x,
        None => return None,
    };
    if !check_elements32(d, t4, c4, 8, 0) {
        return None;
    }
    Some((c4, t4))
}

fn read_part_text_d1(d: &[u8], q: u64) -> (r: Result<String, StringDataError>)
    ensures
        match part_text_d1(d@, q as int) {
            Ok(s) => r matches Ok(x) && x@ == s,
            Err(e) => r == Err::<String, StringDataError>(e),
        },
{
    let len = d.len() as u64;
    if q > len || len - q < 20 {
        return Err(StringDataError::Malformed);
    }
    let t = match read_rel32(d, q + 4) {
        Some(t) => t,
        None => return Err(StringDataError::Malformed),
    };
    let qs = q as usize;
    let bl = read_u16_at(d, qs + 12, Endian::Big);
    let cs = read_u16_at(d, qs + 16, Endian::Big);
    if t > len || len - t < bl as u64 {
        return Err(StringDataError::Malformed);
    }
    let ts = t as usize;
    let bytes = vstd::slice::slice_subrange(d, ts, ts + bl as usize);
    if cs != 0 {
        if crate::text::decipher_text(bytes, cs).is_none() {
            return Err(StringDataError::TruncatedCipherText);
        }
    }
    Ok(decode_text(bytes, cs))
}

fn read_combination_text_d1(d: &[u8], dt: u64, pc: u32) -> (r: Result<String, StringDataError>)
    ensures
        match combination_text_d1(d@, dt as int, signed32(pc), 0) {
            Ok(s) => r matches Ok(x) && x@ == s,
            Err(e) => r == Err::<String, StringDataError>(e),
        },
{
    let mut out = String::new();
    if pc >= 0x8000_0000 {
        return Ok(out);
    }
    let pcu = pc as u64;
    let ghost total = combination_text_d1(d@, dt as int, pcu as int, 0);
    assert(signed32(pc) == pcu);
    let mut ip: u64 = 0;
    while ip < pcu
        invariant
            ip <= pcu,
            pcu < 0x8000_0000,
            signed32(pc) == pcu,
            total == combination_text_d1(d@, dt as int, pcu as int, 0),
            match combination_text_d1(d@, dt as int, pcu as int, ip as int) {
                Ok(rest) => total matches Ok(all) && all == out@ + rest,
                Err(e) => total == Err::<Seq<char>, StringDataError>(e),
            },
        decreases pcu - ip,
    {
        let len = d.len() as u64;
        if dt > len || (len - dt) / 20 <= ip {
            proof {
                if dt <= len {
                    assert(dt + 20 * ip + 20 > len) by (nonlinear_arith)
                        requires
                            (len - dt) / 20 <= ip,
                            dt <= len,
                    ;
                }
            }
            return Err(StringDataError::Malformed);
        }
        assert(dt + 20 * ip + 20 <= len) by (nonlinear_arith)
            requires
                (len - dt) / 20 > ip,
                dt <= len,
        ;
        let q = dt + 20 * ip;
        match read_part_text_d1(d, q) {
            Err(e) => {
                return Err(e);
            },
            Ok(s) => {
                let ghost before = out@;
                push_str(&mut out, s.as_str());
                proof {
                    match combination_text_d1(d@, dt as int, pcu as int, ip + 1) {
                        Ok(rest) => {
                            assert(out@ + rest =~= before + (s@ + rest));
                        },
                        Err(e) => {},
                    }
                }
            },
        }
        ip += 1;
    }
    proof {
        assert(out@ + seq![] =~= out@);
    }
    Ok(out)
}

/// Reads the strings of Taken King string data (big endian with 32-bit table and relative
/// pointers): `None` when the header or its tables cannot be read (the original skips such a
/// table), else the strings of its combinations, each paired with the hash at the same place
/// of `hashes` (as far as both go). Combinations whose hash is the empty FNV-1 hash are
/// skipped unread; the parts of the others, 20 bytes apart from where the combination's
/// pointer leads, give their bytes decoded (see `decode_text`).
pub fn read_string_data_d1(data: &[u8], hashes: &[u32]) -> (r: Result<Option<Vec<(u32, String)>>, StringDataError>)
    ensures
        match string_data_d1_strings(data@, hashes@) {
            Ok(None) => r matches Ok(None),
            Ok(Some(v)) => r matches Ok(Some(x)) && hashed_strings(x@) == v,
            Err(e) => r == Err::<Option<Vec<(u32, String)>>, StringDataError>(e),
        },
{
    let (count, t4) = match read_string_data_d1_header(data) {
        Some(x) => x,
        None => return Ok(None),
    };
    let n: u64 = if count < hashes.len() as u64 {
        count
    } else {
        hashes.len() as u64
    };
    let ghost d = data@;
    let ghost total = combination_strings_d1(d, t4 as int, hashes@, 0, n as int);
    let ghost whole = string_data_d1_strings(data@, hashes@);
    assert(whole == (match total {
        Ok(v) => Ok(Some(v)),
        Err(e) => Err(e),
    }));
    let mut out: Vec<(u32, String)> = Vec::new();
    let mut k: u64 = 0;
    while k < n
        invariant
            k <= n,
            n <= count,
            n <= hashes@.len(),
            data@.len() == data.len(),
            elements32_read(d, t4 as int, count as nat, 8, 0),
            d == data@,
            string_data_d1_header_ok(d),
            table32_at(d, 36) == Some((count as nat, t4 as int)),
            total == combination_strings_d1(d, t4 as int, hashes@, 0, n as int),
            whole == string_data_d1_strings(data@, hashes@),
            whole == (match total {
                Ok(v) => Ok(Some(v)),
                Err(e) => Err::<Option<Seq<(u32, Seq<char>)>>, StringDataError>(e),
            }),
            match combination_strings_d1(d, t4 as int, hashes@, k as int, n as int) {
                Ok(rest) => total matches Ok(all) && all == hashed_strings(out@) + rest,
                Err(e) => total == Err::<Seq<(u32, Seq<char>)>, StringDataError>(e),
            },
        decreases n - k,
    {
        let h = hashes[k as usize];
        if h != 0x811c9dc5 {
            assert(8 * k + 8 <= count * 8) by (nonlinear_arith)
                requires
                    k < n,
                    n <= count,
            ;
            let c = t4 + 8 * k;
            assert(rel32_at(d, t4 + k * 8 + 0) is Some);
            assert(t4 + k * 8 + 0 == c);
            let dt = match read_rel32(data, c) {
                Some(x) => x,
                None => return Err(StringDataError::Malformed),
            };
            let pc = read_u32_at(data, (c + 4) as usize, Endian::Big);
            assert(pc == be32_at(d, c + 4));
            match read_combination_text_d1(data, dt, pc) {
                Err(e) => {
                    assert(combination_strings_d1(d, t4 as int, hashes@, k as int, n as int) == Err::<
                        Seq<(u32, Seq<char>)>,
                        StringDataError,
                    >(e));
                    return Err(e);
                },
                Ok(s) => {
                    let ghost before = out@;
                    out.push((h, s));
                    proof {
                        match combination_strings_d1(d, t4 as int, hashes@, k + 1, n as int) {
                            Ok(rest) => {
                                assert(hashed_strings(out@) =~= hashed_strings(before).push((h, s@)));
                                assert(hashed_strings(out@) + rest =~= hashed_strings(before) + (seq![(h, s@)] + rest));
                            },
                            Err(e) => {},
                        }
                    }
                },
            }
        }
        k += 1;
    }
    proof {
        assert(hashed_strings(out@) + seq![] =~= hashed_strings(out@));
    }
    Ok(Some(out))
}

/// Whether no string occurs twice.
pub open spec fn distinct_strings(v: Seq<Seq<char>>) -> bool {
    forall|i: int, j: int| 0 <= i < j < v.len() ==> v[i] != v[j]
}

/// Adding a string keeps the known strings, each once, and makes the string known; adding the
/// same string a second time changes nothing.
pub proof fn lemma_add_string_once(known: Option<Seq<Seq<char>>>, s: Seq<char>)
    ensures
        strings_with(Some(strings_with(known, s)), s) == strings_with(known, s),
        strings_with(known, s).contains(s),
        known is Some ==> forall|i: int| 0 <= i < known->0.len() ==> #[trigger] strings_with(known, s)[i] == known->0[i],
        (match known {
            Some(v) => distinct_strings(v),
            None => true,
        }) ==> distinct_strings(strings_with(known, s)),
{
    let r = strings_with(known, s);
    match known {
        Some(v) => {
            if !v.contains(s) {
                assert(r[v.len() as int] == s);
            }
        },
        None => {
            assert(r[0] == s);
        },
    }
}

/// Adding a string with a flag makes the string known and keeps the known strings with their
/// flags; adding the same string a second time, with either flag, changes nothing.
pub proof fn lemma_add_named_string_once(known: Option<Seq<(Seq<char>, bool)>>, s: Seq<char>, flag: bool, again: bool)
    ensures
        named_with(Some(named_with(known, s, flag)), s, again) == named_with(known, s, flag),
        has_named(named_with(known, s, flag), s),
        known is Some ==> forall|i: int| 0 <= i < known->0.len() ==> #[trigger] named_with(known, s, flag)[i] == known->0[i],
{
    let r = named_with(known, s, flag);
    match known {
        Some(v) => {
            if !has_named(v, s) {
                assert(r[v.len() as int].0 == s);
            }
        },
        None => {
            assert(r[0].0 == s);
        },
    }
}

} // verus!
