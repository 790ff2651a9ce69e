//! Localized strings of the early Destiny releases. The internal alpha keeps big-endian
//! containers and string data whose combinations hold tables of UTF-16 parts; the First Look
//! alpha keeps little-endian containers and string data whose parts point at the start and end
//! of their UTF-16 text.
use vstd::prelude::*;
use crate::bytes::{read_u16_at, read_u32_at, read_u64_at, Endian};
use crate::hash::FNV1_BASE;
use crate::localized::{
    be16_at, be32_at, check_elements, check_elements32, elements32_read, elements_read, hashed_strings, read64,
    read_be32, read_rel, read_rel32, read_table, read_table32, read_tag_at, rel32_at, rel_at, signed, table32_at,
    string_container_class, string_data_old_format, string_reference_type, table_at, u32_at, u64_at, StringDataError,
};
use crate::version::{destiny_rank, DestinyVersion, GameVersion};
use crate::strutil::push_str;
use crate::taghash::TagHash;

verus! {

/// Whether a UTF-16 unit is the first half of a surrogate pair.
pub open spec fn is_high_surrogate(u: u16) -> bool {
    0xD800 <= u && u < 0xDC00
}

/// Whether a UTF-16 unit is the second half of a surrogate pair.
pub open spec fn is_low_surrogate(u: u16) -> bool {
    0xDC00 <= u && u < 0xE000
}

/// The characters of UTF-16 units: a high surrogate followed by a low one gives the character
/// they encode, any other surrogate gives U+FFFD, any other unit the character of its value.
pub open spec fn utf16_decode(u: Seq<u16>) -> Seq<char>
    decreases u.len(),
{
    if u.len() == 0 {
        seq![]
    } else if u.len() >= 2 && is_high_surrogate(u[0]) && is_low_surrogate(u[1]) {
        seq![(0x10000 + (u[0] - 0xD800) * 0x400 + (u[1] - 0xDC00)) as char] + utf16_decode(
            u.subrange(2, u.len() as int),
        )
    } else if is_high_surrogate(u[0]) || is_low_surrogate(u[0]) {
        seq!['\u{FFFD}'] + utf16_decode(u.drop_first())
    } else {
        seq![u[0] as char] + utf16_decode(u.drop_first())
    }
}

/// Whether UTF-16 units are well formed: every surrogate is part of a high-low pair.
pub open spec fn utf16_valid(u: Seq<u16>) -> bool
    decreases u.len(),
{
    if u.len() == 0 {
        true
    } else if u.len() >= 2 && is_high_surrogate(u[0]) && is_low_surrogate(u[1]) {
        utf16_valid(u.subrange(2, u.len() as int))
    } else if is_high_surrogate(u[0]) || is_low_surrogate(u[0]) {
        false
    } else {
        utf16_valid(u.drop_first())
    }
}

/// Decodes UTF-16 units with `String::from_utf16_lossy`, which the standard library documents
/// as decoding UTF-16 and putting U+FFFD in place of each unpaired surrogate
/// (`utf16_decode`).
#[verifier::external_body]
fn utf16_lossy_string(units: &[u16]) -> (r: String)
    ensures
        r@ == utf16_decode(units@),
{
    String::from_utf16_lossy(units)
}

/// Decodes UTF-16 units with `String::from_utf16`, which the standard library documents as
/// failing exactly on an unpaired surrogate and otherwise giving the decoded characters.
#[verifier::external_body]
fn utf16_string(units: &[u16]) -> (r: Option<String>)
    ensures
        r is Some <==> utf16_valid(units@),
        r matches Some(s) ==> s@ == utf16_decode(units@),
{
    match String::from_utf16(units) {
        Ok(s) => Some(s),
        Err(_) => None,
    }
}

/// A string data result with `out` in front of its text.
pub open spec fn prefixed(out: Seq<char>, r: Result<Seq<char>, StringDataError>) -> Result<Seq<char>, StringDataError> {
    match r {
        Ok(rest) => Ok(out + rest),
        Err(e) => Err(e),
    }
}

/// Whether an executable result is the stated one.
pub open spec fn text_result(r: Result<String, StringDataError>, s: Result<Seq<char>, StringDataError>) -> bool {
    match s {
        Ok(t) => r matches Ok(x) && x@ == t,
        Err(e) => r == Err::<String, StringDataError>(e),
    }
}

/// A list of strings with their hashes with `out` in front of it.
pub open spec fn prefixed_strings(
    out: Seq<(u32, Seq<char>)>,
    r: Result<Seq<(u32, Seq<char>)>, StringDataError>,
) -> Result<Seq<(u32, Seq<char>)>, StringDataError> {
    match r {
        Ok(rest) => Ok(out + rest),
        Err(e) => Err(e),
    }
}

/// Whether an executable list of strings is the stated one.
pub open spec fn strings_result(
    r: Result<Option<Vec<(u32, String)>>, StringDataError>,
    s: Result<Option<Seq<(u32, Seq<char>)>>, StringDataError>,
) -> bool {
    match s {
        Ok(None) => r matches Ok(None),
        Ok(Some(v)) => r matches Ok(Some(x)) && hashed_strings(x@) == v,
        Err(e) => r == Err::<Option<Vec<(u32, String)>>, StringDataError>(e),
    }
}

// ---------------------------------------------------------------------------------------------
// Containers

/// The string container of the big-endian releases: the hashes of its strings and the tag of
/// its English string data.
pub struct StringContainerD1 {
    pub file_size: u32,
    pub string_hashes: Vec<u32>,
    pub language_english: TagHash,
}

/// Whether a big-endian string container can be read: its hash table lies in the data and the
/// English tag follows the table pointer.
pub open spec fn string_container_d1_ok(d: Seq<u8>) -> bool {
    &&& d.len() >= 16
    &&& table32_at(d, 4) matches Some((c, t)) && elements32_read(d, t, c, 4, -1)
}

impl StringContainerD1 {
    /// Reads a big-endian string container: its size, the table of string hashes, and the
    /// English tag at offset 12; `None` where that does not fit the data.
    pub fn read(data: &[u8]) -> (r: Option<StringContainerD1>)
        ensures
            r is Some <==> string_container_d1_ok(data@),
            r matches Some(c) ==> {
                &&& c.file_size == be32_at(data@, 0)
                &&& table32_at(data@, 4) matches Some((count, t)) && c.string_hashes@.len() == count && forall|i: int|
                    0 <= i < count ==> #[trigger] c.string_hashes@[i] == be32_at(data@, t + 4 * i)
                &&& c.language_english.0 == be32_at(data@, 12)
            },
    {
        if data.len() < 16 {
            return None;
        }
        let (count, t) = match read_table32(data, 4) {
            Some(x) => x,
            None => return None,
        };
        if !check_elements32(data, t, count, 4, -1) {
            return None;
        }
        let mut hashes: Vec<u32> = Vec::new();
        let mut i: u64 = 0;
        while i < count
            invariant
                i <= count,
                data@.len() == data.len(),
                t + count * 4 <= data@.len(),
                hashes@.len() == i,
                forall|j: int| 0 <= j < i ==> #[trigger] hashes@[j] == be32_at(data@, t + 4 * j),
            decreases count - i,
        {
            assert(4 * i + 4 <= count * 4) by (nonlinear_arith)
                requires
                    i < count,
            ;
            let v = read_u32_at(data, (t + 4 * i) as usize, Endian::Big);
            hashes.push(v);
            i += 1;
        }
        Some(
            StringContainerD1 {
                file_size: read_u32_at(data, 0, Endian::Big),
                string_hashes: hashes,
                language_english: TagHash(read_u32_at(data, 12, Endian::Big)),
            },
        )
    }
}

/// The string container of the First Look alpha (little endian, 64-bit pointers): the hashes
/// of its strings and the tag of its English string data.
pub struct StringContainerD1FirstLook {
    pub file_size: u64,
    pub string_hashes: Vec<u32>,
    pub language_english: TagHash,
}

/// Whether a First Look string container can be read: its hash table lies in the data and the
/// English tag follows the table pointer.
pub open spec fn string_container_firstlook_ok(d: Seq<u8>) -> bool {
    &&& d.len() >= 28
    &&& table_at(d, 8) matches Some((c, t)) && elements_read(d, t, c, 4, -1)
}

impl StringContainerD1FirstLook {
    /// Reads a First Look string container: its size, the table of string hashes, and the
    /// English tag at offset 24; `None` where that does not fit the data.
    pub fn read(data: &[u8]) -> (r: Option<StringContainerD1FirstLook>)
        ensures
            r is Some <==> string_container_firstlook_ok(data@),
            r matches Some(c) ==> {
                &&& c.file_size == u64_at(data@, 0)
                &&& table_at(data@, 8) matches Some((count, t)) && c.string_hashes@.len() == count && forall|i: int|
                    0 <= i < count ==> #[trigger] c.string_hashes@[i] == u32_at(data@, t + 4 * i)
                &&& c.language_english.0 == u32_at(data@, 24)
            },
    {
        if data.len() < 28 {
            return None;
        }
        let (count, t) = match read_table(data, 8) {
            Some(x) => x,
            None => return None,
        };
        if !check_elements(data, t, count, 4, -1) {
            return None;
        }
        let mut hashes: Vec<u32> = Vec::new();
        let mut i: u64 = 0;
        while i < count
            invariant
                i <= count,
                data@.len() == data.len(),
                t + count * 4 <= data@.len(),
                hashes@.len() == i,
                forall|j: int| 0 <= j < i ==> #[trigger] hashes@[j] == u32_at(data@, t + 4 * j),
            decreases count - i,
        {
            assert(4 * i + 4 <= count * 4) by (nonlinear_arith)
                requires
                    i < count,
            ;
            let v = read_u32_at(data, (t + 4 * i) as usize, Endian::Little);
            hashes.push(v);
            i += 1;
        }
        Some(
            StringContainerD1FirstLook {
                file_size: read_u64_at(data, 0, Endian::Little),
                string_hashes: hashes,
                language_english: read_tag_at(data, 24),
            },
        )
    }
}

// ---------------------------------------------------------------------------------------------
// Internal alpha string data (big endian, 32-bit pointers)

/// The `n` big-endian UTF-16 units from `start`.
pub open spec fn be_units(d: Seq<u8>, start: int, n: nat) -> Seq<u16> {
    Seq::new(n, |i: int| be16_at(d, start + 2 * i))
}

/// The text of the internal alpha part at `q`: the UTF-16 units between its start and end
/// pointers (half the distance, rounded down), decoded.
pub open spec fn alpha_part_text(d: Seq<u8>, q: int) -> Result<Seq<char>, StringDataError> {
    if rel32_at(d, q + 12) is None || rel32_at(d, q + 16) is None {
        Err(StringDataError::Malformed)
    } else {
        let s = rel32_at(d, q + 12)->0;
        let e = rel32_at(d, q + 16)->0;
        let n = (e - s) / 2;
        if e < s || s + 2 * n > d.len() {
            Err(StringDataError::Malformed)
        } else {
            Ok(utf16_decode(be_units(d, s, n as nat)))
        }
    }
}

/// The text of parts `j..pc` of an internal alpha combination whose parts start at `pt`.
pub open spec fn alpha_combination_text(d: Seq<u8>, pt: int, pc: int, j: int) -> Result<Seq<char>, StringDataError>
    decreases pc - j,
{
    if j >= pc {
        Ok(seq![])
    } else {
        match alpha_part_text(d, pt + 20 * j) {
            Err(e) => Err(e),
            Ok(s) => match alpha_combination_text(d, pt, pc, j + 1) {
                Err(e) => Err(e),
                Ok(rest) => Ok(s + rest),
            },
        }
    }
}

/// Whether the internal alpha combination at `c` can be read: its table of 20-byte parts lies
/// in the data, each with readable start and end pointers.
pub open spec fn alpha_combination_ok(d: Seq<u8>, c: int) -> bool {
    &&& table32_at(d, c) matches Some((pc, pt))
    &&& elements32_read(d, pt, pc, 20, 12)
    &&& elements32_read(d, pt, pc, 20, 16)
}

/// Whether the internal alpha string data header and its tables can be read.
pub open spec fn string_data_alpha_header_ok(d: Seq<u8>) -> bool {
    &&& table32_at(d, 12) matches Some((c2, t2)) && elements32_read(d, t2, c2, 2, -1)
    &&& table32_at(d, 20) matches Some((c3, t3))
    &&& elements32_read(d, t3, c3, 8, -1)
    &&& forall|k: int| 0 <= k < c3 ==> #[trigger] alpha_combination_ok(d, t3 + 8 * k)
}

/// The strings of internal alpha combinations `k..n`: a combination with the empty hash is
/// skipped before its parts are read.
pub open spec fn alpha_combination_strings(d: Seq<u8>, t3: int, hashes: Seq<u32>, k: int, n: int) -> Result<
    Seq<(u32, Seq<char>)>,
    StringDataError,
>
    decreases n - k,
{
    if k >= n {
        Ok(seq![])
    } else if hashes[k] == FNV1_BASE {
        alpha_combination_strings(d, t3, hashes, k + 1, n)
    } else {
        let (pc, pt) = table32_at(d, t3 + 8 * k)->0;
        match alpha_combination_text(d, pt, pc as int, 0) {
            Err(e) => Err(e),
            Ok(s) => match alpha_combination_strings(d, t3, hashes, k + 1, n) {
                Err(e) => Err(e),
                Ok(rest) => Ok(seq![(hashes[k], s)] + rest),
            },
        }
    }
}

/// The strings of internal alpha string data: nothing (`None`) when its header cannot be read,
/// else its strings paired in order with `hashes`.
pub open spec fn string_data_alpha_strings(d: Seq<u8>, hashes: Seq<u32>) -> Result<
    Option<Seq<(u32, Seq<char>)>>,
    StringDataError,
> {
    if !string_data_alpha_header_ok(d) {
        Ok(None)
    } else {
        let (count, t3) = table32_at(d, 20)->0;
        let n = if count < hashes.len() {
            count as int
        } else {
            hashes.len() as int
        };
        match alpha_combination_strings(d, t3, hashes, 0, n) {
            Ok(v) => Ok(Some(v)),
            Err(e) => Err(e),
        }
    }
}

fn check_alpha_combination(d: &[u8], c: u64) -> (r: Option<(u64, u64)>)
    ensures
        r is Some <==> alpha_combination_ok(d@, c as int),
        r matches Some((pc, pt)) ==> table32_at(d@, c as int) == Some((pc as nat, pt as int)),
{
    let (pc, pt) = match read_table32(d, c) {
        Some(x) => x,
        None => return None,
    };
    if !check_elements32(d, pt, pc, 20, 12) || !check_elements32(d, pt, pc, 20, 16) {
        return None;
    }
    Some((pc, pt))
}

fn read_string_data_alpha_header(d: &[u8]) -> (r: Option<(u64, u64)>)
    ensures
        r is Some <==> string_data_alpha_header_ok(d@),
        r matches Some((c, t)) ==> table32_at(d@, 20) == Some((c as nat, t as int)),
{
    let (c2, t2) = match read_table32(d, 12) {
        Some(x) => x,
        None => return None,
    };
    if !check_elements32(d, t2, c2, 2, -1) {
        return None;
    }
    let (c3, t3) = match read_table32(d, 20) {
        Some(x) => x,
        None => return None,
    };
    if !check_elements32(d, t3, c3, 8, -1) {
        return None;
    }
    let mut k: u64 = 0;
    while k < c3
        invariant
            k <= c3,
            d@.len() == d.len(),
            t3 + c3 * 8 <= d@.len(),
            table32_at(d@, 20) == Some((c3 as nat, t3 as int)),
            table32_at(d@, 12) matches Some((c2, t2)) && elements32_read(d@, t2, c2, 2, -1),
            elements32_read(d@, t3 as int, c3 as nat, 8, -1),
            forall|j: int| 0 <= j < k ==> #[trigger] alpha_combination_ok(d@, t3 + 8 * j),
        decreases c3 - k,
    {
        assert(8 * k + 8 <= c3 * 8) by (nonlinear_arith)
            requires
                k < c3,
        ;
        if check_alpha_combination(d, t3 + 8 * k).is_none() {
            proof {
                let (cc, tt) = table32_at(d@, 20)->0;
                assert(0 <= k < cc && !alpha_combination_ok(d@, tt + 8 * k));
            }
            return None;
        }
        k += 1;
    }
    Some((c3, t3))
}

fn read_alpha_part_text(d: &[u8], q: u64) -> (r: Result<String, StringDataError>)
    requires
        q + 20 <= d@.len(),
    ensures
        text_result(r, alpha_part_text(d@, q as int)),
{
    let len = d.len() as u64;
    assert(q + 20 <= len);
    let s = match read_rel32(d, q + 12) {
        Some(x) => x,
        None => return Err(StringDataError::Malformed),
    };
    let e = match read_rel32(d, q + 16) {
        Some(x) => x,
        None => return Err(StringDataError::Malformed),
    };
    if e < s {
        return Err(StringDataError::Malformed);
    }
    let n = (e - s) / 2;
    if s > len || (len - s) / 2 < n {
        return Err(StringDataError::Malformed);
    }
    let mut units: Vec<u16> = Vec::new();
    let mut i: u64 = 0;
    while i < n
        invariant
            i <= n,
            d@.len() == d.len(),
            s + 2 * n <= d@.len(),
            units@ == be_units(d@, s as int, i as nat),
        decreases n - i,
    {
        let u = read_u16_at(d, (s + 2 * i) as usize, Endian::Big);
        units.push(u);
        i += 1;
        assert(units@ =~= be_units(d@, s as int, i as nat));
    }
    Ok(utf16_lossy_string(units.as_slice()))
}

fn read_alpha_combination_text(d: &[u8], pt: u64, pc: u64) -> (r: Result<String, StringDataError>)
    requires
        pt + pc * 20 <= d@.len(),
    ensures
        text_result(r, alpha_combination_text(d@, pt as int, pc as int, 0)),
{
    let mut out = String::new();
    let ghost total = alpha_combination_text(d@, pt as int, pc as int, 0);
    let mut j: u64 = 0;
    while j < pc
        invariant
            j <= pc,
            d@.len() == d.len(),
            pt + pc * 20 <= d@.len(),
            total == alpha_combination_text(d@, pt as int, pc as int, 0),
            total == prefixed(out@, alpha_combination_text(d@, pt as int, pc as int, j as int)),
        decreases pc - j,
    {
        assert(20 * j + 20 <= pc * 20) by (nonlinear_arith)
            requires
                j < pc,
        ;
        match read_alpha_part_text(d, pt + 20 * j) {
            Err(e) => {
                return Err(e);
            },
            Ok(s) => {
                let ghost before = out@;
                push_str(&mut out, s.as_str());
                proof {
                    match alpha_combination_text(d@, pt as int, pc as int, j + 1) {
                        Ok(rest) => {
                            assert(out@ + rest =~= before + (s@ + rest));
                        },
                        Err(e) => {},
                    }
                }
            },
        }
        j += 1;
    }
    proof {
        assert(out@ + seq![] =~= out@);
    }
    Ok(out)
}

/// Reads the strings of internal alpha string data (big endian with 32-bit table and relative
/// pointers): `None` when the header or its tables cannot be read (the original skips such a
/// table), else the strings of its combinations, each paired with the hash at the same place
/// of `hashes` (as far as both go). Combinations whose hash is the empty FNV-1 hash are
/// skipped; the others join their parts, each the big-endian UTF-16 text between its two
/// pointers, decoded with unpaired surrogates replaced.
pub fn read_string_data_d1_alpha(data: &[u8], hashes: &[u32]) -> (r: Result<
    Option<Vec<(u32, String)>>,
    StringDataError,
>)
    ensures
        strings_result(r, string_data_alpha_strings(data@, hashes@)),
{
    let (count, t3) = match read_string_data_alpha_header(data) {
        Some(x) => x,
        None => return Ok(None),
    };
    let n: u64 = if count < hashes.len() as u64 {
        count
    } else {
        hashes.len() as u64
    };
    let ghost d = data@;
    let ghost total = alpha_combination_strings(d, t3 as int, hashes@, 0, n as int);
    let ghost whole = string_data_alpha_strings(data@, hashes@);
    assert(whole == (match total {
        Ok(v) => Ok(Some(v)),
        Err(e) => Err::<Option<Seq<(u32, Seq<char>)>>, StringDataError>(e),
    }));
    let mut out: Vec<(u32, String)> = Vec::new();
    let mut k: u64 = 0;
    while k < n
        invariant
            k <= n,
            n <= count,
            n <= hashes@.len(),
            d == data@,
            data@.len() == data.len(),
            string_data_alpha_header_ok(d),
            table32_at(d, 20) == Some((count as nat, t3 as int)),
            total == alpha_combination_strings(d, t3 as int, hashes@, 0, n as int),
            whole == string_data_alpha_strings(data@, hashes@),
            whole == (match total {
                Ok(v) => Ok(Some(v)),
                Err(e) => Err::<Option<Seq<(u32, Seq<char>)>>, StringDataError>(e),
            }),
            total == prefixed_strings(hashed_strings(out@), alpha_combination_strings(d, t3 as int, hashes@, k as int, n as int)),
        decreases n - k,
    {
        let h = hashes[k as usize];
        if h != 0x811c9dc5 {
            assert(alpha_combination_ok(d, t3 + 8 * k));
            let (pc, pt) = match check_alpha_combination(data, t3 + 8 * k) {
                Some(x) => x,
                None => return Err(StringDataError::Malformed),
            };
            match read_alpha_combination_text(data, pt, pc) {
                Err(e) => {
                    assert(alpha_combination_strings(d, t3 as int, hashes@, k as int, n as int) == Err::<
                        Seq<(u32, Seq<char>)>,
                        StringDataError,
                    >(e));
                    return Err(e);
                },
                Ok(s) => {
                    let ghost before = out@;
                    out.push((h, s));
                    proof {
                        assert(hashed_strings(out@) =~= hashed_strings(before).push((h, s@)));
                        match alpha_combination_strings(d, t3 as int, hashes@, k + 1, n as int) {
                            Ok(rest) => {
                                assert(hashed_strings(out@) + rest =~= hashed_strings(before) + (seq![(h, s@)] + rest));
                            },
                            Err(e) => {},
                        }
                    }
                },
            }
        }
        k += 1;
    }
    proof {
        assert(hashed_strings(out@) + seq![] =~= hashed_strings(out@));
    }
    Ok(Some(out))
}

// ---------------------------------------------------------------------------------------------
// First Look alpha string data (little endian, 64-bit pointers)

/// The 16-bit units of bytes taken two at a time, the last one padded with a zero byte: the
/// first byte of each pair is the high byte when `big`, else the low byte.
pub open spec fn units_of(b: Seq<u8>, big: bool) -> Seq<u16> {
    Seq::new(
        ((b.len() + 1) / 2) as nat,
        |i: int|
            {
                let first = b[2 * i] as int;
                let second = if 2 * i + 1 < b.len() {
                    b[2 * i + 1] as int
                } else {
                    0int
                };
                if big {
                    (first * 256 + second) as u16
                } else {
                    (second * 256 + first) as u16
                }
            },
    )
}

/// Copies bytes into 16-bit units with `bytemuck::pod_collect_to_vec`, whose source copies the
/// bytes into as many zeroed units as they fill, the count rounded up. The units are in the
/// machine's byte order, so the contract says only that they are the pairs read in one of the
/// two orders.
#[verifier::external_body]
fn native_units(bytes: &[u8]) -> (r: Vec<u16>)
    ensures
        r@ == units_of(bytes@, false) || r@ == units_of(bytes@, true),
{
    bytemuck::pod_collect_to_vec(bytes)
}

/// The text of the First Look part at `q`, its units taken in the byte order `big`: the bytes
/// between its start and end pointers, which must be well-formed UTF-16.
pub open spec fn firstlook_part_text(d: Seq<u8>, q: int, big: bool) -> Result<Seq<char>, StringDataError> {
    if q < 0 || q + 32 > d.len() || rel_at(d, q + 16) is None || rel_at(d, q + 24) is None {
        Err(StringDataError::Malformed)
    } else {
        let s = rel_at(d, q + 16)->0;
        let e = rel_at(d, q + 24)->0;
        if e < s || e > d.len() {
            Err(StringDataError::Malformed)
        } else {
            let u = units_of(d.subrange(s, e), big);
            if utf16_valid(u) {
                Ok(utf16_decode(u))
            } else {
                Err(StringDataError::InvalidUtf16)
            }
        }
    }
}

/// The text of parts `ip..pc` of a First Look combination whose pointer leads to `dt` (the
/// parts are 32 bytes apart from 16 bytes after it), each part's units in the byte order
/// `order(ip)`.
pub open spec fn firstlook_combination_text(
    d: Seq<u8>,
    dt: int,
    pc: int,
    ip: int,
    order: spec_fn(int) -> bool,
) -> Result<Seq<char>, StringDataError>
    decreases pc - ip,
{
    if ip >= pc {
        Ok(seq![])
    } else {
        match firstlook_part_text(d, dt + 16 + 32 * ip, order(ip)) {
            Err(e) => Err(e),
            Ok(s) => match firstlook_combination_text(d, dt, pc, ip + 1, order) {
                Err(e) => Err(e),
                Ok(rest) => Ok(s + rest),
            },
        }
    }
}

/// Whether the First Look string data header and its tables can be read.
pub open spec fn string_data_firstlook_header_ok(d: Seq<u8>) -> bool {
    &&& table_at(d, 8) is Some
    &&& table_at(d, 24) matches Some((c2, t2)) && elements_read(d, t2, c2, 2, -1)
    &&& table_at(d, 40) matches Some((c3, t3)) && elements_read(d, t3, c3, 16, 8)
}

/// The strings of First Look combinations `k..n`, the units of part `ip` of combination `k` in
/// the byte order `order(k, ip)`: a combination with the empty hash is skipped before its parts
/// are read.
pub open spec fn firstlook_combination_strings(
    d: Seq<u8>,
    t3: int,
    hashes: Seq<u32>,
    k: int,
    n: int,
    order: spec_fn(int, int) -> bool,
) -> Result<Seq<(u32, Seq<char>)>, StringDataError>
    decreases n - k,
{
    if k >= n {
        Ok(seq![])
    } else if hashes[k] == FNV1_BASE {
        firstlook_combination_strings(d, t3, hashes, k + 1, n, order)
    } else {
        let c = t3 + 16 * k;
        let dt = rel_at(d, c + 8)->0;
        let pc = signed(u64_at(d, c));
        match firstlook_combination_text(d, dt, pc, 0, |ip: int| order(k, ip)) {
            Err(e) => Err(e),
            Ok(s) => match firstlook_combination_strings(d, t3, hashes, k + 1, n, order) {
                Err(e) => Err(e),
                Ok(rest) => Ok(seq![(hashes[k], s)] + rest),
            },
        }
    }
}

/// The strings of First Look string data, the units of part `ip` of combination `k` in the byte
/// order `order(k, ip)`: nothing (`None`) when its header cannot be read, else its strings
/// paired in order with `hashes`.
pub open spec fn string_data_firstlook_strings(d: Seq<u8>, hashes: Seq<u32>, order: spec_fn(int, int) -> bool) -> Result<
    Option<Seq<(u32, Seq<char>)>>,
    StringDataError,
> {
    if !string_data_firstlook_header_ok(d) {
        Ok(None)
    } else {
        let (count, t3) = table_at(d, 40)->0;
        let n = if count < hashes.len() {
            count as int
        } else {
            hashes.len() as int
        };
        match firstlook_combination_strings(d, t3, hashes, 0, n, order) {
            Ok(v) => Ok(Some(v)),
            Err(e) => Err(e),
        }
    }
}

fn read_string_data_firstlook_header(d: &[u8]) -> (r: Option<(u64, u64)>)
    ensures
        r is Some <==> string_data_firstlook_header_ok(d@),
        r matches Some((c, t)) ==> table_at(d@, 40) == Some((c as nat, t as int)),
{
    if read_table(d, 8).is_none() {
        return None;
    }
    let (c2, t2) = match read_table(d, 24) {
        Some(x) => x,
        None => return None,
    };
    if !check_elements(d, t2, c2, 2, -1) {
        return None;
    }
    let (c3, t3) = match read_table(d, 40) {
        Some(x) => x,
        None => return None,
    };
    if !check_elements(d, t3, c3, 16, 8) {
        return None;
    }
    Some((c3, t3))
}

fn read_firstlook_part_text(d: &[u8], q: u64) -> (r: Result<String, StringDataError>)
    ensures
        exists|big: bool| text_result(r, #[trigger] firstlook_part_text(d@, q as int, big)),
{
    let len = d.len() as u64;
    if q > len || len - q < 32 {
        assert(text_result(Err(StringDataError::Malformed), firstlook_part_text(d@, q as int, false)));
        return Err(StringDataError::Malformed);
    }
    let s = match read_rel(d, q + 16) {
        Some(x) => x,
        None => {
            assert(text_result(Err(StringDataError::Malformed), firstlook_part_text(d@, q as int, false)));
            return Err(StringDataError::Malformed);
        },
    };
    let e = match read_rel(d, q + 24) {
        Some(x) => x,
        None => {
            assert(text_result(Err(StringDataError::Malformed), firstlook_part_text(d@, q as int, false)));
            return Err(StringDataError::Malformed);
        },
    };
    if e < s || e > len {
        assert(text_result(Err(StringDataError::Malformed), firstlook_part_text(d@, q as int, false)));
        return Err(StringDataError::Malformed);
    }
    let bytes = vstd::slice::slice_subrange(d, s as usize, e as usize);
    let units = native_units(bytes);
    let ghost big = units@ == units_of(bytes@, true);
    assert(units@ == units_of(d@.subrange(s as int, e as int), big));
    match utf16_string(units.as_slice()) {
        Some(t) => {
            assert(text_result(Ok(t), firstlook_part_text(d@, q as int, big)));
            Ok(t)
        },
        None => {
            assert(text_result(Err(StringDataError::InvalidUtf16), firstlook_part_text(d@, q as int, big)));
            Err(StringDataError::InvalidUtf16)
        },
    }
}

/// Whether `o` gives the byte orders that `m` holds for the parts before `ip`.
pub open spec fn orders_agree(o: spec_fn(int) -> bool, m: Map<int, bool>, ip: int) -> bool {
    forall|j: int| 0 <= j < ip ==> m.contains_key(j) && #[trigger] o(j) == m[j]
}

fn read_firstlook_combination_text(d: &[u8], dt: u64, pc_raw: u64) -> (r: Result<String, StringDataError>)
    ensures
        exists|o: spec_fn(int) -> bool| text_result(r, #[trigger] firstlook_combination_text(d@, dt as int, signed(pc_raw), 0, o)),
{
    let mut out = String::new();
    if pc_raw >= 0x8000_0000_0000_0000 {
        let ghost o = |j: int| false;
        assert(text_result(Ok(out), firstlook_combination_text(d@, dt as int, signed(pc_raw), 0, o)));
        return Ok(out);
    }
    let pc = pc_raw;
    assert(signed(pc_raw) == pc);
    let ghost mut m: Map<int, bool> = Map::empty();
    let mut ip: u64 = 0;
    while ip < pc
        invariant
            ip <= pc,
            signed(pc_raw) == pc,
            forall|j: int| 0 <= j < ip ==> #[trigger] m.contains_key(j),
            forall|o: spec_fn(int) -> bool|
                orders_agree(o, m, ip as int) ==> #[trigger] firstlook_combination_text(d@, dt as int, pc as int, 0, o)
                    == prefixed(out@, firstlook_combination_text(d@, dt as int, pc as int, ip as int, o)),
        decreases pc - ip,
    {
        let len = d.len() as u64;
        if dt > len || (len - dt) / 32 <= ip {
            let ghost o = |j: int| if m.contains_key(j) { m[j] } else { false };
            proof {
                assert(orders_agree(o, m, ip as int));
                if dt <= len {
                    assert(dt + 16 + 32 * ip + 32 > len) by (nonlinear_arith)
                        requires
                            (len - dt) / 32 <= ip,
                            dt <= len,
                    ;
                }
                assert(firstlook_part_text(d@, dt + 16 + 32 * ip, o(ip as int)) == Err::<Seq<char>, StringDataError>(
                    StringDataError::Malformed,
                ));
                assert(text_result(
                    Err(StringDataError::Malformed),
                    firstlook_combination_text(d@, dt as int, signed(pc_raw), 0, o),
                ));
            }
            return Err(StringDataError::Malformed);
        }
        assert(dt + 32 * ip + 32 <= len) by (nonlinear_arith)
            requires
                (len - dt) / 32 > ip,
                dt <= len,
        ;
        let q = dt + 16 + 32 * ip;
        let part = read_firstlook_part_text(d, q);
        let ghost big = choose|big: bool| text_result(part, #[trigger] firstlook_part_text(d@, q as int, big));
        assert(text_result(part, firstlook_part_text(d@, q as int, big)));
        match part {
            Err(e) => {
                let ghost o = |j: int| if j < ip { m[j] } else { big };
                proof {
                    assert(orders_agree(o, m, ip as int));
                    assert(firstlook_combination_text(d@, dt as int, pc as int, ip as int, o) == Err::<
                        Seq<char>,
                        StringDataError,
                    >(e));
                    assert(text_result(Err(e), firstlook_combination_text(d@, dt as int, signed(pc_raw), 0, o)));
                }
                return Err(e);
            },
            Ok(s) => {
                let ghost before = out@;
                let ghost m0 = m;
                push_str(&mut out, s.as_str());
                proof {
                    m = m.insert(ip as int, big);
                    assert forall|o: spec_fn(int) -> bool| orders_agree(o, m, ip + 1) implies #[trigger] firstlook_combination_text(
                        d@,
                        dt as int,
                        pc as int,
                        0,
                        o,
                    ) == prefixed(out@, firstlook_combination_text(d@, dt as int, pc as int, ip + 1, o)) by {
                        assert(orders_agree(o, m0, ip as int)) by {
                            assert forall|j: int| 0 <= j < ip implies m0.contains_key(j) && #[trigger] o(j) == m0[j] by {
                                assert(m.contains_key(j) && o(j) == m[j]);
                            }
                        }
                        assert(o(ip as int) == big) by {
                            assert(m.contains_key(ip as int) && o(ip as int) == m[ip as int]);
                        }
                        match firstlook_combination_text(d@, dt as int, pc as int, ip + 1, o) {
                            Ok(rest) => {
                                assert(out@ + rest =~= before + (s@ + rest));
                            },
                            Err(e) => {},
                        }
                    }
                }
            },
        }
        ip += 1;
    }
    let ghost o = |j: int| if m.contains_key(j) { m[j] } else { false };
    proof {
        assert(orders_agree(o, m, ip as int));
        assert(out@ + seq![] =~= out@);
        assert(text_result(Ok(out), firstlook_combination_text(d@, dt as int, signed(pc_raw), 0, o)));
    }
    Ok(out)
}

/// Whether `o` gives the byte orders that `rows` holds for the combinations before `k`.
pub open spec fn row_orders_agree(o: spec_fn(int, int) -> bool, rows: Map<int, spec_fn(int) -> bool>, k: int) -> bool {
    forall|j: int| 0 <= j < k ==> rows.contains_key(j) && #[trigger] rows[j] == (|ip: int| o(j, ip))
}

/// Reads the strings of First Look string data (little endian with 64-bit table and relative
/// pointers): `None` when the header or its tables cannot be read (the original skips such a
/// table), else the strings of its combinations, each paired with the hash at the same place
/// of `hashes` (as far as both go). Combinations whose hash is the empty FNV-1 hash are
/// skipped; the others join their parts, each the UTF-16 text between its two pointers, which
/// must be well formed. The units of each part are taken in the machine's byte order, so the
/// contract holds for some choice of byte order per part.
pub fn read_string_data_d1_firstlook(data: &[u8], hashes: &[u32]) -> (r: Result<
    Option<Vec<(u32, String)>>,
    StringDataError,
>)
    ensures
        exists|o: spec_fn(int, int) -> bool| strings_result(r, #[trigger] string_data_firstlook_strings(data@, hashes@, o)),
{
    let (count, t3) = match read_string_data_firstlook_header(data) {
        Some(x) => x,
        None => {
            let ghost o = |j: int, ip: int| false;
            assert(strings_result(Ok(None), string_data_firstlook_strings(data@, hashes@, o)));
            return Ok(None);
        },
    };
    let n: u64 = if count < hashes.len() as u64 {
        count
    } else {
        hashes.len() as u64
    };
    let ghost d = data@;
    let ghost mut rows: Map<int, spec_fn(int) -> bool> = Map::empty();
    let mut out: Vec<(u32, String)> = Vec::new();
    let mut k: u64 = 0;
    while k < n
        invariant
            k <= n,
            n <= count,
            n <= hashes@.len(),
            n == (if count < hashes@.len() { count } else { hashes@.len() as u64 }),
            d == data@,
            data@.len() == data.len(),
            string_data_firstlook_header_ok(d),
            table_at(d, 40) == Some((count as nat, t3 as int)),
            forall|j: int| 0 <= j < k ==> #[trigger] rows.contains_key(j),
            forall|o: spec_fn(int, int) -> bool|
                row_orders_agree(o, rows, k as int) ==> #[trigger] firstlook_combination_strings(d, t3 as int, hashes@, 0, n as int, o)
                    == prefixed_strings(hashed_strings(out@), firstlook_combination_strings(d, t3 as int, hashes@, k as int, n as int, o)),
        decreases n - k,
    {
        let h = hashes[k as usize];
        let ghost rows0 = rows;
        let ghost before = out@;
        if h == 0x811c9dc5 {
            proof {
                rows = rows.insert(k as int, |ip: int| false);
                assert forall|o: spec_fn(int, int) -> bool| row_orders_agree(o, rows, k + 1) implies #[trigger] firstlook_combination_strings(
                    d,
                    t3 as int,
                    hashes@,
                    0,
                    n as int,
                    o,
                ) == prefixed_strings(hashed_strings(out@), firstlook_combination_strings(d, t3 as int, hashes@, k + 1, n as int, o)) by {
                    assert(row_orders_agree(o, rows0, k as int)) by {
                        assert forall|j: int| 0 <= j < k implies rows0.contains_key(j) && #[trigger] rows0[j] == (|ip: int| o(j, ip)) by {
                            assert(rows.contains_key(j) && rows[j] == (|ip: int| o(j, ip)));
                        }
                    }
                }
            }
        } else {
            assert(8 * k + 16 <= count * 16) by (nonlinear_arith)
                requires
                    k < n,
                    n <= count,
            ;
            let c = t3 + 16 * k;
            assert(rel_at(d, t3 + k * 16 + 8) is Some);
            assert(t3 + k * 16 + 8 == c + 8);
            let dt = match read_rel(data, c + 8) {
                Some(x) => x,
                None => return Err(StringDataError::Malformed),
            };
            let pc_raw = read_u64_at(data, c as usize, Endian::Little);
            assert(pc_raw == u64_at(d, c as int));
            let text = read_firstlook_combination_text(data, dt, pc_raw);
            let ghost ok = choose|o: spec_fn(int) -> bool| text_result(text, #[trigger] firstlook_combination_text(d, dt as int, signed(pc_raw), 0, o));
            assert(text_result(text, firstlook_combination_text(d, dt as int, signed(pc_raw), 0, ok)));
            match text {
                Err(e) => {
                    let ghost o = |j: int, ip: int| if j < k { rows[j](ip) } else { ok(ip) };
                    proof {
                        assert(row_orders_agree(o, rows, k as int)) by {
                            assert forall|j: int| 0 <= j < k implies rows.contains_key(j) && #[trigger] rows[j] == (|ip: int| o(j, ip)) by {
                                assert(rows[j] =~= (|ip: int| o(j, ip)));
                            }
                        }
                        assert((|ip: int| o(k as int, ip)) =~= ok);
                        assert(firstlook_combination_strings(d, t3 as int, hashes@, k as int, n as int, o) == Err::<
                            Seq<(u32, Seq<char>)>,
                            StringDataError,
                        >(e));
                        assert(strings_result(Err(e), string_data_firstlook_strings(data@, hashes@, o)));
                    }
                    return Err(e);
                },
                Ok(s) => {
                    out.push((h, s));
                    proof {
                        rows = rows.insert(k as int, ok);
                        assert(hashed_strings(out@) =~= hashed_strings(before).push((h, s@)));
                        assert forall|o: spec_fn(int, int) -> bool| row_orders_agree(o, rows, k + 1) implies #[trigger] firstlook_combination_strings(
                            d,
                            t3 as int,
                            hashes@,
                            0,
                            n as int,
                            o,
                        ) == prefixed_strings(hashed_strings(out@), firstlook_combination_strings(d, t3 as int, hashes@, k + 1, n as int, o)) by {
                            assert(row_orders_agree(o, rows0, k as int)) by {
                                assert forall|j: int| 0 <= j < k implies rows0.contains_key(j) && #[trigger] rows0[j] == (|ip: int| o(j, ip)) by {
                                    assert(rows.contains_key(j) && rows[j] == (|ip: int| o(j, ip)));
                                }
                            }
                            assert(rows.contains_key(k as int) && rows[k as int] == (|ip: int| o(k as int, ip)));
                            match firstlook_combination_strings(d, t3 as int, hashes@, k + 1, n as int, o) {
                                Ok(rest) => {
                                    assert(hashed_strings(out@) + rest =~= hashed_strings(before) + (seq![(h, s@)] + rest));
                                },
                                Err(e) => {},
                            }
                        }
                    }
                },
            }
        }
        k += 1;
    }
    let ghost o = |j: int, ip: int| if rows.contains_key(j) { rows[j](ip) } else { false };
    proof {
        assert(row_orders_agree(o, rows, k as int)) by {
            assert forall|j: int| 0 <= j < k implies rows.contains_key(j) && #[trigger] rows[j] == (|ip: int| o(j, ip)) by {
                assert(rows[j] =~= (|ip: int| o(j, ip)));
            }
        }
        assert(hashed_strings(out@) + seq![] =~= hashed_strings(out@));
        assert(strings_result(Ok(Some(out)), string_data_firstlook_strings(data@, hashes@, o)));
    }
    Ok(Some(out))
}

// ---------------------------------------------------------------------------------------------
// Which reader a release needs

/// How the localized strings of a release are stored, with the class of their containers.
#[derive(Clone, Copy, Debug, PartialEq, Eq, Structural)]
pub enum StringTableFormat {
    /// Little-endian string data with 64-bit pointers (Rise of Iron and Destiny 2); the older
    /// layout has 16 more header bytes.
    Modern { reference: u32, old_format: bool },
    /// Big-endian string data with 32-bit pointers and ciphered parts.
    TakenKing { reference: u32 },
    /// Big-endian string data with tables of UTF-16 parts.
    InternalAlpha { reference: u32 },
    /// Little-endian string data whose parts point at their UTF-16 text.
    FirstLook { reference: u32 },
    /// A release whose strings are not read (Marathon).
    Unsupported,
}

/// The string format of a release.
pub open spec fn string_table_format_of(version: GameVersion) -> StringTableFormat {
    match version {
        GameVersion::Destiny(DestinyVersion::DestinyInternalAlpha) => StringTableFormat::InternalAlpha {
            reference: 0x808004A8,
        },
        GameVersion::Destiny(DestinyVersion::DestinyFirstLookAlpha) => StringTableFormat::FirstLook {
            reference: 0x8080035A,
        },
        GameVersion::Destiny(DestinyVersion::DestinyTheTakenKing) => StringTableFormat::TakenKing {
            reference: 0x8080035A,
        },
        GameVersion::Destiny(v) => StringTableFormat::Modern {
            reference: string_container_class(version)->0,
            old_format: destiny_rank(v) <= 7,
        },
        GameVersion::Marathon(_) => StringTableFormat::Unsupported,
    }
}

/// The string format of a release (see `string_table_format_of`).
pub fn string_table_format(version: GameVersion) -> (r: StringTableFormat)
    ensures
        r == string_table_format_of(version),
{
    match version {
        GameVersion::Destiny(DestinyVersion::DestinyInternalAlpha) => StringTableFormat::InternalAlpha {
            reference: 0x808004A8,
        },
        GameVersion::Destiny(DestinyVersion::DestinyFirstLookAlpha) => StringTableFormat::FirstLook {
            reference: 0x8080035A,
        },
        GameVersion::Destiny(DestinyVersion::DestinyTheTakenKing) => StringTableFormat::TakenKing {
            reference: 0x8080035A,
        },
        GameVersion::Destiny(_) => {
            let reference = match string_reference_type(version) {
                Some(r) => r,
                None => 0,
            };
            StringTableFormat::Modern { reference, old_format: string_data_old_format(version) }
        },
        GameVersion::Marathon(_) => StringTableFormat::Unsupported,
    }
}

} // verus!
