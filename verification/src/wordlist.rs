//! The word list: names whose FNV-1 hashes may appear in tag data, one per line.
use vstd::prelude::*;
use vstd::utf8::{decode_utf8, valid_utf8};
use crate::hash::{fnv1, fnv1_spec};

verus! {

/// Splitting state after `s` into lines of bytes: the finished lines and the current one.
pub open spec fn byte_lines_state(s: Seq<u8>) -> (Seq<Seq<u8>>, Seq<u8>)
    decreases s.len(),
{
    if s.len() == 0 {
        (seq![], seq![])
    } else {
        let (done, cur) = byte_lines_state(s.drop_last());
        if s.last() == 10 {
            let line = if cur.len() > 0 && cur.last() == 13 { cur.drop_last() } else { cur };
            (done.push(line), seq![])
        } else {
            (done, cur.push(s.last()))
        }
    }
}

/// The lines of `s`: split at line feeds, a carriage return before a line feed dropped, and no
/// empty line after a final line feed.
pub open spec fn byte_lines(s: Seq<u8>) -> Seq<Seq<u8>> {
    let (done, cur) = byte_lines_state(s);
    if cur.len() > 0 {
        done.push(cur)
    } else {
        done
    }
}

/// Splits bytes into lines (see `byte_lines`).
pub fn split_byte_lines(s: &[u8]) -> (r: Vec<Vec<u8>>)
    ensures
        r@.map_values(|l: Vec<u8>| l@) == byte_lines(s@),
{
    let mut done: Vec<Vec<u8>> = Vec::new();
    let mut cur: Vec<u8> = Vec::new();
    let mut i: usize = 0;
    while i < s.len()
        invariant
            i <= s@.len(),
            (done@.map_values(|l: Vec<u8>| l@), cur@) == byte_lines_state(s@.take(i as int)),
        decreases s@.len() - i,
    {
        let c = s[i];
        assert(s@.take(i + 1).drop_last() =~= s@.take(i as int));
        let ghost before = done@;
        if c == 10 {
            if cur.len() > 0 && cur[cur.len() - 1] == 13 {
                cur.pop();
            }
            let line = cur;
            cur = Vec::new();
            done.push(line);
            assert(done@.map_values(|l: Vec<u8>| l@) =~= before.map_values(|l: Vec<u8>| l@).push(line@));
        } else {
            cur.push(c);
        }
        i += 1;
    }
    assert(s@.take(i as int) =~= s@);
    if cur.len() > 0 {
        let ghost before = done@;
        done.push(cur);
        assert(done@.map_values(|l: Vec<u8>| l@) =~= before.map_values(|l: Vec<u8>| l@).push(cur@));
    }
    done
}

/// Decodes bytes as UTF-8: calls `std::str::from_utf8`, which std documents as failing exactly
/// when the bytes are not valid UTF-8, and converts the text to a `String`.
#[verifier::external_body]
fn utf8_string(bytes: &[u8]) -> (r: Option<String>)
    ensures
        r is Some <==> valid_utf8(bytes@),
        r matches Some(s) ==> s@ == decode_utf8(bytes@),
{
    match std::str::from_utf8(bytes) {
        Ok(s) => Some(s.to_string()),
        Err(_) => None,
    }
}

/// The words of the lines, each with its FNV-1 hash, up to the first line that is not valid
/// UTF-8; empty lines are left out.
pub open spec fn wordlist_words(lines: Seq<Seq<u8>>) -> Seq<(Seq<char>, u32)>
    decreases lines.len(),
{
    if lines.len() == 0 || !valid_utf8(lines[0]) {
        seq![]
    } else if lines[0].len() == 0 {
        wordlist_words(lines.drop_first())
    } else {
        seq![(decode_utf8(lines[0]), fnv1_spec(lines[0]))] + wordlist_words(lines.drop_first())
    }
}

/// Words as plain values.
pub open spec fn words_view(w: Seq<(String, u32)>) -> Seq<(Seq<char>, u32)> {
    w.map_values(|e: (String, u32)| (e.0@, e.1))
}

/// The words of a word list text and their hashes (see `wordlist_words`).
pub fn wordlist_entries(data: &[u8]) -> (r: Vec<(String, u32)>)
    ensures
        words_view(r@) == wordlist_words(byte_lines(data@)),
{
    let lines = split_byte_lines(data);
    let ghost ls = lines@.map_values(|l: Vec<u8>| l@);
    let mut r: Vec<(String, u32)> = Vec::new();
    let mut i: usize = 0;
    assert(ls.skip(0) =~= ls);
    assert(words_view(r@) + wordlist_words(ls.skip(0)) =~= wordlist_words(ls));
    while i < lines.len()
        invariant
            i <= lines@.len(),
            ls == lines@.map_values(|l: Vec<u8>| l@),
            ls == byte_lines(data@),
            words_view(r@) + wordlist_words(ls.skip(i as int)) == wordlist_words(ls),
        decreases lines@.len() - i,
    {
        let ghost before = r@;
        assert(ls.skip(i as int).drop_first() =~= ls.skip(i + 1));
        assert(ls.skip(i as int)[0] == lines@[i as int]@);
        let line = &lines[i];
        match utf8_string(line.as_slice()) {
            None => {
                assert(wordlist_words(ls.skip(i as int)) == Seq::<(Seq<char>, u32)>::empty());
                assert(words_view(r@) + seq![] =~= words_view(r@));
                return r;
            },
            Some(s) => {
                let h = fnv1(line.as_slice());
                if line.len() != 0 {
                    r.push((s, h));
                    assert(words_view(r@) =~= words_view(before).push((s@, h)));
                    assert(words_view(r@) + wordlist_words(ls.skip(i + 1)) =~= words_view(before) + wordlist_words(
                        ls.skip(i as int),
                    ));
                }
            },
        }
        i += 1;
    }
    assert(ls.skip(i as int) =~= Seq::<Seq<u8>>::empty());
    assert(words_view(r@) + seq![] =~= words_view(r@));
    r
}

/// Every word of the word list comes with the FNV-1 hash of its line and was read from a
/// non-empty line that is valid UTF-8.
pub proof fn lemma_words_hashed(lines: Seq<Seq<u8>>)
    ensures
        forall|k: int| 0 <= k < wordlist_words(lines).len() ==> {
            let (w, h) = #[trigger] wordlist_words(lines)[k];
            exists|j: int| {
                &&& 0 <= j < lines.len()
                &&& valid_utf8(#[trigger] lines[j])
                &&& lines[j].len() > 0
                &&& decode_utf8(lines[j]) == w
                &&& fnv1_spec(lines[j]) == h
            }
        },
    decreases lines.len(),
{
    if lines.len() == 0 || !valid_utf8(lines[0]) {
    } else {
        let rest = lines.drop_first();
        lemma_words_hashed(rest);
        let ws = wordlist_words(lines);
        let wr = wordlist_words(rest);
        assert forall|k: int| 0 <= k < ws.len() implies {
            let (w, h) = #[trigger] ws[k];
            exists|j: int| {
                &&& 0 <= j < lines.len()
                &&& valid_utf8(#[trigger] lines[j])
                &&& lines[j].len() > 0
                &&& decode_utf8(lines[j]) == w
                &&& fnv1_spec(lines[j]) == h
            }
        } by {
            if lines[0].len() == 0 {
                let (w, h) = wr[k];
                let j = choose|j: int| {
                    &&& 0 <= j < rest.len()
                    &&& valid_utf8(#[trigger] rest[j])
                    &&& rest[j].len() > 0
                    &&& decode_utf8(rest[j]) == w
                    &&& fnv1_spec(rest[j]) == h
                };
                assert(lines[j + 1] == rest[j]);
            } else if k == 0 {
                assert(lines[0] == lines[0]);
            } else {
                assert(ws[k] == wr[k - 1]);
                let (w, h) = wr[k - 1];
                let j = choose|j: int| {
                    &&& 0 <= j < rest.len()
                    &&& valid_utf8(#[trigger] rest[j])
                    &&& rest[j].len() > 0
                    &&& decode_utf8(rest[j]) == w
                    &&& fnv1_spec(rest[j]) == h
                };
                assert(lines[j + 1] == rest[j]);
            }
        }
    }
}

/// Name for what `zstd::stream::decode_all` gives for compressed bytes: the decompressed
/// bytes, or nothing when they are not a valid zstd stream.
pub uninterp spec fn zstd_decoded(data: Seq<u8>) -> Option<Seq<u8>>;

/// Decompresses a zstd stream held in memory with `zstd::stream::decode_all`; the result, or
/// its failure, is named `zstd_decoded`.
#[verifier::external_body]
pub(crate) fn zstd_decode_all(data: &[u8]) -> (r: Option<Vec<u8>>)
    ensures
        match r {
            Some(v) => zstd_decoded(data@) == Some(v@),
            None => zstd_decoded(data@) is None,
        },
{
    zstd::stream::decode_all(data).ok()
}

/// The words of a zstd-compressed word list and their hashes (see `wordlist_words`); `None`
/// when the data does not decompress.
pub fn compressed_wordlist_entries(compressed: &[u8]) -> (r: Option<Vec<(String, u32)>>)
    ensures
        match zstd_decoded(compressed@) {
            Some(d) => r matches Some(v) && words_view(v@) == wordlist_words(byte_lines(d)),
            None => r is None,
        },
{
    match zstd_decode_all(compressed) {
        Some(d) => Some(wordlist_entries(d.as_slice())),
        None => None,
    }
}

} // verus!
