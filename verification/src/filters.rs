//! Search filters of the string, signature and tag lists: substring and exact matches,
//! case-folded or not, and searches by hash.
use vstd::prelude::*;
use crate::signatures::Signature;
use crate::strutil::{hex_lower, push_hex_lower};
use crate::text::{lemma_utf8_length_append, str_chars, utf8_length, utf8_width};
use crate::textparse::{parse_unsigned, parse_unsigned_chars};

verus! {

/// Whether `b` occurs in `a` as a run of consecutive characters.
pub open spec fn contains_seq(a: Seq<char>, b: Seq<char>) -> bool {
    exists|i: int| 0 <= i && i + b.len() <= a.len() && #[trigger] a.subrange(i, i + b.len()) == b
}

/// Whether `b` occurs in `a` (see `contains_seq`).
pub fn chars_contain(a: &[char], b: &[char]) -> (r: bool)
    ensures
        r == contains_seq(a@, b@),
{
    if b.len() > a.len() {
        return false;
    }
    if b.len() == 0 {
        assert(a@.subrange(0int, 0int + b@.len()) =~= b@);
        return true;
    }
    let n = a.len() - b.len();
    let mut i: usize = 0;
    while i <= n
        invariant
            n == a@.len() - b@.len(),
            0 < b@.len() <= a@.len(),
            a@.len() == a.len(),
            i <= n + 1,
            forall|k: int| 0 <= k < i ==> #[trigger] a@.subrange(k, k + b@.len()) != b@,
        decreases n + 1 - i,
    {
        let mut j: usize = 0;
        let mut ok = true;
        while ok && j < b.len()
            invariant
                i <= n,
                n == a@.len() - b@.len(),
                0 < b@.len() <= a@.len(),
                a@.len() == a.len(),
                j <= b@.len(),
                forall|q: int| 0 <= q < j ==> a@[i + q] == b@[q],
                !ok ==> j < b@.len() && a@[i + j] != b@[j as int],
            decreases b@.len() - j, (if ok { 1int } else { 0int }),
        {
            if a[i + j] == b[j] {
                j += 1;
            } else {
                ok = false;
            }
        }
        if ok {
            assert(a@.subrange(i as int, i + b@.len()) =~= b@);
            return true;
        }
        assert(a@.subrange(i as int, i + b@.len())[j as int] != b@[j as int]);
        i += 1;
    }
    false
}

/// Whether the text of `b` occurs in the text of `a`.
pub fn text_contains(a: &str, b: &str) -> (r: bool)
    ensures
        r == contains_seq(a@, b@),
{
    let ac = str_chars(a);
    let bc = str_chars(b);
    chars_contain(ac.as_slice(), bc.as_slice())
}

/// The lower-case form of a string, as std's `str::to_lowercase` computes it (the Unicode
/// lower-case mapping of each character).
pub uninterp spec fn lowercase(s: Seq<char>) -> Seq<char>;

/// Calls `str::to_lowercase`, which std documents as returning the lowercase equivalent of
/// the string slice as a new `String`; the result is named `lowercase`.
#[verifier::external_body]
pub(crate) fn to_lowercase(s: &str) -> (r: String)
    ensures
        r@ == lowercase(s@),
{
    s.to_lowercase()
}

/// Whether `a` matches the search text `b`: equal to it, or (not exact) containing it.
pub open spec fn text_matches(a: Seq<char>, b: Seq<char>, exact: bool) -> bool {
    if exact {
        a == b
    } else {
        contains_seq(a, b)
    }
}

fn str_equal(a: &str, b: &str) -> (r: bool)
    ensures
        r == (a@ == b@),
{
    let ac = str_chars(a);
    let bc = str_chars(b);
    if ac.len() != bc.len() {
        return false;
    }
    let mut i: usize = 0;
    while i < ac.len()
        invariant
            ac@ == a@,
            bc@ == b@,
            ac@.len() == bc@.len(),
            i <= ac@.len(),
            forall|q: int| 0 <= q < i ==> ac@[q] == bc@[q],
        decreases ac@.len() - i,
    {
        if ac[i] != bc[i] {
            return false;
        }
        i += 1;
    }
    assert(ac@ =~= bc@);
    true
}

/// Whether `a` matches the search text `b` (see `text_matches`).
pub fn matches_text(a: &str, b: &str, exact: bool) -> (r: bool)
    ensures
        r == text_matches(a@, b@, exact),
{
    if exact {
        str_equal(a, b)
    } else {
        text_contains(a, b)
    }
}

/// Whether a string is a development placeholder name: it starts with `str`.
pub open spec fn is_devalpha_string(s: Seq<char>) -> bool {
    s.len() >= 3 && s[0] == 's' && s[1] == 't' && s[2] == 'r'
}

/// Compiles the pattern `^str[0-9]*` with `regex::Regex::new` and tests `s` with
/// `Regex::is_match`, which the regex documentation defines as whether the pattern matches
/// anywhere in `s`. The pattern is anchored at the start and its run of digits may be empty,
/// so it matches exactly the strings that start with `str`; the pattern is valid, so
/// compiling it does not fail.
#[verifier::external_body]
fn regex_is_match(pattern: &str, s: &str) -> (r: bool)
    requires
        pattern@ == r"^str[0-9]*"@,
    ensures
        r == is_devalpha_string(s@),
{
    regex::Regex::new(pattern).unwrap().is_match(s)
}

/// Whether a string is a development placeholder name (see `is_devalpha_string`).
pub fn is_devalpha_str(s: &str) -> (r: bool)
    ensures
        r == is_devalpha_string(s@),
{
    regex_is_match(r"^str[0-9]*", s)
}

/// A parameter character of an escape sequence: a digit or a semicolon.
pub open spec fn is_ansi_param(c: char) -> bool {
    ('0' <= c && c <= '9') || c == ';'
}

/// End of the run of parameter characters from `j`.
pub open spec fn param_run_end(s: Seq<char>, j: int) -> int
    decreases s.len() - j,
{
    if 0 <= j < s.len() && is_ansi_param(s[j]) {
        param_run_end(s, j + 1)
    } else {
        j
    }
}

/// The run of parameters ends at or after where it starts.
pub proof fn lemma_param_run_end(s: Seq<char>, j: int)
    ensures
        param_run_end(s, j) >= j,
    decreases s.len() - j,
{
    if 0 <= j < s.len() && is_ansi_param(s[j]) {
        lemma_param_run_end(s, j + 1);
    }
}

/// End of the color or erase escape sequence (escape, `[`, parameters, `m` or `K`) that
/// starts at `i`, if one does.
pub open spec fn ansi_escape_at(s: Seq<char>, i: int) -> Option<int> {
    if 0 <= i && i + 1 < s.len() && s[i] == '\x1B' && s[i + 1] == '[' {
        let e = param_run_end(s, i + 2);
        if e < s.len() && (s[e] == 'm' || s[e] == 'K') {
            Some(e + 1)
        } else {
            None
        }
    } else {
        None
    }
}

/// `s` from `i` on without its color and erase escape sequences, taken from left to right.
pub open spec fn ansi_stripped_from(s: Seq<char>, i: int) -> Seq<char>
    decreases s.len() - i,
{
    if i < 0 || i >= s.len() {
        seq![]
    } else {
        match ansi_escape_at(s, i) {
            Some(e) => {
                proof {
                    lemma_param_run_end(s, i + 2);
                }
                ansi_stripped_from(s, e)
            },
            None => seq![s[i]] + ansi_stripped_from(s, i + 1),
        }
    }
}

/// Compiles the pattern `\x1B\[[0-9;]*[mK]` with `regex::Regex::new` and calls
/// `Regex::replace_all` with an empty replacement, which the regex documentation defines as
/// replacing all non-overlapping leftmost-first matches. A match is an escape character, `[`,
/// digits and semicolons, then `m` or `K`; the run cannot hold `m`, `K` or an escape, so the
/// matches are the sequences that `ansi_escape_at` finds scanning from the left, and they are
/// removed.
#[verifier::external_body]
fn regex_replace_all(pattern: &str, input: &str, replacement: &str) -> (r: String)
    requires
        pattern@ == r"\x1B\[[0-9;]*[mK]"@,
        replacement@ == ""@,
    ensures
        r@ == ansi_stripped_from(input@, 0),
{
    regex::Regex::new(pattern).unwrap().replace_all(input, replacement).to_string()
}

/// `input` without its terminal color and erase escape sequences.
pub fn strip_ansi_codes(input: &str) -> (r: String)
    ensures
        r@ == ansi_stripped_from(input@, 0),
{
    regex_replace_all(r"\x1B\[[0-9;]*[mK]", input, "")
}

/// The hash a search text stands for: at most eight bytes of hexadecimal digits, with an
/// optional leading `+`.
pub open spec fn filter_hash(filter: Seq<char>) -> Option<u32> {
    if utf8_length(filter) > 8 {
        None
    } else {
        match parse_unsigned(filter, 16, u32::MAX as nat) {
            Some(v) => Some(v as u32),
            None => None,
        }
    }
}

fn utf8_len(cs: &[char]) -> (r: usize)
    ensures
        r == (if utf8_length(cs@) > 8 { 9 } else { utf8_length(cs@) }),
{
    let mut n: usize = 0;
    let mut i: usize = 0;
    while i < cs.len()
        invariant
            i <= cs@.len(),
            n == utf8_length(cs@.take(i as int)),
            n <= 8,
        decreases cs@.len() - i,
    {
        let c = cs[i];
        let w: usize = if (c as u32) < 0x80 {
            1
        } else if (c as u32) < 0x800 {
            2
        } else if (c as u32) < 0x10000 {
            3
        } else {
            4
        };
        proof {
            assert(cs@.take(i + 1).drop_last() =~= cs@.take(i as int));
            assert(w == utf8_width(c));
        }
        if n + w > 8 {
            proof {
                let k = i + 1;
                assert(cs@.take(k as int) + cs@.skip(k as int) =~= cs@);
                lemma_utf8_length_append(cs@.take(k as int), cs@.skip(k as int));
            }
            return 9;
        }
        n = n + w;
        i += 1;
    }
    assert(cs@.take(i as int) =~= cs@);
    n
}

/// The hash a search text stands for (see `filter_hash`).
pub fn parse_filter_as_hash(filter: &str) -> (r: Option<u32>)
    ensures
        r == filter_hash(filter@),
{
    let cs = str_chars(filter);
    if utf8_len(cs.as_slice()) > 8 {
        return None;
    }
    match parse_unsigned_chars(cs.as_slice(), 16, 0xFFFF_FFFF) {
        Some(v) => Some(v as u32),
        None => None,
    }
}

/// The elements of `s` that satisfy `p`, in order.
pub open spec fn kept<T>(s: Seq<T>, p: spec_fn(T) -> bool) -> Seq<T>
    decreases s.len(),
{
    if s.len() == 0 {
        seq![]
    } else if p(s.last()) {
        kept(s.drop_last(), p).push(s.last())
    } else {
        kept(s.drop_last(), p)
    }
}

/// Strings as plain values.
pub open spec fn strings_view(v: Seq<String>) -> Seq<Seq<char>> {
    v.map_values(|x: String| x@)
}

/// An entry of strings by hash as plain values.
pub open spec fn entry_view(e: (u32, Vec<String>)) -> (u32, Seq<Seq<char>>) {
    (e.0, strings_view(e.1@))
}

/// A list of strings by hash as plain values.
pub open spec fn string_entries(s: Seq<(u32, Vec<String>)>) -> Seq<(u32, Seq<Seq<char>>)> {
    s.map_values(|e: (u32, Vec<String>)| entry_view(e))
}

/// Whether a string is listed by a search for `filter`: not a hidden placeholder, and matching
/// the search text (both case-folded unless the search is case sensitive).
pub open spec fn string_hit(s: Seq<char>, filter: Seq<char>, case_sensitive: bool, exact: bool, hide_devalpha: bool) -> bool {
    !(hide_devalpha && is_devalpha_string(s)) && text_matches(
        if case_sensitive { s } else { lowercase(s) },
        if case_sensitive { filter } else { lowercase(filter) },
        exact,
    )
}

/// Whether one of the strings is listed by a search for `filter`.
pub open spec fn strings_hit(v: Seq<Seq<char>>, filter: Seq<char>, case_sensitive: bool, exact: bool, hide_devalpha: bool) -> bool {
    exists|k: int| 0 <= k < v.len() && #[trigger] string_hit(v[k], filter, case_sensitive, exact, hide_devalpha)
}

/// Whether one of the strings of an entry is listed by a search for `filter`.
pub open spec fn entry_hit(e: (u32, Seq<Seq<char>>), filter: Seq<char>, case_sensitive: bool, exact: bool, hide_devalpha: bool) -> bool {
    strings_hit(e.1, filter, case_sensitive, exact, hide_devalpha)
}

/// Whether an entry stays in the unfiltered list: its first string is not a hidden placeholder.
pub open spec fn entry_shown(e: (u32, Seq<Seq<char>>), hide_devalpha: bool) -> bool {
    !(hide_devalpha && is_devalpha_string(e.1[0]))
}

/// Whether the hash of an entry, as eight lower-case hex digits, matches `match_b`.
pub open spec fn hash_hit(e: (u32, Seq<Seq<char>>), match_b: Seq<char>, exact: bool) -> bool {
    text_matches(hex_lower(e.0 as nat, 8), match_b, exact)
}

/// What a search by hash compares the hashes with: the hash as eight lower-case hex digits
/// for an exact search, else the search text itself.
pub open spec fn hash_search_text(filter: Seq<char>, h: u32, exact: bool) -> Seq<char> {
    if exact {
        hex_lower(h as nat, 8)
    } else {
        filter
    }
}

fn clone_entry(e: &(u32, Vec<String>)) -> (r: (u32, Vec<String>))
    ensures
        entry_view(r) == entry_view(*e),
{
    let v = e.1.clone();
    assert(strings_view(v@) =~= strings_view(e.1@));
    (e.0, v)
}

/// Whether every entry has a first string.
pub open spec fn entries_nonempty(s: Seq<(u32, Vec<String>)>) -> bool {
    forall|i: int| 0 <= i < s.len() ==> (#[trigger] s[i]).1@.len() > 0
}

/// The list shown without a search: every entry, but (when placeholders are hidden) those whose
/// first string is a placeholder.
pub fn reset_search(strings: &[(u32, Vec<String>)], hide_devalpha_str: bool) -> (r: Vec<(u32, Vec<String>)>)
    requires
        hide_devalpha_str ==> entries_nonempty(strings@),
    ensures
        string_entries(r@) == kept(string_entries(strings@), |e: (u32, Seq<Seq<char>>)| entry_shown(e, hide_devalpha_str)),
{
    let ghost p = |e: (u32, Seq<Seq<char>>)| entry_shown(e, hide_devalpha_str);
    let ghost all = string_entries(strings@);
    let mut r: Vec<(u32, Vec<String>)> = Vec::new();
    let mut i: usize = 0;
    assert(all.take(0) =~= Seq::<(u32, Seq<Seq<char>>)>::empty());
    while i < strings.len()
        invariant
            i <= strings@.len(),
            all == string_entries(strings@),
            p == (|e: (u32, Seq<Seq<char>>)| entry_shown(e, hide_devalpha_str)),
            hide_devalpha_str ==> entries_nonempty(strings@),
            string_entries(r@) == kept(all.take(i as int), p),
        decreases strings@.len() - i,
    {
        let ghost before = r@;
        assert(all.take(i + 1).drop_last() =~= all.take(i as int));
        let hidden = if hide_devalpha_str {
            assert(strings@[i as int].1@.len() > 0);
            is_devalpha_str(strings[i].1[0].as_str())
        } else {
            false
        };
        if !hidden {
            let e = clone_entry(&strings[i]);
            r.push(e);
            assert(string_entries(r@) =~= string_entries(before).push(all[i as int]));
        }
        i += 1;
    }
    assert(all.take(i as int) =~= all);
    r
}

/// The entries whose hash matches a search text that stands for a hash (see `filter_hash`):
/// written as eight lower-case hex digits, the hash equals the digits of the searched hash
/// (exact search) or contains the search text. A search text that stands for no hash lists
/// nothing.
pub fn filter_strings_by_hash(strings: &[(u32, Vec<String>)], filter: &str, exact_match: bool) -> (r: Vec<(u32, Vec<String>)>)
    ensures
        match filter_hash(filter@) {
            Some(h) => string_entries(r@) == kept(
                string_entries(strings@),
                |e: (u32, Seq<Seq<char>>)| hash_hit(e, hash_search_text(filter@, h, exact_match), exact_match),
            ),
            None => r@.len() == 0,
        },
{
    let h = match parse_filter_as_hash(filter) {
        Some(h) => h,
        None => return Vec::new(),
    };
    let mut match_b = String::new();
    if exact_match {
        push_hex_lower(&mut match_b, h as u64, 8);
    } else {
        match_b = String::from_str(filter);
    }
    let ghost mb = hash_search_text(filter@, h, exact_match);
    assert(match_b@ == mb);
    let ghost p = |e: (u32, Seq<Seq<char>>)| hash_hit(e, mb, exact_match);
    let ghost all = string_entries(strings@);
    let mut r: Vec<(u32, Vec<String>)> = Vec::new();
    let mut i: usize = 0;
    assert(all.take(0) =~= Seq::<(u32, Seq<Seq<char>>)>::empty());
    while i < strings.len()
        invariant
            i <= strings@.len(),
            all == string_entries(strings@),
            match_b@ == mb,
            p == (|e: (u32, Seq<Seq<char>>)| hash_hit(e, mb, exact_match)),
            string_entries(r@) == kept(all.take(i as int), p),
        decreases strings@.len() - i,
    {
        let ghost before = r@;
        assert(all.take(i + 1).drop_last() =~= all.take(i as int));
        let mut match_a = String::new();
        push_hex_lower(&mut match_a, strings[i].0 as u64, 8);
        if matches_text(match_a.as_str(), match_b.as_str(), exact_match) {
            let e = clone_entry(&strings[i]);
            r.push(e);
            assert(string_entries(r@) =~= string_entries(before).push(all[i as int]));
        }
        i += 1;
    }
    assert(all.take(i as int) =~= all);
    r
}

fn any_string_hit(v: &Vec<String>, filter: &str, match_b: &str, case_sensitive: bool, exact: bool, hide: bool) -> (r: bool)
    requires
        match_b@ == (if case_sensitive { filter@ } else { lowercase(filter@) }),
    ensures
        r == strings_hit(strings_view(v@), filter@, case_sensitive, exact, hide),
{
    let ghost vs = strings_view(v@);
    let mut k: usize = 0;
    while k < v.len()
        invariant
            k <= v@.len(),
            vs == strings_view(v@),
            match_b@ == (if case_sensitive { filter@ } else { lowercase(filter@) }),
            forall|q: int| 0 <= q < k ==> !#[trigger] string_hit(vs[q], filter@, case_sensitive, exact, hide),
        decreases v@.len() - k,
    {
        let s = v[k].as_str();
        let hidden = if hide {
            is_devalpha_str(s)
        } else {
            false
        };
        if !hidden {
            let hit = if case_sensitive {
                matches_text(s, match_b, exact)
            } else {
                let low = to_lowercase(s);
                matches_text(low.as_str(), match_b, exact)
            };
            if hit {
                assert(string_hit(vs[k as int], filter@, case_sensitive, exact, hide));
                return true;
            }
        }
        assert(!string_hit(vs[k as int], filter@, case_sensitive, exact, hide));
        k += 1;
    }
    false
}

/// The entries with a string that the search for `filter` lists (see `string_hit`).
pub fn filter_strings_normal(
    strings: &[(u32, Vec<String>)],
    filter: &str,
    case_sensitive: bool,
    exact_match: bool,
    hide_devalpha_str: bool,
) -> (r: Vec<(u32, Vec<String>)>)
    ensures
        string_entries(r@) == kept(
            string_entries(strings@),
            |e: (u32, Seq<Seq<char>>)| entry_hit(e, filter@, case_sensitive, exact_match, hide_devalpha_str),
        ),
{
    let match_b = if case_sensitive {
        String::from_str(filter)
    } else {
        to_lowercase(filter)
    };
    let ghost p = |e: (u32, Seq<Seq<char>>)| entry_hit(e, filter@, case_sensitive, exact_match, hide_devalpha_str);
    let ghost all = string_entries(strings@);
    let mut r: Vec<(u32, Vec<String>)> = Vec::new();
    let mut i: usize = 0;
    assert(all.take(0) =~= Seq::<(u32, Seq<Seq<char>>)>::empty());
    while i < strings.len()
        invariant
            i <= strings@.len(),
            all == string_entries(strings@),
            match_b@ == (if case_sensitive { filter@ } else { lowercase(filter@) }),
            p == (|e: (u32, Seq<Seq<char>>)| entry_hit(e, filter@, case_sensitive, exact_match, hide_devalpha_str)),
            string_entries(r@) == kept(all.take(i as int), p),
        decreases strings@.len() - i,
    {
        let ghost before = r@;
        assert(all.take(i + 1).drop_last() =~= all.take(i as int));
        let hit = any_string_hit(&strings[i].1, filter, match_b.as_str(), case_sensitive, exact_match, hide_devalpha_str);
        assert(all[i as int] == entry_view(strings@[i as int]));
        assert(hit == p(all[i as int]));
        if hit {
            let e = clone_entry(&strings[i]);
            r.push(e);
            assert(string_entries(r@) =~= string_entries(before).push(all[i as int]));
        }
        i += 1;
    }
    assert(all.take(i as int) =~= all);
    r
}

/// The list a search shows: every shown entry for an empty search text, else the entries
/// found by hash or by their strings.
pub fn filter_strings(
    strings: &[(u32, Vec<String>)],
    filter: &str,
    search_by_hash: bool,
    case_sensitive: bool,
    exact_match: bool,
    hide_devalpha_str: bool,
) -> (r: Vec<(u32, Vec<String>)>)
    requires
        hide_devalpha_str ==> entries_nonempty(strings@),
    ensures
        filter@.len() == 0 ==> string_entries(r@) == kept(
            string_entries(strings@),
            |e: (u32, Seq<Seq<char>>)| entry_shown(e, hide_devalpha_str),
        ),
        filter@.len() > 0 && search_by_hash ==> match filter_hash(filter@) {
            Some(h) => string_entries(r@) == kept(
                string_entries(strings@),
                |e: (u32, Seq<Seq<char>>)| hash_hit(e, hash_search_text(filter@, h, exact_match), exact_match),
            ),
            None => r@.len() == 0,
        },
        filter@.len() > 0 && !search_by_hash ==> string_entries(r@) == kept(
            string_entries(strings@),
            |e: (u32, Seq<Seq<char>>)| entry_hit(e, filter@, case_sensitive, exact_match, hide_devalpha_str),
        ),
{
    if filter.is_empty() {
        reset_search(strings, hide_devalpha_str)
    } else if search_by_hash {
        filter_strings_by_hash(strings, filter, exact_match)
    } else {
        filter_strings_normal(strings, filter, case_sensitive, exact_match, hide_devalpha_str)
    }
}

/// Signatures as plain values.
pub open spec fn signature_entries(s: Seq<(Signature, String)>) -> Seq<(Signature, Seq<char>)> {
    s.map_values(|e: (Signature, String)| (e.0, e.1@))
}

/// The signatures whose name, case-folded, matches the case-folded search text.
pub fn filter_signatures(signatures: &[(Signature, String)], filter: &str, exact_match: bool) -> (r: Vec<(Signature, String)>)
    ensures
        signature_entries(r@) == kept(
            signature_entries(signatures@),
            |e: (Signature, Seq<char>)| text_matches(lowercase(e.1), lowercase(filter@), exact_match),
        ),
{
    let match_b = to_lowercase(filter);
    let ghost p = |e: (Signature, Seq<char>)| text_matches(lowercase(e.1), lowercase(filter@), exact_match);
    let ghost all = signature_entries(signatures@);
    let mut r: Vec<(Signature, String)> = Vec::new();
    let mut i: usize = 0;
    assert(all.take(0) =~= Seq::<(Signature, Seq<char>)>::empty());
    while i < signatures.len()
        invariant
            i <= signatures@.len(),
            all == signature_entries(signatures@),
            match_b@ == lowercase(filter@),
            p == (|e: (Signature, Seq<char>)| text_matches(lowercase(e.1), lowercase(filter@), exact_match)),
            signature_entries(r@) == kept(all.take(i as int), p),
        decreases signatures@.len() - i,
    {
        let ghost before = r@;
        assert(all.take(i + 1).drop_last() =~= all.take(i as int));
        let match_a = to_lowercase(signatures[i].1.as_str());
        if matches_text(match_a.as_str(), match_b.as_str(), exact_match) {
            let name = signatures[i].1.clone();
            r.push((signatures[i].0, name));
            assert(signature_entries(r@) =~= signature_entries(before).push(all[i as int]));
        }
        i += 1;
    }
    assert(all.take(i as int) =~= all);
    r
}

/// A text that matches the search text exactly also contains it.
pub proof fn lemma_exact_match_contains(a: Seq<char>, b: Seq<char>)
    ensures
        text_matches(a, b, true) ==> text_matches(a, b, false),
{
    if a == b {
        let i: int = 0;
        assert(a.subrange(i, i + b.len()) =~= b);
    }
}

/// A search keeps only what matches, in the original order, never more than it was given; and
/// searching its result again with the same search keeps all of it.
pub proof fn lemma_search_again<T>(s: Seq<T>, p: spec_fn(T) -> bool)
    ensures
        kept(s, p).len() <= s.len(),
        forall|i: int| 0 <= i < kept(s, p).len() ==> p(#[trigger] kept(s, p)[i]),
        forall|i: int| 0 <= i < kept(s, p).len() ==> s.contains(#[trigger] kept(s, p)[i]),
        kept(kept(s, p), p) == kept(s, p),
    decreases s.len(),
{
    if s.len() > 0 {
        let d = s.drop_last();
        lemma_search_again(d, p);
        let kd = kept(d, p);
        assert forall|i: int| 0 <= i < kd.len() implies s.contains(#[trigger] kd[i]) by {
            let j = choose|j: int| 0 <= j < d.len() && d[j] == kd[i];
            assert(s[j] == d[j]);
        }
        if p(s.last()) {
            let k = kd.push(s.last());
            assert(k.drop_last() =~= kd);
            assert(s[s.len() - 1] == s.last());
            assert forall|i: int| 0 <= i < k.len() implies p(#[trigger] k[i]) && s.contains(k[i]) by {
                if i < kd.len() {
                    assert(k[i] == kd[i]);
                }
            }
        }
    }
}

} // verus!
