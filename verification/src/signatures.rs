//! Parsing of the user's signature file (`signatures.csv`): names for 32- and 64-bit values,
//! one per line as `<hex value>,<name>`.
use vstd::prelude::*;
use crate::schema::string_from_chars;
use crate::text::str_chars;
use crate::textparse::{is_white, is_white_char, parse_unsigned, parse_unsigned_chars, split_lines, text_lines};

verus! {

/// A value that a name can be given to.
#[derive(Clone, Copy, Debug, PartialEq, Eq, Structural)]
pub enum Signature {
    U32(u32),
    U64(u64),
}

/// Why the signature file was refused: the value on this line (counted from 0) is not a
/// hexadecimal 64-bit integer.
#[derive(Clone, Copy, Debug, PartialEq, Eq, Structural)]
pub struct InvalidSignatureKey {
    pub line: usize,
}

/// `s` without its leading repetitions of `0x`.
pub open spec fn strip_hex_prefixes(s: Seq<char>) -> Seq<char>
    decreases s.len(),
{
    if s.len() >= 2 && s[0] == '0' && s[1] == 'x' {
        strip_hex_prefixes(s.subrange(2, s.len() as int))
    } else {
        s
    }
}

/// `s` split at its first comma: what comes before it and what comes after it (everything,
/// and nothing after, when there is no comma).
pub open spec fn split_first_comma(s: Seq<char>) -> (Seq<char>, Seq<char>)
    decreases s.len(),
{
    if s.len() == 0 {
        (seq![], seq![])
    } else if s[0] == ',' {
        (seq![], s.drop_first())
    } else {
        let (a, b) = split_first_comma(s.drop_first());
        (seq![s[0]] + a, b)
    }
}

/// Whether a line is skipped: blank, or a comment starting with `#`.
pub open spec fn sig_line_skipped(l: Seq<char>) -> bool {
    (forall|i: int| 0 <= i < l.len() ==> is_white(#[trigger] l[i])) || (l.len() > 0 && l[0] == '#')
}

/// The value written on a line: 32-bit when it fits, else 64-bit.
pub open spec fn sig_value(sig: Seq<char>) -> Option<Signature> {
    let body = strip_hex_prefixes(sig);
    match parse_unsigned(body, 16, u32::MAX as nat) {
        Some(v) => Some(Signature::U32(v as u32)),
        None => match parse_unsigned(body, 16, u64::MAX as nat) {
            Some(v) => Some(Signature::U64(v as u64)),
            None => None,
        },
    }
}

/// The signatures of the first `n` lines, or the error of the first line refused.
pub open spec fn sig_entries(lines: Seq<Seq<char>>, n: nat) -> Result<Seq<(Signature, Seq<char>)>, InvalidSignatureKey>
    decreases n,
{
    if n == 0 {
        Ok(seq![])
    } else {
        match sig_entries(lines, (n - 1) as nat) {
            Err(e) => Err(e),
            Ok(prev) => {
                let l = lines[n - 1];
                if sig_line_skipped(l) {
                    Ok(prev)
                } else {
                    let (sig, name) = split_first_comma(l);
                    match sig_value(sig) {
                        Some(v) => Ok(prev.push((v, name))),
                        None => Err(InvalidSignatureKey { line: (n - 1) as usize }),
                    }
                }
            },
        }
    }
}

pub proof fn lemma_sig_error_persists(lines: Seq<Seq<char>>, n: nat, m: nat)
    requires
        n <= m,
        sig_entries(lines, n) is Err,
    ensures
        sig_entries(lines, m) == sig_entries(lines, n),
    decreases m - n,
{
    if n < m {
        lemma_sig_error_persists(lines, n, (m - 1) as nat);
    }
}

fn strip_prefixes(s: &Vec<char>) -> (r: usize)
    ensures
        r <= s@.len(),
        s@.subrange(r as int, s@.len() as int) == strip_hex_prefixes(s@),
{
    let mut i: usize = 0;
    assert(s@.subrange(0, s@.len() as int) =~= s@);
    while i < s.len() && s.len() - i >= 2 && s[i] == '0' && s[i + 1] == 'x'
        invariant
            i <= s@.len(),
            strip_hex_prefixes(s@.subrange(i as int, s@.len() as int)) == strip_hex_prefixes(s@),
        decreases s@.len() - i,
    {
        let ghost t = s@.subrange(i as int, s@.len() as int);
        assert(t.subrange(2, t.len() as int) =~= s@.subrange(i + 2, s@.len() as int));
        i += 2;
    }
    i
}

fn first_comma(s: &Vec<char>) -> (r: usize)
    ensures
        r <= s@.len(),
        split_first_comma(s@) == (s@.take(r as int), if r < s@.len() { s@.subrange(r + 1, s@.len() as int) } else { seq![] }),
{
    let mut i: usize = 0;
    while i < s.len() && s[i] != ','
        invariant
            i <= s@.len(),
            forall|j: int| 0 <= j < i ==> s@[j] != ',',
        decreases s@.len() - i,
    {
        i += 1;
    }
    proof {
        lemma_split_first_comma(s@, i as int);
    }
    i
}

proof fn lemma_split_first_comma(s: Seq<char>, r: int)
    requires
        0 <= r <= s.len(),
        forall|j: int| 0 <= j < r ==> s[j] != ',',
        r < s.len() ==> s[r] == ',',
    ensures
        split_first_comma(s) == (s.take(r), if r < s.len() { s.subrange(r + 1, s.len() as int) } else { seq![] }),
    decreases s.len(),
{
    if s.len() == 0 {
        assert(s.take(r) =~= seq![]);
    } else if s[0] == ',' {
        assert(r == 0);
        assert(s.take(0) =~= seq![]);
        assert(s.subrange(1, s.len() as int) =~= s.drop_first());
    } else {
        lemma_split_first_comma(s.drop_first(), r - 1);
        assert(seq![s[0]] + s.drop_first().take(r - 1) =~= s.take(r));
        if r < s.len() {
            assert(s.drop_first().subrange(r, s.drop_first().len() as int) =~= s.subrange(r + 1, s.len() as int));
        }
    }
}

fn line_skipped(l: &Vec<char>) -> (r: bool)
    ensures
        r == sig_line_skipped(l@),
{
    if l.len() > 0 && l[0] == '#' {
        return true;
    }
    let mut i: usize = 0;
    while i < l.len()
        invariant
            i <= l@.len(),
            !(l@.len() > 0 && l@[0] == '#'),
            forall|j: int| 0 <= j < i ==> is_white(#[trigger] l@[j]),
        decreases l@.len() - i,
    {
        if !is_white_char(l[i]) {
            assert(!is_white(l@[i as int]));
            return false;
        }
        i += 1;
    }
    true
}

/// Parses the signature file: blank lines and lines starting with `#` are skipped, others are
/// `<hex value>,<name>` (leading `0x` optional, the name may hold commas). A value is 32-bit
/// when it fits, else 64-bit; one that is neither is an error. Later lines for the same value
/// take precedence over earlier ones.
pub fn parse_sigfile(s: &str) -> (r: Result<Vec<(Signature, String)>, InvalidSignatureKey>)
    ensures
        match (r, sig_entries(text_lines(s@), text_lines(s@).len())) {
            (Ok(v), Ok(entries)) => v@.len() == entries.len() && forall|i: int|
                0 <= i < v@.len() ==> (#[trigger] v@[i]).0 == entries[i].0 && v@[i].1@ == entries[i].1,
            (Err(e), Err(f)) => e == f,
            _ => false,
        },
{
    let chars = str_chars(s);
    let lines = split_lines(&chars);
    let ghost ls = text_lines(s@);
    assert(lines@.len() == ls.len());
    let mut signatures: Vec<(Signature, String)> = Vec::new();
    let mut n: usize = 0;
    while n < lines.len()
        invariant
            n <= lines@.len(),
            ls == text_lines(s@),
            lines@.map_values(|l: Vec<char>| l@) == ls,
            sig_entries(ls, n as nat) matches Ok(entries) && signatures@.len() == entries.len() && forall|i: int|
                0 <= i < signatures@.len() ==> (#[trigger] signatures@[i]).0 == entries[i].0 && signatures@[i].1@ == entries[i].1,
        decreases lines@.len() - n,
    {
        let l = &lines[n];
        assert(l@ == ls[n as int]);
        let ghost prev = sig_entries(ls, n as nat)->Ok_0;
        if line_skipped(l) {
            n += 1;
            continue;
        }
        let c = first_comma(l);
        let sig: Vec<char> = vstd::slice::slice_to_vec(vstd::slice::slice_subrange(l.as_slice(), 0, c));
        let name_start = if c < l.len() { c + 1 } else { l.len() };
        let name = string_from_chars(vstd::slice::slice_subrange(l.as_slice(), name_start, l.len()));
        let ghost sig_spec = split_first_comma(l@).0;
        assert(sig@ == sig_spec);
        assert(name@ == split_first_comma(l@).1);
        let skip = strip_prefixes(&sig);
        let body = vstd::slice::slice_subrange(sig.as_slice(), skip, sig.len());
        let value = match parse_unsigned_chars(body, 16, u32::MAX as u64) {
            Some(v) => Signature::U32(v as u32),
            None => match parse_unsigned_chars(body, 16, u64::MAX) {
                Some(v) => Signature::U64(v),
                None => {
                    proof {
                        assert(sig_entries(ls, (n + 1) as nat) == Err::<Seq<(Signature, Seq<char>)>, InvalidSignatureKey>(InvalidSignatureKey { line: n }));
                        lemma_sig_error_persists(ls, (n + 1) as nat, ls.len());
                    }
                    return Err(InvalidSignatureKey { line: n });
                },
            },
        };
        let ghost before = signatures@;
        signatures.push((value, name));
        proof {
            let entries = sig_entries(ls, (n + 1) as nat)->Ok_0;
            assert(entries == prev.push((value, split_first_comma(l@).1)));
            assert forall|i: int| 0 <= i < signatures@.len() implies (#[trigger] signatures@[i]).0 == entries[i].0 && signatures@[i].1@ == entries[i].1 by {
                if i < before.len() {
                    assert(signatures@[i] == before[i]);
                }
            }
        }
        n += 1;
    }
    Ok(signatures)
}

} // verus!
