//! Parsing of the user's schema file (`schema.txt`): one class per line, as a hexadecimal id,
//! a name and an optional decimal element size, separated by white space.
use vstd::prelude::*;
use crate::classes::{PrettyParser, TagClass};
use crate::strutil::push_char;
use crate::text::str_chars;
use crate::textparse::{parse_unsigned, parse_unsigned_chars, split_lines, split_words, text_lines, text_words};

verus! {

/// Why a schema line was refused; `line` counts from 0.
#[derive(Clone, Copy, Debug, PartialEq, Eq, Structural)]
pub enum SchemaError {
    MissingClassId { line: usize },
    InvalidClassId { line: usize },
    MissingName { line: usize },
    InvalidSize { line: usize },
}

/// One schema line, split into words: class id, name and size, or the error for line `n`.
pub open spec fn schema_line(words: Seq<Seq<char>>, n: usize) -> Result<(u32, Seq<char>, Option<usize>), SchemaError> {
    if words.len() == 0 {
        Err(SchemaError::MissingClassId { line: n })
    } else {
        match parse_unsigned(words[0], 16, u32::MAX as nat) {
            None => Err(SchemaError::InvalidClassId { line: n }),
            Some(id) => if words.len() < 2 {
                Err(SchemaError::MissingName { line: n })
            } else if words.len() >= 3 {
                match parse_unsigned(words[2], 10, usize::MAX as nat) {
                    None => Err(SchemaError::InvalidSize { line: n }),
                    Some(size) => Ok((id as u32, words[1], Some(size as usize))),
                }
            } else {
                Ok((id as u32, words[1], None))
            },
        }
    }
}

/// The classes of the first `n` lines, or the error of the first line refused.
pub open spec fn schema_entries(lines: Seq<Seq<char>>, n: nat) -> Result<Seq<(u32, Seq<char>, Option<usize>)>, SchemaError>
    decreases n,
{
    if n == 0 {
        Ok(seq![])
    } else {
        match schema_entries(lines, (n - 1) as nat) {
            Err(e) => Err(e),
            Ok(prev) => match schema_line(text_words(lines[n - 1]), (n - 1) as usize) {
                Err(e) => Err(e),
                Ok(entry) => Ok(prev.push(entry)),
            },
        }
    }
}

/// Once a line is refused, every longer prefix of the file is refused with the same error.
pub proof fn lemma_schema_error_persists(lines: Seq<Seq<char>>, n: nat, m: nat)
    requires
        n <= m,
        schema_entries(lines, n) is Err,
    ensures
        schema_entries(lines, m) == schema_entries(lines, n),
    decreases m - n,
{
    if n < m {
        lemma_schema_error_persists(lines, n, (m - 1) as nat);
    }
}

/// Whether `classes` are the schema entries: each with the hex-dump formatter and not
/// blocking tag scanning.
pub open spec fn classes_match(classes: Seq<TagClass>, entries: Seq<(u32, Seq<char>, Option<usize>)>) -> bool {
    &&& classes.len() == entries.len()
    &&& forall|i: int|
        0 <= i < classes.len() ==> {
            &&& (#[trigger] classes[i]).id == entries[i].0
            &&& classes[i].name@ == entries[i].1
            &&& classes[i].size == entries[i].2
            &&& classes[i].pretty_parser == Some(PrettyParser::Hex)
            &&& !classes[i].block_tags
        }
}

/// A string with the given characters.
pub fn string_from_chars(cs: &[char]) -> (r: String)
    ensures
        r@ == cs@,
{
    let mut s = String::new();
    let mut i: usize = 0;
    while i < cs.len()
        invariant
            i <= cs@.len(),
            s@ == cs@.take(i as int),
        decreases cs@.len() - i,
    {
        push_char(&mut s, cs[i]);
        i += 1;
        assert(s@ =~= cs@.take(i as int));
    }
    assert(cs@.take(i as int) =~= cs@);
    s
}

/// Parses a schema file: each line is `<hex id> <name>` or `<hex id> <name> <size>`; the first
/// line that is not is an error.
pub fn parse_schemafile(s: &str) -> (r: Result<Vec<TagClass>, SchemaError>)
    ensures
        match (r, schema_entries(text_lines(s@), text_lines(s@).len())) {
            (Ok(v), Ok(entries)) => classes_match(v@, entries),
            (Err(e), Err(f)) => e == f,
            _ => false,
        },
{
    let chars = str_chars(s);
    let lines = split_lines(&chars);
    let ghost ls = text_lines(s@);
    assert(lines@.len() == ls.len());
    let mut schema: Vec<TagClass> = Vec::new();
    let mut n: usize = 0;
    while n < lines.len()
        invariant
            n <= lines@.len(),
            ls == text_lines(s@),
            lines@.map_values(|l: Vec<char>| l@) == ls,
            schema_entries(ls, n as nat) matches Ok(entries) && classes_match(schema@, entries),
        decreases lines@.len() - n,
    {
        assert(lines@[n as int]@ == ls[n as int]);
        let words = split_words(&lines[n]);
        let ghost ws = text_words(ls[n as int]);
        assert(words@.len() == ws.len());
        let ghost prev = schema_entries(ls, n as nat)->Ok_0;
        proof {
            if schema_line(ws, n) is Err {
                assert(schema_entries(ls, (n + 1) as nat) == Err::<Seq<(u32, Seq<char>, Option<usize>)>, SchemaError>(schema_line(ws, n)->Err_0));
                lemma_schema_error_persists(ls, (n + 1) as nat, ls.len());
            }
        }
        if words.len() == 0 {
            return Err(SchemaError::MissingClassId { line: n });
        }
        assert(words@[0]@ == ws[0]);
        let id = match parse_unsigned_chars(words[0].as_slice(), 16, u32::MAX as u64) {
            Some(v) => v as u32,
            None => return Err(SchemaError::InvalidClassId { line: n }),
        };
        if words.len() < 2 {
            return Err(SchemaError::MissingName { line: n });
        }
        assert(words@[1]@ == ws[1]);
        let size = if words.len() >= 3 {
            assert(words@[2]@ == ws[2]);
            match parse_unsigned_chars(words[2].as_slice(), 10, usize::MAX as u64) {
                Some(v) => Some(v as usize),
                None => return Err(SchemaError::InvalidSize { line: n }),
            }
        } else {
            None
        };
        let name = string_from_chars(words[1].as_slice());
        let ghost before = schema@;
        schema.push(TagClass { id, name, size, pretty_parser: Some(PrettyParser::Hex), block_tags: false });
        proof {
            let entries = schema_entries(ls, (n + 1) as nat)->Ok_0;
            assert(entries == prev.push((id, ws[1], size)));
            assert forall|i: int| 0 <= i < schema@.len() implies {
                &&& (#[trigger] schema@[i]).id == entries[i].0
                &&& schema@[i].name@ == entries[i].1
                &&& schema@[i].size == entries[i].2
                &&& schema@[i].pretty_parser == Some(PrettyParser::Hex)
                &&& !schema@[i].block_tags
            } by {
                if i < before.len() {
                    assert(schema@[i] == before[i]);
                }
            }
        }
        n += 1;
    }
    Ok(schema)
}

} // verus!
