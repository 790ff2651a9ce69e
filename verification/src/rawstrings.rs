use vstd::prelude::*;
use crate::bytes::{Endian, be_value, le_value, read_u32_at, read_u64_at};
use crate::strutil::{latin1_char, latin1_chars, push_char};

verus! {

/// Splitting state after `buf`: the strings found so far (start position and characters), the
/// start of the current string and its characters.
pub open spec fn nul_split(buf: Seq<u8>) -> (Seq<(int, Seq<char>)>, int, Seq<char>)
    decreases buf.len(),
{
    if buf.len() == 0 {
        (Seq::empty(), 0, Seq::empty())
    } else {
        let (done, start, cur) = nul_split(buf.drop_last());
        if buf.last() == 0 {
            (
                if cur.len() > 0 {
                    done.push((start, cur))
                } else {
                    done
                },
                buf.len() as int,
                Seq::empty(),
            )
        } else {
            (done, start, cur.push(latin1_char(buf.last())))
        }
    }
}

/// The non-empty runs of non-NUL bytes of `buf`, in order, each with its start position,
/// decoded byte by byte (Latin-1).
pub open spec fn nul_strings(buf: Seq<u8>) -> Seq<(int, Seq<char>)> {
    let (done, start, cur) = nul_split(buf);
    if cur.len() > 0 {
        done.push((start, cur))
    } else {
        done
    }
}

/// Where the bytes of a raw string blob whose marker is at `offset` start, and how many there are.
pub open spec fn blob_header(legacy: bool, data: Seq<u8>, offset: int) -> Option<(int, int)> {
    if legacy {
        if offset + 8 <= data.len() {
            Some((offset + 8, be_value(data.subrange(offset + 4, offset + 8)) as int))
        } else {
            None
        }
    } else {
        if offset + 12 <= data.len() {
            Some((offset + 12, le_value(data.subrange(offset + 4, offset + 12)) as int))
        } else {
            None
        }
    }
}

/// Strings of the raw string blob at `offset`, with their absolute offsets: nothing when the
/// header or the buffer runs past the end of the data.
pub open spec fn blob_strings(legacy: bool, data: Seq<u8>, offset: int) -> Seq<(int, Seq<char>)> {
    match blob_header(legacy, data, offset) {
        Some((base, size)) => if base + size <= data.len() {
            nul_strings(data.subrange(base, base + size)).map_values(
                |p: (int, Seq<char>)| (base + p.0, p.1),
            )
        } else {
            Seq::empty()
        },
        None => Seq::empty(),
    }
}

/// The buffer size of a blob fits the allocation limit (`isize::MAX`) that the original's
/// zero-filled buffer needs.
pub open spec fn blob_size_ok(legacy: bool, data: Seq<u8>, offset: int) -> bool {
    match blob_header(legacy, data, offset) {
        Some((_, size)) => size <= isize::MAX,
        None => true,
    }
}

/// Each string found is non-empty, free of NUL and is the decoded bytes at its start,
/// bounded by NUL bytes or the ends of the buffer.
pub proof fn lemma_nul_strings_are_runs(buf: Seq<u8>)
    ensures
        forall|k: int|
            0 <= k < nul_strings(buf).len() ==> {
                let (st, s) = #[trigger] nul_strings(buf)[k];
                &&& s.len() > 0
                &&& 0 <= st
                &&& st + s.len() <= buf.len()
                &&& s == latin1_chars(buf.subrange(st, st + s.len()))
                &&& (st == 0 || buf[st - 1] == 0)
                &&& (st + s.len() == buf.len() || buf[st + s.len()] == 0)
                &&& !s.contains('\0')
            },
{
    lemma_nul_split_inv(buf);
    assert forall|k: int| 0 <= k < nul_strings(buf).len() implies {
        let (st, s) = #[trigger] nul_strings(buf)[k];
        &&& s.len() > 0
        &&& 0 <= st
        &&& st + s.len() <= buf.len()
        &&& s == latin1_chars(buf.subrange(st, st + s.len()))
        &&& (st == 0 || buf[st - 1] == 0)
        &&& (st + s.len() == buf.len() || buf[st + s.len()] == 0)
        &&& !s.contains('\0')
    } by {
        assert(run_ok(buf, nul_strings(buf)[k].0, nul_strings(buf)[k].1, false));
    }
}

spec fn run_ok(buf: Seq<u8>, st: int, s: Seq<char>, closed: bool) -> bool {
    &&& 0 <= st
    &&& st + s.len() <= buf.len()
    &&& s == latin1_chars(buf.subrange(st, st + s.len()))
    &&& (st == 0 || buf[st - 1] == 0)
    &&& (closed ==> s.len() > 0 && st + s.len() < buf.len() && buf[st + s.len()] == 0)
    &&& !s.contains('\0')
}

proof fn lemma_nul_split_inv(buf: Seq<u8>)
    ensures
        ({
            let (done, start, cur) = nul_split(buf);
            &&& forall|k: int| 0 <= k < done.len() ==> run_ok(buf, done[k].0, done[k].1, true)
            &&& start + cur.len() == buf.len()
            &&& run_ok(buf, start, cur, false)
        }),
        forall|k: int|
            0 <= k < nul_strings(buf).len() ==> run_ok(
                buf,
                #[trigger] nul_strings(buf)[k].0,
                nul_strings(buf)[k].1,
                false,
            ) && nul_strings(buf)[k].1.len() > 0 && (nul_strings(buf)[k].0 + nul_strings(
                buf,
            )[k].1.len() == buf.len() || buf[nul_strings(buf)[k].0 + nul_strings(buf)[k].1.len()]
                == 0),
    decreases buf.len(),
{
    if buf.len() > 0 {
        let p = buf.drop_last();
        lemma_nul_split_inv(p);
        let (done, start, cur) = nul_split(p);
        assert forall|k: int| 0 <= k < done.len() implies run_ok(buf, done[k].0, done[k].1, true) by {
            let (st, s) = done[k];
            assert(run_ok(p, st, s, true));
            assert(buf.subrange(st, st + s.len()) == p.subrange(st, st + s.len()));
            assert(buf[st + s.len()] == p[st + s.len()]);
            if st > 0 {
                assert(buf[st - 1] == p[st - 1]);
            }
        }
        assert(buf.subrange(start, start + cur.len()) == p.subrange(start, start + cur.len()));
        if start > 0 {
            assert(buf[start - 1] == p[start - 1]);
        }
        if buf.last() == 0 {
            if cur.len() > 0 {
                let d2 = done.push((start, cur));
                assert forall|k: int| 0 <= k < d2.len() implies run_ok(
                    buf,
                    d2[k].0,
                    d2[k].1,
                    true,
                ) by {
                    if k < done.len() {
                        assert(d2[k] == done[k]);
                    }
                }
            }
            assert(buf.subrange(buf.len() as int, buf.len() as int) =~= Seq::<u8>::empty());
            assert(latin1_chars(Seq::<u8>::empty()) =~= Seq::<char>::empty());
        } else {
            let c2 = cur.push(latin1_char(buf.last()));
            assert(buf.subrange(start, start + c2.len()) =~= buf.subrange(
                start,
                start + cur.len(),
            ).push(buf.last()));
            assert(latin1_chars(buf.subrange(start, start + c2.len())) =~= c2);
            assert(latin1_char(buf.last()) != '\0');
            assert forall|j: int| 0 <= j < c2.len() implies c2[j] != '\0' by {
                if j < cur.len() {
                    assert(c2[j] == cur[j]);
                    assert(!cur.contains('\0'));
                }
            }
        }
    } else {
        assert(buf.subrange(0, 0) =~= Seq::<u8>::empty());
        assert(latin1_chars(Seq::<u8>::empty()) =~= Seq::<char>::empty());
    }
    let (done, start, cur) = nul_split(buf);
    if cur.len() > 0 {
        let d2 = done.push((start, cur));
        assert forall|k: int| 0 <= k < d2.len() implies run_ok(buf, d2[k].0, d2[k].1, false)
            && d2[k].1.len() > 0 && (d2[k].0 + d2[k].1.len() == buf.len() || buf[d2[k].0
            + d2[k].1.len()] == 0) by {
            if k < done.len() {
                assert(d2[k] == done[k]);
                assert(run_ok(buf, done[k].0, done[k].1, true));
            }
        }
    } else {
        assert forall|k: int| 0 <= k < done.len() implies run_ok(buf, done[k].0, done[k].1, false)
            && done[k].1.len() > 0 && (done[k].0 + done[k].1.len() == buf.len() || buf[done[k].0
            + done[k].1.len()] == 0) by {
            assert(run_ok(buf, done[k].0, done[k].1, true));
        }
    }
}

/// Reads the NUL-separated strings of the raw string blob whose marker word is at `offset`.
/// `legacy` selects the 32-bit big-endian size header of the oldest releases; otherwise the
/// size is a 64-bit little-endian integer. A header or buffer past the end of `data` gives no
/// strings.
pub fn read_raw_string_blob(data: &[u8], offset: u64, legacy: bool) -> (r: Vec<(u64, String)>)
    requires
        blob_size_ok(legacy, data@, offset as int),
    ensures
        r@.len() == blob_strings(legacy, data@, offset as int).len(),
        forall|k: int|
            0 <= k < r@.len() ==> r@[k].0 as int == blob_strings(legacy, data@, offset as int)[k].0
                && (#[trigger] r@[k]).1@ == blob_strings(legacy, data@, offset as int)[k].1,
{
    let mut strings: Vec<(u64, String)> = Vec::new();
    let len = data.len();
    if offset >= len as u64 {
        return strings;
    }
    let o = offset as usize;
    let (base, size): (usize, u64) = if legacy {
        if len < 8 || o > len - 8 {
            return strings;
        }
        (o + 8, read_u32_at(data, o + 4, Endian::Big) as u64)
    } else {
        if len < 12 || o > len - 12 {
            return strings;
        }
        (o + 12, read_u64_at(data, o + 4, Endian::Little))
    };
    proof {
        assert(blob_header(legacy, data@, offset as int) == Some((base as int, size as int)));
    }
    if size > (len - base) as u64 {
        return strings;
    }
    let size = size as usize;
    let ghost buf = data@.subrange(base as int, base + size);
    let mut s = String::new();
    let mut string_start: usize = 0;
    let mut i: usize = 0;
    while i < size
        invariant
            base + size <= len,
            len == data.len(),
            buf == data@.subrange(base as int, base + size),
            i <= size,
            ({
                let (done, st, cur) = nul_split(buf.take(i as int));
                &&& strings@.len() == done.len()
                &&& forall|k: int|
                    0 <= k < strings@.len() ==> strings@[k].0 as int == base + done[k].0
                        && (#[trigger] strings@[k]).1@ == done[k].1
                &&& string_start as int == st
                &&& s@ == cur
            }),
            string_start <= i,
        decreases size - i,
    {
        let b = data[base + i];
        proof {
            assert(buf.take(i + 1).drop_last() == buf.take(i as int));
            assert(buf.take(i + 1).last() == b);
        }
        if b == 0 {
            if s.unicode_len() > 0 {
                strings.push(((base + string_start) as u64, s));
            }
            s = String::new();
            string_start = i + 1;
        } else {
            push_char(&mut s, b as char);
        }
        i = i + 1;
    }
    proof {
        assert(buf.take(size as int) == buf);
    }
    if s.unicode_len() > 0 {
        strings.push(((base + string_start) as u64, s));
    }
    strings
}

} // verus!
