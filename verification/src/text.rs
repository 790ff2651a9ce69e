//! Text helpers: deciphering localized string data, shortening strings for display and
//! formatting sizes.
use vstd::prelude::*;
use vstd::utf8::{decode_utf8, valid_utf8};
use crate::strutil::{decimal, push_char, push_decimal, push_str};

verus! {

/// Name for what `String::from_utf8_lossy` returns for a byte sequence.
pub uninterp spec fn utf8_lossy(bytes: Seq<u8>) -> Seq<char>;

/// Decodes bytes as UTF-8, replacing invalid sequences: calls `String::from_utf8_lossy`, which
/// std documents as returning the string unchanged when the bytes are valid UTF-8 (and with
/// U+FFFD in place of each invalid sequence otherwise, which is left unstated here).
#[verifier::external_body]
fn from_utf8_lossy(bytes: &[u8]) -> (r: String)
    ensures
        r@ == utf8_lossy(bytes@),
        valid_utf8(bytes@) ==> r@ == decode_utf8(bytes@),
{
    String::from_utf8_lossy(bytes).to_string()
}

/// Byte count of the UTF-8 sequence that a lead byte starts.
pub open spec fn lead_width(b: u8) -> nat {
    if b <= 0xbf {
        1
    } else if b <= 0xdf {
        2
    } else if b <= 0xef {
        3
    } else {
        4
    }
}

/// Deciphering from position `off`: the cipher is added to the last byte of each sequence,
/// whose length the lead bytes of the original data give. `None` when a sequence runs past the
/// end or an addition overflows a byte.
pub open spec fn decipher_from(data: Seq<u8>, cipher: u8, off: nat, acc: Seq<u8>) -> Option<Seq<u8>>
    decreases data.len() - off,
{
    if off >= data.len() {
        Some(acc)
    } else {
        let t = off + lead_width(data[off as int]) - 1;
        if t >= data.len() || acc[t] + cipher > 255 {
            None
        } else {
            decipher_from(data, cipher, off + lead_width(data[off as int]), acc.update(t, (acc[t] + cipher) as u8))
        }
    }
}

/// The deciphered bytes of `data`, if deciphering stays inside the data without overflow.
pub open spec fn deciphered(data: Seq<u8>, cipher: u16) -> Option<Seq<u8>> {
    decipher_from(data, cipher as u8, 0, data)
}

/// Undoes the text cipher of older releases: adds the cipher to the last byte of each UTF-8
/// sequence. `None` when a sequence runs past the end or an addition overflows a byte.
pub fn decipher_text(data: &[u8], cipher: u16) -> (r: Option<Vec<u8>>)
    ensures
        r is Some <==> deciphered(data@, cipher) is Some,
        r matches Some(v) ==> v@ == deciphered(data@, cipher)->0,
{
    let mut data_clone = vstd::slice::slice_to_vec(data);
    let c = cipher as u8;
    let mut off: usize = 0;
    while off < data.len()
        invariant
            off <= data@.len(),
            data_clone@.len() == data@.len(),
            c == cipher as u8,
            decipher_from(data@, c, off as nat, data_clone@) == deciphered(data@, cipher),
        decreases data@.len() - off,
    {
        let b = data[off];
        let w: usize = if b <= 0xbf {
            1
        } else if b <= 0xdf {
            2
        } else if b <= 0xef {
            3
        } else {
            4
        };
        if w - 1 >= data.len() - off {
            return None;
        }
        let t = off + w - 1;
        if data_clone[t] > 255 - c {
            return None;
        }
        let v = data_clone[t] + c;
        data_clone.set(t, v);
        off += w;
    }
    Some(data_clone)
}

/// Decodes localized string data: as UTF-8 when `cipher` is 0, else after deciphering.
pub fn decode_text(data: &[u8], cipher: u16) -> (r: String)
    requires
        cipher == 0 || deciphered(data@, cipher) is Some,
    ensures
        r@ == (if cipher == 0 { utf8_lossy(data@) } else { utf8_lossy(deciphered(data@, cipher)->0) }),
        cipher == 0 && valid_utf8(data@) ==> r@ == decode_utf8(data@),
        cipher != 0 && valid_utf8(deciphered(data@, cipher)->0) ==> r@ == decode_utf8(deciphered(data@, cipher)->0),
{
    if cipher == 0 {
        return from_utf8_lossy(data);
    }
    match decipher_text(data, cipher) {
        Some(data_clone) => from_utf8_lossy(data_clone.as_slice()),
        None => String::new(),
    }
}

/// The characters of `s`.
pub fn str_chars(s: &str) -> (r: Vec<char>)
    ensures
        r@ == s@,
{
    broadcast use vstd::string::axiom_spec_iter;
    let mut v: Vec<char> = Vec::new();
    for c in it: s.chars()
        invariant
            v@ == it.seq().take(it.index() as int),
    {
        v.push(c);
        assert(v@ =~= it.seq().take(it.index() as int + 1));
    }
    assert(v@ =~= s@);
    v
}

/// `s` with each line feed written as a backslash and `n`.
pub open spec fn escape_newlines(s: Seq<char>) -> Seq<char>
    decreases s.len(),
{
    if s.len() == 0 {
        seq![]
    } else {
        escape_newlines(s.drop_last()) + (if s.last() == '\n' { seq!['\\', 'n'] } else { seq![s.last()] })
    }
}

/// Number of bytes UTF-8 takes for a character.
pub open spec fn utf8_width(c: char) -> nat {
    if (c as u32) < 0x80 {
        1
    } else if (c as u32) < 0x800 {
        2
    } else if (c as u32) < 0x10000 {
        3
    } else {
        4
    }
}

/// Number of bytes UTF-8 takes for a string.
pub open spec fn utf8_length(s: Seq<char>) -> nat
    decreases s.len(),
{
    if s.len() == 0 {
        0
    } else {
        utf8_length(s.drop_last()) + utf8_width(s.last())
    }
}

/// `s` with line feeds escaped, cut to its first `max_length` characters followed by `...` when
/// it takes `max_length` bytes or more.
pub open spec fn truncated_stripped(s: Seq<char>, max_length: nat) -> Seq<char> {
    let e = escape_newlines(s);
    if utf8_length(e) >= max_length {
        e.take(if max_length < e.len() { max_length as int } else { e.len() as int }) + "..."@
    } else {
        e
    }
}

/// Escapes line feeds and shortens the result to `max_length` characters plus `...` when it
/// is `max_length` bytes long or more.
pub fn truncate_string_stripped(s: &str, max_length: usize) -> (r: String)
    ensures
        r@ == truncated_stripped(s@, max_length as nat),
{
    let chars = str_chars(s);
    let mut escaped: Vec<char> = Vec::new();
    let mut bytes: usize = 0;
    let mut i: usize = 0;
    while i < chars.len()
        invariant
            i <= chars@.len(),
            chars@ == s@,
            escaped@ == escape_newlines(chars@.take(i as int)),
            bytes == (if utf8_length(escaped@) < max_length { utf8_length(escaped@) } else { max_length as nat }),
        decreases chars@.len() - i,
    {
        let c = chars[i];
        assert(chars@.take(i + 1).drop_last() =~= chars@.take(i as int));
        let ghost before = escaped@;
        if c == '\n' {
            escaped.push('\\');
            escaped.push('n');
            assert(escaped@ =~= before + seq!['\\', 'n']);
        } else {
            escaped.push(c);
            assert(escaped@ =~= before + seq![c]);
        }
        proof {
            lemma_utf8_length_append(before, if c == '\n' { seq!['\\', 'n'] } else { seq![c] });
            assert(utf8_length(seq!['\\', 'n']) == 2) by {
                reveal_with_fuel(utf8_length, 3);
                assert(seq!['\\', 'n'].drop_last() =~= seq!['\\']);
                assert(seq!['\\'].drop_last() =~= Seq::<char>::empty());
            }
            assert(utf8_length(seq![c]) == utf8_width(c)) by {
                reveal_with_fuel(utf8_length, 2);
                assert(seq![c].drop_last() =~= Seq::<char>::empty());
            }
        }
        let w: usize = if c == '\n' {
            2
        } else if (c as u32) < 0x80 {
            1
        } else if (c as u32) < 0x800 {
            2
        } else if (c as u32) < 0x10000 {
            3
        } else {
            4
        };
        if bytes < max_length {
            if w >= max_length - bytes {
                bytes = max_length;
            } else {
                bytes = bytes + w;
            }
        }
        i += 1;
    }
    assert(chars@.take(i as int) =~= chars@);
    let mut out = String::new();
    if bytes >= max_length {
        let n = if max_length < escaped.len() { max_length } else { escaped.len() };
        let mut j: usize = 0;
        while j < n
            invariant
                j <= n,
                n <= escaped@.len(),
                out@ == escaped@.take(j as int),
            decreases n - j,
        {
            push_char(&mut out, escaped[j]);
            j += 1;
            assert(out@ =~= escaped@.take(j as int));
        }
        push_str(&mut out, "...");
    } else {
        let mut j: usize = 0;
        while j < escaped.len()
            invariant
                j <= escaped@.len(),
                out@ == escaped@.take(j as int),
            decreases escaped@.len() - j,
        {
            push_char(&mut out, escaped[j]);
            j += 1;
            assert(out@ =~= escaped@.take(j as int));
        }
        assert(escaped@.take(j as int) =~= escaped@);
    }
    out
}

/// UTF-8 length of a concatenation.
pub proof fn lemma_utf8_length_append(a: Seq<char>, b: Seq<char>)
    ensures
        utf8_length(a + b) == utf8_length(a) + utf8_length(b),
    decreases b.len(),
{
    if b.len() == 0 {
        assert(a + b =~= a);
    } else {
        assert((a + b).drop_last() =~= a + b.drop_last());
        lemma_utf8_length_append(a, b.drop_last());
    }
}

/// `n / d` in hundredths, rounded to nearest with ties to even.
pub open spec fn hundredths(n: nat, d: nat) -> nat {
    let q = n * 100 / d;
    let r = n * 100 % d;
    if 2 * r > d || (2 * r == d && q % 2 == 1) {
        q + 1
    } else {
        q
    }
}

/// A count of hundredths written with two decimals.
pub open spec fn two_decimals(h: nat) -> Seq<char> {
    decimal(h / 100) + seq!['.', (48 + (h % 100) / 10) as char, (48 + h % 10) as char]
}

/// A size in bytes as a short human-readable text: bytes below 1 KiB, else KB, MB, GB or TB
/// (powers of 1024) with two decimals.
pub open spec fn file_size_text(size: nat) -> Seq<char> {
    let kb: nat = 1024;
    if size < kb {
        decimal(size) + " B"@
    } else if size < kb * kb {
        two_decimals(hundredths(size, kb)) + " KB"@
    } else if size < kb * kb * kb {
        two_decimals(hundredths(size, kb * kb)) + " MB"@
    } else if size < kb * kb * kb * kb {
        two_decimals(hundredths(size, kb * kb * kb)) + " GB"@
    } else {
        two_decimals(hundredths(size, kb * kb * kb * kb)) + " TB"@
    }
}

fn push_two_decimals(s: &mut String, n: u64, d: u64)
    requires
        0 < d <= 0x100_0000_0000,
        n < 0x20_0000_0000_0000,
    ensures
        final(s)@ == old(s)@ + two_decimals(hundredths(n as nat, d as nat)),
{
    let q = n * 100 / d;
    let r = n * 100 % d;
    let h = if 2 * r > d || (2 * r == d && q % 2 == 1) {
        q + 1
    } else {
        q
    };
    push_decimal(s, h / 100);
    push_char(s, '.');
    push_char(s, ((48 + (h % 100) / 10) as u8) as char);
    push_char(s, ((48 + h % 10) as u8) as char);
    assert(s@ =~= old(s)@ + two_decimals(hundredths(n as nat, d as nat)));
}

/// Formats a size in bytes: below 1 KiB as bytes, else in KB, MB, GB or TB (powers of 1024)
/// with two decimals, rounded to nearest with ties to even.
pub fn format_file_size(size: usize) -> (r: String)
    requires
        size < 0x20_0000_0000_0000,
    ensures
        r@ == file_size_text(size as nat),
{
    let kb: u64 = 1024;
    let mb: u64 = kb * 1024;
    let gb: u64 = mb * 1024;
    let tb: u64 = gb * 1024;
    let n = size as u64;
    let mut s = String::new();
    if n < kb {
        push_decimal(&mut s, n);
        push_str(&mut s, " B");
    } else if n < mb {
        push_two_decimals(&mut s, n, kb);
        push_str(&mut s, " KB");
    } else if n < gb {
        push_two_decimals(&mut s, n, mb);
        push_str(&mut s, " MB");
    } else if n < tb {
        push_two_decimals(&mut s, n, gb);
        push_str(&mut s, " GB");
    } else {
        push_two_decimals(&mut s, n, tb);
        push_str(&mut s, " TB");
    }
    s
}

} // verus!
