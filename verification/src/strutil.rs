use vstd::prelude::*;

verus! {

/// Appends one character: calls `String::push`, which std documents as appending the given
/// `char` to the end of the string.
#[verifier::external_body]
pub(crate) fn push_char(s: &mut String, c: char)
    ensures
        final(s)@ == old(s)@.push(c),
{
    s.push(c);
}

/// Appends a string slice to the end of the string.
pub(crate) fn push_str(s: &mut String, t: &str)
    ensures
        final(s)@ == old(s)@ + t@,
{
    s.append(t);
}

/// The character whose code point is the byte's value (Latin-1 decoding of one byte).
pub open spec fn latin1_char(b: u8) -> char {
    b as char
}

/// Latin-1 decoding of a byte sequence.
pub open spec fn latin1_chars(bytes: Seq<u8>) -> Seq<char> {
    bytes.map_values(|b: u8| latin1_char(b))
}

/// Upper-case hexadecimal digit of a value below 16.
pub open spec fn hex_digit_upper(d: nat) -> char {
    if d < 10 {
        (48 + d) as char
    } else {
        (65 + (d - 10)) as char
    }
}

/// Hexadecimal digits of `v` (upper case), most significant first, at least `width` of them.
pub open spec fn hex_upper(v: nat, width: nat) -> Seq<char>
    decreases width, v,
{
    if v == 0 && width == 0 {
        Seq::empty()
    } else {
        hex_upper(v / 16, if width > 0 { (width - 1) as nat } else { 0 }).push(
            hex_digit_upper(v % 16),
        )
    }
}

/// Decimal digits of `v`, most significant first (a single `0` for zero).
pub open spec fn decimal(v: nat) -> Seq<char>
    decreases v,
{
    if v < 10 {
        seq![(48 + v) as char]
    } else {
        decimal(v / 10).push((48 + v % 10) as char)
    }
}

fn hex_digit_char(d: u64) -> (c: char)
    requires
        d < 16,
    ensures
        c == hex_digit_upper(d as nat),
{
    if d < 10 {
        ((48u8 + d as u8) as char)
    } else {
        ((65u8 + (d - 10) as u8) as char)
    }
}

/// Appends the upper-case hexadecimal form of `v`, zero-padded to at least `width` digits
/// (as `format!("{:0width$X}", v)` writes it).
pub fn push_hex_upper(s: &mut String, v: u64, width: usize)
    ensures
        final(s)@ == old(s)@ + hex_upper(v as nat, width as nat),
    decreases width, v,
{
    if v == 0 && width == 0 {
        assert(old(s)@ + hex_upper(v as nat, width as nat) == old(s)@);
        return ;
    }
    let w = if width > 0 {
        width - 1
    } else {
        0
    };
    push_hex_upper(s, v / 16, w);
    let c = hex_digit_char(v % 16);
    let ghost before = s@;
    push_char(s, c);
    assert(s@ == old(s)@ + hex_upper(v as nat, width as nat));
}

/// Appends the decimal form of `v`.
pub fn push_decimal(s: &mut String, v: u64)
    ensures
        final(s)@ == old(s)@ + decimal(v as nat),
    decreases v,
{
    if v < 10 {
        push_char(s, (48u8 + v as u8) as char);
        assert(old(s)@.push((48u8 + v as u8) as char) == old(s)@ + decimal(v as nat));
    } else {
        push_decimal(s, v / 10);
        push_char(s, (48u8 + (v % 10) as u8) as char);
        assert(s@ == old(s)@ + decimal(v as nat));
    }
}

/// Lower-case hexadecimal digit of a value below 16.
pub open spec fn hex_digit_lower(d: nat) -> char {
    if d < 10 {
        (48 + d) as char
    } else {
        (97 + (d - 10)) as char
    }
}

/// Hexadecimal digits of `v` (lower case), most significant first, at least `width` of them.
pub open spec fn hex_lower(v: nat, width: nat) -> Seq<char>
    decreases width, v,
{
    if v == 0 && width == 0 {
        Seq::empty()
    } else {
        hex_lower(v / 16, if width > 0 { (width - 1) as nat } else { 0 }).push(
            hex_digit_lower(v % 16),
        )
    }
}

/// Appends the lower-case hexadecimal form of `v`, zero-padded to at least `width` digits
/// (as `format!("{:0width$x}", v)` writes it).
pub fn push_hex_lower(s: &mut String, v: u64, width: usize)
    ensures
        final(s)@ == old(s)@ + hex_lower(v as nat, width as nat),
    decreases width, v,
{
    if v == 0 && width == 0 {
        assert(old(s)@ + hex_lower(v as nat, width as nat) == old(s)@);
        return ;
    }
    let w = if width > 0 {
        width - 1
    } else {
        0
    };
    push_hex_lower(s, v / 16, w);
    let d = v % 16;
    let c = if d < 10 {
        (48u8 + d as u8) as char
    } else {
        (97u8 + (d - 10) as u8) as char
    };
    push_char(s, c);
    assert(s@ == old(s)@ + hex_lower(v as nat, width as nat));
}

} // verus!
