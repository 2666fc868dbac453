//! Writing JSON text: quoted strings, booleans and unsigned numbers.
use vstd::prelude::*;

use crate::text::{chars_of, push_str, string_push};

verus! {

/// Lower-case hexadecimal digit of `d` (`d < 16`).
pub open spec fn hex_digit(d: nat) -> char {
    if d < 10 {
        ((48 + d) as u32) as char
    } else {
        ((87 + d) as u32) as char
    }
}

/// The JSON escape of one character inside a string literal.
pub open spec fn json_escape_char(c: char) -> Seq<char> {
    if c == '"' {
        seq!['\\', '"']
    } else if c == '\\' {
        seq!['\\', '\\']
    } else if c == '\n' {
        seq!['\\', 'n']
    } else if c == '\r' {
        seq!['\\', 'r']
    } else if c == '\t' {
        seq!['\\', 't']
    } else if c == '\u{8}' {
        seq!['\\', 'b']
    } else if c == '\u{c}' {
        seq!['\\', 'f']
    } else if (c as u32) < 0x20 {
        seq!['\\', 'u', '0', '0', hex_digit((c as u32) as nat / 16), hex_digit((c as u32) as nat % 16)]
    } else {
        seq![c]
    }
}

/// The JSON escape of a character sequence, without the quotes.
pub open spec fn json_escape(s: Seq<char>) -> Seq<char>
    decreases s.len(),
{
    if s.len() == 0 {
        Seq::empty()
    } else {
        json_escape(s.drop_last()) + json_escape_char(s.last())
    }
}

/// A JSON string literal holding `s`.
pub open spec fn json_quote(s: Seq<char>) -> Seq<char> {
    seq!['"'] + json_escape(s) + seq!['"']
}

/// A JSON boolean literal.
pub open spec fn json_bool(b: bool) -> Seq<char> {
    if b {
        "true"@
    } else {
        "false"@
    }
}

/// The decimal digit of `d` (`d < 10`).
pub open spec fn decimal_digit(d: nat) -> char {
    ((48 + d) as u32) as char
}

/// The decimal writing of `n`, without leading zeros.
pub open spec fn json_u32(n: nat) -> Seq<char>
    decreases n,
{
    if n < 10 {
        seq![decimal_digit(n)]
    } else {
        json_u32(n / 10).push(decimal_digit(n % 10))
    }
}

/// Appends the JSON escape of `c`.
pub fn push_json_escape_char(out: &mut String, c: char)
    ensures
        final(out)@ == old(out)@ + json_escape_char(c),
{
    let ghost start = out@;
    if c == '"' {
        string_push(out, '\\');
        string_push(out, '"');
    } else if c == '\\' {
        string_push(out, '\\');
        string_push(out, '\\');
    } else if c == '\n' {
        string_push(out, '\\');
        string_push(out, 'n');
    } else if c == '\r' {
        string_push(out, '\\');
        string_push(out, 'r');
    } else if c == '\t' {
        string_push(out, '\\');
        string_push(out, 't');
    } else if c == '\u{8}' {
        string_push(out, '\\');
        string_push(out, 'b');
    } else if c == '\u{c}' {
        string_push(out, '\\');
        string_push(out, 'f');
    } else if (c as u32) < 0x20 {
        let u = c as u32;
        string_push(out, '\\');
        string_push(out, 'u');
        string_push(out, '0');
        string_push(out, '0');
        string_push(out, hex_digit_exec(u / 16));
        string_push(out, hex_digit_exec(u % 16));
    } else {
        string_push(out, c);
    }
    assert(out@ =~= start + json_escape_char(c));
}

/// Lower-case hexadecimal digit of `d`.
pub fn hex_digit_exec(d: u32) -> (c: char)
    requires
        d < 16,
    ensures
        c == hex_digit(d as nat),
{
    if d < 10 {
        char_from_digit(48 + d)
    } else {
        char_from_digit(87 + d)
    }
}

/// The ASCII character with code `u`.
fn char_from_digit(u: u32) -> (c: char)
    requires
        48 <= u < 128,
    ensures
        c == u as char,
{
    let b: u8 = u as u8;
    let c = b as char;
    assert(c as u32 == u);
    c
}

/// Appends `s` as a JSON string literal.
pub fn push_json_quoted(out: &mut String, s: &str)
    ensures
        final(out)@ == old(out)@ + json_quote(s@),
{
    let v = chars_of(s);
    let ghost start = out@;
    string_push(out, '"');
    let mut i: usize = 0;
    while i < v.len()
        invariant
            i <= v.len(),
            v@ == s@,
            out@ == start + seq!['"'] + json_escape(v@.take(i as int)),
        decreases v.len() - i,
    {
        let ghost before = out@;
        push_json_escape_char(out, v[i]);
        assert(v@.take(i + 1).drop_last() =~= v@.take(i as int));
        assert(out@ =~= start + seq!['"'] + json_escape(v@.take(i + 1)));
        i = i + 1;
    }
    string_push(out, '"');
    assert(v@.take(v.len() as int) =~= v@);
    assert(out@ =~= start + json_quote(s@));
}

/// Appends a JSON boolean literal.
pub fn push_json_bool(out: &mut String, b: bool)
    ensures
        final(out)@ == old(out)@ + json_bool(b),
{
    if b {
        push_str(out, "true");
    } else {
        push_str(out, "false");
    }
}

/// Appends the decimal writing of `n`.
pub fn push_json_u32(out: &mut String, n: u32)
    ensures
        final(out)@ == old(out)@ + json_u32(n as nat),
    decreases n,
{
    let ghost start = out@;
    if n >= 10 {
        push_json_u32(out, n / 10);
    }
    let d = char_from_digit(48 + n % 10);
    string_push(out, d);
    assert(out@ =~= start + json_u32(n as nat));
}

/// Appends the decimal writing of `n`.
pub fn push_decimal_u128(out: &mut String, n: u128)
    ensures
        final(out)@ == old(out)@ + json_u32(n as nat),
    decreases n,
{
    let ghost start = out@;
    if n >= 10 {
        push_decimal_u128(out, n / 10);
    }
    let d = char_from_digit((48 + n % 10) as u32);
    string_push(out, d);
    assert(out@ =~= start + json_u32(n as nat));
}

} // verus!
