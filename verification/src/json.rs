//! JSON text that the service hands out: quoted strings and the small
//! objects built around them.
use vstd::prelude::*;

verus! {

/// `String::push`: appends `ch` to the end of `s`, as its documentation says.
pub assume_specification[ String::push ](s: &mut String, ch: char)
    ensures
        final(s)@ == old(s)@.push(ch),
;

/// The lowercase hexadecimal digit for `d` (meant for `d < 16`).
pub open spec fn hex_digit(d: nat) -> char {
    if d < 10 {
        (48 + d) as char
    } else {
        (87 + d) as char
    }
}

/// How `serde_json` writes the character `c` inside a string literal: the
/// quote and the backslash behind a backslash; backspace, tab, line feed,
/// form feed and carriage return as `\b \t \n \f \r`; the other control
/// characters below U+0020 as `\u00XX` in lowercase hexadecimal; every
/// other character as itself.
pub open spec fn json_escape_char(c: char) -> Seq<char> {
    if c == '"' {
        seq!['\\', '"']
    } else if c == '\\' {
        seq!['\\', '\\']
    } else if c == '\u{8}' {
        seq!['\\', 'b']
    } else if c == '\t' {
        seq!['\\', 't']
    } else if c == '\n' {
        seq!['\\', 'n']
    } else if c == '\u{c}' {
        seq!['\\', 'f']
    } else if c == '\r' {
        seq!['\\', 'r']
    } else if (c as u32) < 0x20 {
        seq!['\\', 'u', '0', '0', hex_digit((c as u32 / 16) as nat), hex_digit((c as u32 % 16) as nat)]
    } else {
        seq![c]
    }
}

/// The characters of `s`, each written as `json_escape_char` says.
pub open spec fn json_escaped(s: Seq<char>) -> Seq<char>
    decreases s.len(),
{
    if s.len() == 0 {
        Seq::empty()
    } else {
        json_escaped(s.drop_last()) + json_escape_char(s.last())
    }
}

/// The JSON string literal that `serde_json` writes for `s`: `s` escaped,
/// between double quotes.
pub open spec fn json_string_literal(s: Seq<char>) -> Seq<char> {
    seq!['"'] + json_escaped(s) + seq!['"']
}

/// The value of a hexadecimal digit, either case.
pub open spec fn hex_value(c: char) -> Option<nat> {
    if '0' <= c && c <= '9' {
        Some((c as nat - 48) as nat)
    } else if 'a' <= c && c <= 'f' {
        Some((c as nat - 87) as nat)
    } else if 'A' <= c && c <= 'F' {
        Some((c as nat - 55) as nat)
    } else {
        None
    }
}

/// The character that a two-character JSON escape `\x` stands for.
pub open spec fn short_escape_value(x: char) -> Option<char> {
    if x == '"' {
        Some('"')
    } else if x == '\\' {
        Some('\\')
    } else if x == '/' {
        Some('/')
    } else if x == 'b' {
        Some('\u{8}')
    } else if x == 'f' {
        Some('\u{c}')
    } else if x == 'n' {
        Some('\n')
    } else if x == 'r' {
        Some('\r')
    } else if x == 't' {
        Some('\t')
    } else {
        None
    }
}

/// The code point that a `\uXXXX` escape starting at `e[0]` stands for.
pub open spec fn unicode_escape_value(e: Seq<char>) -> Option<nat> {
    if e.len() >= 6 && e[0] == '\\' && e[1] == 'u' && hex_value(e[2]) is Some && hex_value(e[3]) is Some
        && hex_value(e[4]) is Some && hex_value(e[5]) is Some {
        Some(
            4096 * hex_value(e[2])->0 + 256 * hex_value(e[3])->0 + 16 * hex_value(e[4])->0
                + hex_value(e[5])->0,
        )
    } else {
        None
    }
}

/// Reads the inside of a JSON string literal (RFC 8259) back into the
/// characters it stands for; `None` when it is not one (an unescaped quote
/// or control character, a malformed escape, or a lone surrogate escape).
pub open spec fn json_unescape(e: Seq<char>) -> Option<Seq<char>>
    decreases e.len(),
{
    if e.len() == 0 {
        Some(Seq::empty())
    } else if e[0] == '\\' {
        if e.len() >= 2 && short_escape_value(e[1]) is Some {
            match json_unescape(e.skip(2)) {
                Some(rest) => Some(seq![short_escape_value(e[1])->0] + rest),
                None => None,
            }
        } else if unicode_escape_value(e) is Some && (unicode_escape_value(e)->0 < 0xD800
            || 0xE000 <= unicode_escape_value(e)->0) {
            let v = unicode_escape_value(e)->0;
            match json_unescape(e.skip(6)) {
                Some(rest) => Some(seq![v as char] + rest),
                None => None,
            }
        } else {
            None
        }
    } else if e[0] == '"' || (e[0] as u32) < 0x20 {
        None
    } else {
        match json_unescape(e.skip(1)) {
            Some(rest) => Some(seq![e[0]] + rest),
            None => None,
        }
    }
}

/// Escaping distributes over concatenation.
pub proof fn lemma_json_escaped_concat(a: Seq<char>, b: Seq<char>)
    ensures
        json_escaped(a + b) == json_escaped(a) + json_escaped(b),
    decreases b.len(),
{
    if b.len() == 0 {
        assert(a + b =~= a);
        assert(json_escaped(a) + json_escaped(b) =~= json_escaped(a));
    } else {
        lemma_json_escaped_concat(a, b.drop_last());
        assert((a + b).drop_last() =~= a + b.drop_last());
        assert((a + b).last() == b.last());
        assert(json_escaped(a + b) =~= json_escaped(a) + json_escaped(b));
    }
}

proof fn lemma_hex_digit_value(d: nat)
    requires
        d < 16,
    ensures
        hex_value(hex_digit(d)) == Some(d),
{
}

/// Reading back the escape of one character gives that character, followed
/// by what the rest reads as.
proof fn lemma_unescape_char(c: char, rest: Seq<char>)
    ensures
        json_unescape(json_escape_char(c) + rest) == match json_unescape(rest) {
            Some(r) => Some(seq![c] + r),
            None => None,
        },
{
    let e = json_escape_char(c) + rest;
    if c == '"' || c == '\\' || c == '\u{8}' || c == '\t' || c == '\n' || c == '\u{c}' || c == '\r' {
        assert(e.skip(2) =~= rest);
    } else if (c as u32) < 0x20 {
        let n: nat = c as u32 as nat;
        lemma_hex_digit_value(n / 16);
        lemma_hex_digit_value(n % 16);
        assert(e[0] == '\\' && e[1] == 'u' && e[2] == '0' && e[3] == '0');
        assert(hex_value('0') == Some(0nat));
        assert(unicode_escape_value(e) == Some(n));
        assert(e.skip(6) =~= rest);
        assert(short_escape_value(e[1]) is None);
        assert((n as char) == c);
    } else {
        assert(e.skip(1) =~= rest);
    }
}

/// A string's escape reads back as the string itself: the escaping loses
/// and changes no character.
pub proof fn lemma_json_unescape_escaped(s: Seq<char>)
    ensures
        json_unescape(json_escaped(s)) == Some(s),
    decreases s.len(),
{
    if s.len() > 0 {
        let t = s.drop_first();
        lemma_json_unescape_escaped(t);
        assert(s =~= seq![s[0]] + t);
        lemma_json_escaped_concat(seq![s[0]], t);
        assert(seq![s[0]].drop_last() =~= Seq::<char>::empty());
        assert(seq![s[0]].last() == s[0]);
        assert(json_escaped(Seq::<char>::empty()) =~= Seq::<char>::empty());
        assert(json_escaped(seq![s[0]]) == json_escaped(seq![s[0]].drop_last()) + json_escape_char(
            s[0],
        ));
        assert(json_escaped(seq![s[0]]) =~= json_escape_char(s[0]));
        lemma_unescape_char(s[0], json_escaped(t));
    }
}

/// Appends the escaped form of `c` to `out`.
fn push_escaped_char(out: &mut String, c: char)
    ensures
        final(out)@ == old(out)@ + json_escape_char(c),
{
    if c == '"' {
        out.push('\\');
        out.push('"');
    } else if c == '\\' {
        out.push('\\');
        out.push('\\');
    } else if c == '\u{8}' {
        out.push('\\');
        out.push('b');
    } else if c == '\t' {
        out.push('\\');
        out.push('t');
    } else if c == '\n' {
        out.push('\\');
        out.push('n');
    } else if c == '\u{c}' {
        out.push('\\');
        out.push('f');
    } else if c == '\r' {
        out.push('\\');
        out.push('r');
    } else if (c as u32) < 0x20 {
        let code: u32 = c as u32;
        out.push('\\');
        out.push('u');
        out.push('0');
        out.push('0');
        out.push(hex_char(code / 16));
        out.push(hex_char(code % 16));
    } else {
        out.push(c);
    }
    assert(final(out)@ =~= old(out)@ + json_escape_char(c));
}

/// The lowercase hexadecimal digit for `d`.
fn hex_char(d: u32) -> (c: char)
    requires
        d < 16,
    ensures
        c == hex_digit(d as nat),
{
    if d == 0 { '0' } else if d == 1 { '1' } else if d == 2 { '2' } else if d == 3 { '3' }
    else if d == 4 { '4' } else if d == 5 { '5' } else if d == 6 { '6' } else if d == 7 { '7' }
    else if d == 8 { '8' } else if d == 9 { '9' } else if d == 10 { 'a' } else if d == 11 { 'b' }
    else if d == 12 { 'c' } else if d == 13 { 'd' } else if d == 14 { 'e' } else { 'f' }
}

/// Appends the JSON string literal of `s` to `out`.
pub fn push_quoted(out: &mut String, s: &str)
    ensures
        final(out)@ == old(out)@ + json_string_literal(s@),
{
    broadcast use vstd::string::group_string_axioms;
    let ghost start = out@;
    out.push('"');
    for c in it: s.chars()
        invariant
            it.seq() == s@,
            out@ == start + seq!['"'] + json_escaped(s@.take(it.index() as int)),
    {
        let ghost before = out@;
        push_escaped_char(out, c);
        proof {
            let k = it.index() as int;
            assert(s@.take(k + 1).drop_last() =~= s@.take(k));
            assert(s@.take(k + 1).last() == c);
            assert(out@ =~= start + seq!['"'] + json_escaped(s@.take(k + 1)));
        }
    }
    assert(s@.take(s@.len() as int) =~= s@);
    out.push('"');
    assert(out@ =~= start + json_string_literal(s@));
}

} // verus!
