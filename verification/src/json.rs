//! JSON string literals: how text is set between quotation marks, and what stands there denotes.
use vstd::prelude::*;
use vstd::string::*;

verus! {

/// `String::push`: the text with the character at its end.
pub assume_specification[ String::push ](s: &mut String, c: char)
    ensures
        final(s)@ == old(s)@.push(c),
;

/// The hexadecimal digit for a number below sixteen.
pub open spec fn hex_digit(d: int) -> char {
    if d < 10 {
        (48 + d) as char
    } else {
        (87 + d) as char
    }
}

/// The number that a hexadecimal digit stands for, if it is one.
pub open spec fn hex_value(c: char) -> Option<int> {
    if '0' <= c <= '9' {
        Some(c as int - 48)
    } else if 'a' <= c <= 'f' {
        Some(c as int - 87)
    } else if 'A' <= c <= 'F' {
        Some(c as int - 55)
    } else {
        None
    }
}

/// How a character is written in a string literal.
pub open spec fn escaped_char(c: char) -> Seq<char> {
    if c == '"' {
        seq!['\\', '"']
    } else if c == '\\' {
        seq!['\\', '\\']
    } else if c == '\n' {
        seq!['\\', 'n']
    } else if c == '\r' {
        seq!['\\', 'r']
    } else if c == '\t' {
        seq!['\\', 't']
    } else if (c as int) < 0x20 {
        seq!['\\', 'u', '0', '0', hex_digit(c as int / 16), hex_digit(c as int % 16)]
    } else {
        seq![c]
    }
}

/// How text is written in a string literal: a quotation mark, a backslash and every control
/// character is escaped, and everything else stands for itself.
pub open spec fn json_escaped(s: Seq<char>) -> Seq<char>
    decreases s.len(),
{
    if s.len() == 0 {
        Seq::empty()
    } else {
        escaped_char(s[0]) + json_escaped(s.skip(1))
    }
}

/// The character that a backslash and `c` stand for, if there is one.
pub open spec fn short_escape(c: char) -> Option<char> {
    if c == '"' || c == '\\' || c == '/' {
        Some(c)
    } else if c == 'b' {
        Some(8 as char)
    } else if c == 'f' {
        Some(12 as char)
    } else if c == 'n' {
        Some('\n')
    } else if c == 'r' {
        Some('\r')
    } else if c == 't' {
        Some('\t')
    } else {
        None
    }
}

/// The number that four hexadecimal digits stand for, if they are digits.
pub open spec fn hex_quad(s: Seq<char>) -> Option<int> {
    match (hex_value(s[0]), hex_value(s[1]), hex_value(s[2]), hex_value(s[3])) {
        (Some(a), Some(b), Some(c), Some(d)) => Some(a * 4096 + b * 256 + c * 16 + d),
        _ => None,
    }
}

/// `c` before the rest of a text, if there is such a rest.
pub open spec fn before(c: char, rest: Option<Seq<char>>) -> Option<Seq<char>> {
    match rest {
        Some(s) => Some(seq![c] + s),
        None => None,
    }
}

/// The text that is denoted by what stands between the quotation marks of a string literal. There
/// is none if it breaks the grammar of JSON. Escaped surrogates, single or in pairs, are not read
/// either.
pub open spec fn json_denoted(s: Seq<char>) -> Option<Seq<char>>
    decreases s.len(),
{
    if s.len() == 0 {
        Some(Seq::empty())
    } else if s[0] == '"' || (s[0] as int) < 0x20 {
        None
    } else if s[0] != '\\' {
        before(s[0], json_denoted(s.skip(1)))
    } else if s.len() >= 2 && short_escape(s[1]) is Some {
        before(short_escape(s[1])->0, json_denoted(s.skip(2)))
    } else if s.len() >= 6 && s[1] == 'u' {
        match hex_quad(s.subrange(2, 6)) {
            Some(code) => if 0xd800 <= code <= 0xdfff {
                None
            } else {
                before(code as char, json_denoted(s.skip(6)))
            },
            None => None,
        }
    } else {
        None
    }
}

/// A hexadecimal digit reads back as the number it was made from.
proof fn lemma_hex_digit_reads_back(d: int)
    requires
        0 <= d < 16,
    ensures
        hex_value(hex_digit(d)) == Some(d),
{
}

/// An escaped character denotes itself, whatever follows it.
proof fn lemma_escaped_char_denotes_itself(c: char, rest: Seq<char>)
    ensures
        json_denoted(escaped_char(c) + rest) == before(c, json_denoted(rest)),
{
    let first = escaped_char(c);
    let whole = first + rest;
    assert(whole.skip(first.len() as int) =~= rest);
    if first.len() == 6 {
        let code = c as int;
        let quad = whole.subrange(2, 6);
        assert(0 <= code < 0x20);
        assert(quad[0] == '0' && quad[1] == '0');
        assert(quad[2] == hex_digit(code / 16));
        assert(quad[3] == hex_digit(code % 16));
        lemma_hex_digit_reads_back(code / 16);
        lemma_hex_digit_reads_back(code % 16);
        assert(code / 16 * 16 + code % 16 == code);
        assert(hex_quad(quad) == Some(code));
    }
}

/// Escaped text is well formed between quotation marks, and denotes the text that was escaped.
pub proof fn law_escaped_text_denotes_itself(s: Seq<char>)
    ensures
        json_denoted(json_escaped(s)) == Some(s),
    decreases s.len(),
{
    if s.len() > 0 {
        law_escaped_text_denotes_itself(s.skip(1));
        lemma_escaped_char_denotes_itself(s[0], json_escaped(s.skip(1)));
        assert(seq![s[0]] + s.skip(1) =~= s);
    }
}

/// Different texts are escaped differently.
pub proof fn law_escaping_is_injective(a: Seq<char>, b: Seq<char>)
    requires
        json_escaped(a) == json_escaped(b),
    ensures
        a == b,
{
    law_escaped_text_denotes_itself(a);
    law_escaped_text_denotes_itself(b);
}

/// Text is escaped character by character: what is joined before escaping may as well be joined
/// after it.
pub proof fn law_escaping_joins(a: Seq<char>, b: Seq<char>)
    ensures
        json_escaped(a + b) == json_escaped(a) + json_escaped(b),
    decreases a.len(),
{
    if a.len() == 0 {
        assert(a + b =~= b);
        assert(json_escaped(a) + json_escaped(b) =~= json_escaped(b));
    } else {
        law_escaping_joins(a.skip(1), b);
        assert((a + b).skip(1) =~= a.skip(1) + b);
        assert(json_escaped(a + b) =~= json_escaped(a) + json_escaped(b));
    }
}

/// A character stands for itself, unless it is a quotation mark, a backslash or a control
/// character.
pub proof fn law_plain_character_is_kept(c: char)
    requires
        c != '"',
        c != '\\',
        c as int >= 0x20,
    ensures
        json_escaped(seq![c]) == seq![c],
{
    lemma_escaped_alone(c);
}

/// A quotation mark and a backslash get a backslash before them.
pub proof fn law_marks_get_a_backslash(c: char)
    requires
        c == '"' || c == '\\',
    ensures
        json_escaped(seq![c]) == seq!['\\', c],
{
    lemma_escaped_alone(c);
}

/// A control character is written as a backslash and a letter for a line feed, a carriage return
/// and a tabulator, and otherwise as `\u00` and the two hexadecimal digits of its code.
pub proof fn law_controls_are_written_out(c: char)
    requires
        (c as int) < 0x20,
    ensures
        ({
            let e = json_escaped(seq![c]);
            if c as int == 10 {
                e == seq!['\\', 'n']
            } else if c as int == 13 {
                e == seq!['\\', 'r']
            } else if c as int == 9 {
                e == seq!['\\', 't']
            } else {
                &&& e.len() == 6
                &&& e.take(4) == seq!['\\', 'u', '0', '0']
                &&& c as int == 16 * (e[4] as int - '0' as int) + if e[5] <= '9' {
                    e[5] as int - '0' as int
                } else {
                    e[5] as int - 'a' as int + 10
                }
                &&& '0' <= e[4] <= '1'
                &&& '0' <= e[5] <= '9' || 'a' <= e[5] <= 'f'
            }
        }),
{
    lemma_escaped_alone(c);
    let e = json_escaped(seq![c]);
    if c as int != 10 && c as int != 13 && c as int != 9 {
        assert(e.take(4) =~= seq!['\\', 'u', '0', '0']);
    }
}

/// A text of one character is escaped as that character.
proof fn lemma_escaped_alone(c: char)
    ensures
        json_escaped(seq![c]) == escaped_char(c),
{
    let s = seq![c];
    assert(s.skip(1) =~= Seq::<char>::empty());
    assert(json_escaped(s.skip(1)) =~= Seq::<char>::empty());
    assert(json_escaped(s) =~= escaped_char(c));
}

/// No escaped character is the beginning of another.
proof fn lemma_escaped_char_ends(c: char, d: char, after_c: Seq<char>, after_d: Seq<char>)
    requires
        escaped_char(c) + after_c == escaped_char(d) + after_d,
    ensures
        c == d,
        after_c == after_d,
{
    let whole_c = escaped_char(c) + after_c;
    let whole_d = escaped_char(d) + after_d;
    assert(whole_c[0] == escaped_char(c)[0]);
    assert(whole_d[0] == escaped_char(d)[0]);
    if escaped_char(c).len() > 1 && escaped_char(d).len() > 1 {
        assert(whole_c[1] == escaped_char(c)[1]);
        assert(whole_d[1] == escaped_char(d)[1]);
        if escaped_char(c).len() == 6 && escaped_char(d).len() == 6 {
            assert(whole_c[4] == hex_digit(c as int / 16));
            assert(whole_d[4] == hex_digit(d as int / 16));
            assert(whole_c[5] == hex_digit(c as int % 16));
            assert(whole_d[5] == hex_digit(d as int % 16));
        }
    }
    assert(after_c =~= whole_c.skip(escaped_char(c).len() as int));
    assert(after_d =~= whole_d.skip(escaped_char(d).len() as int));
}

/// Escaped text ends at the first quotation mark that is not part of it.
pub proof fn lemma_escaped_text_ends(
    a: Seq<char>,
    b: Seq<char>,
    after_a: Seq<char>,
    after_b: Seq<char>,
)
    requires
        after_a.len() > 0 && after_a[0] == '"',
        after_b.len() > 0 && after_b[0] == '"',
        json_escaped(a) + after_a == json_escaped(b) + after_b,
    ensures
        a == b,
        after_a == after_b,
    decreases a.len(),
{
    let whole_a = json_escaped(a) + after_a;
    let whole_b = json_escaped(b) + after_b;
    if a.len() == 0 && b.len() == 0 {
        assert(whole_a =~= after_a);
        assert(whole_b =~= after_b);
        assert(a =~= b);
    } else if a.len() == 0 {
        assert(whole_a[0] == '"');
        assert(whole_b[0] == escaped_char(b[0])[0]);
    } else if b.len() == 0 {
        assert(whole_b[0] == '"');
        assert(whole_a[0] == escaped_char(a[0])[0]);
    } else {
        let rest_a = json_escaped(a.skip(1)) + after_a;
        let rest_b = json_escaped(b.skip(1)) + after_b;
        assert(whole_a =~= escaped_char(a[0]) + rest_a);
        assert(whole_b =~= escaped_char(b[0]) + rest_b);
        lemma_escaped_char_ends(a[0], b[0], rest_a, rest_b);
        lemma_escaped_text_ends(a.skip(1), b.skip(1), after_a, after_b);
        assert(a =~= seq![a[0]] + a.skip(1));
        assert(b =~= seq![b[0]] + b.skip(1));
    }
}

/// The hexadecimal digit for a number below sixteen.
fn hex(d: u32) -> (c: char)
    requires
        d < 16,
    ensures
        c == hex_digit(d as int),
{
    match d {
        0 => '0',
        1 => '1',
        2 => '2',
        3 => '3',
        4 => '4',
        5 => '5',
        6 => '6',
        7 => '7',
        8 => '8',
        9 => '9',
        10 => 'a',
        11 => 'b',
        12 => 'c',
        13 => 'd',
        14 => 'e',
        _ => 'f',
    }
}

/// Appends a character as it is written in a string literal.
fn append_escaped_char(out: &mut String, c: char)
    ensures
        final(out)@ == old(out)@ + escaped_char(c),
{
    let code: u32 = c as u32;
    if c == '"' {
        out.push('\\');
        out.push('"');
    } else if c == '\\' {
        out.push('\\');
        out.push('\\');
    } else if c == '\n' {
        out.push('\\');
        out.push('n');
    } else if c == '\r' {
        out.push('\\');
        out.push('r');
    } else if c == '\t' {
        out.push('\\');
        out.push('t');
    } else if code < 0x20 {
        out.push('\\');
        out.push('u');
        out.push('0');
        out.push('0');
        out.push(hex(code / 16));
        out.push(hex(code % 16));
    } else {
        out.push(c);
    }
    assert(out@ =~= old(out)@ + escaped_char(c));
}

/// Appends text as it is written in a string literal.
pub fn append_json_escaped(out: &mut String, s: &str)
    ensures
        final(out)@ == old(out)@ + json_escaped(s@),
{
    let ghost start = out@;
    assert(s@.skip(0) =~= s@);
    for c in it: s.chars()
        invariant
            it.seq() == s@,
            out@ + json_escaped(s@.skip(it.index())) == start + json_escaped(s@),
    {
        let ghost before = out@;
        let ghost rest = s@.skip(it.index());
        append_escaped_char(out, c);
        proof {
            assert(rest[0] == c);
            assert(rest.skip(1) =~= s@.skip(it.index() + 1));
            assert(out@ + json_escaped(rest.skip(1)) =~= before + json_escaped(rest));
        }
    }
    assert(s@.skip(s@.len() as int) =~= Seq::<char>::empty());
    assert(out@ =~= start + json_escaped(s@));
}

} // verus!
