//! Text: decimal numerals, prefixes, and the conversions between text and UTF-8 bytes.
use vstd::prelude::*;
use vstd::string::*;
use vstd::utf8::*;

verus! {

/// The character for a decimal digit.
pub open spec fn digit_char(d: int) -> char
    recommends
        0 <= d < 10,
{
    (48 + d) as char
}

/// The decimal numeral of `n`, without leading zeros.
pub open spec fn decimal(n: nat) -> Seq<char>
    decreases n,
{
    if n < 10 {
        seq![digit_char(n as int)]
    } else {
        decimal(n / 10).push(digit_char((n % 10) as int))
    }
}

/// The decimal numeral of `n`, with a leading `-` when `n` is negative.
pub open spec fn signed_decimal(n: int) -> Seq<char> {
    if n < 0 {
        seq!['-'] + decimal((-n) as nat)
    } else {
        decimal(n as nat)
    }
}

/// The number that a sequence of decimal digits denotes.
pub open spec fn numeral_value(s: Seq<char>) -> int
    decreases s.len(),
{
    if s.len() == 0 {
        0
    } else {
        numeral_value(s.drop_last()) * 10 + (s.last() as int - 48)
    }
}

/// A decimal numeral is never empty, is made of digits, has no leading zero unless it is `0`,
/// and reads back as the number it was made from.
pub proof fn law_decimal_reads_back(n: nat)
    ensures
        decimal(n).len() > 0,
        forall|i: int| 0 <= i < decimal(n).len() ==> '0' <= #[trigger] decimal(n)[i] <= '9',
        n > 0 ==> decimal(n)[0] != '0',
        numeral_value(decimal(n)) == n,
    decreases n,
{
    if n < 10 {
        let s = decimal(n);
        assert(s.drop_last() =~= Seq::<char>::empty());
        assert(numeral_value(s.drop_last()) == 0);
        assert(s.last() == digit_char(n as int));
    } else {
        law_decimal_reads_back(n / 10);
        let s = decimal(n);
        assert(s.drop_last() =~= decimal(n / 10));
        assert(s.last() == digit_char((n % 10) as int));
    }
}

/// Two numbers with the same numeral are the same number.
pub proof fn law_decimal_injective(m: nat, n: nat)
    requires
        decimal(m) == decimal(n),
    ensures
        m == n,
{
    law_decimal_reads_back(m);
    law_decimal_reads_back(n);
}

/// A number below ten is written as one digit, and a digit after a numeral makes ten times the
/// number and the digit.
pub proof fn law_digits_are_appended(n: nat, d: nat)
    requires
        d < 10,
    ensures
        decimal(d).len() == 1,
        decimal(d)[0] as int == '0' as int + d,
        n > 0 ==> decimal(10 * n + d) == decimal(n) + decimal(d),
{
    if n > 0 {
        assert((10 * n + d) / 10 == n);
        assert((10 * n + d) % 10 == d);
        assert(decimal(10 * n + d) =~= decimal(n) + decimal(d));
    }
}

/// A negative number is written as a minus sign and the number without it, and any other as it is
/// without a sign.
pub proof fn law_minus_sign(n: nat)
    ensures
        signed_decimal(n as int) == decimal(n),
        n > 0 ==> signed_decimal(-(n as int)) == seq!['-'] + decimal(n),
{
}

/// The one-character text of a decimal digit.
fn digit(d: u64) -> (s: &'static str)
    requires
        d < 10,
    ensures
        s@ == seq![digit_char(d as int)],
{
    proof {
        reveal_strlit("0");
        reveal_strlit("1");
        reveal_strlit("2");
        reveal_strlit("3");
        reveal_strlit("4");
        reveal_strlit("5");
        reveal_strlit("6");
        reveal_strlit("7");
        reveal_strlit("8");
        reveal_strlit("9");
    }
    match d {
        0 => "0",
        1 => "1",
        2 => "2",
        3 => "3",
        4 => "4",
        5 => "5",
        6 => "6",
        7 => "7",
        8 => "8",
        _ => "9",
    }
}

/// Appends the decimal numeral of `n`.
pub fn append_decimal(out: &mut String, n: u64)
    ensures
        final(out)@ == old(out)@ + decimal(n as nat),
    decreases n,
{
    if n >= 10 {
        append_decimal(out, n / 10);
    }
    out.append(digit(n % 10));
    assert(out@ =~= old(out)@ + decimal(n as nat));
}

/// Appends the decimal numeral of `n`, with a leading `-` when `n` is negative.
pub fn append_signed_decimal(out: &mut String, n: i64)
    ensures
        final(out)@ == old(out)@ + signed_decimal(n as int),
{
    if n >= 0 {
        append_decimal(out, n as u64);
    } else {
        proof {
            reveal_strlit("-");
        }
        out.append("-");
        let magnitude: u64 = if n == i64::MIN {
            9_223_372_036_854_775_808
        } else {
            (-n) as u64
        };
        append_decimal(out, magnitude);
        assert(out@ =~= old(out)@ + signed_decimal(n as int));
    }
}

/// Tells whether `text` begins with `prefix`.
pub fn starts_with(text: &str, prefix: &str) -> (b: bool)
    ensures
        b == prefix@.is_prefix_of(text@),
{
    let wanted: usize = prefix.unicode_len();
    if text.unicode_len() < wanted {
        return false;
    }
    for i in 0..wanted
        invariant
            wanted == prefix@.len(),
            wanted <= text@.len(),
            forall|j: int| 0 <= j < i ==> text@[j] == prefix@[j],
    {
        if text.get_char(i) != prefix.get_char(i) {
            assert(text@.subrange(0, wanted as int)[i as int] != prefix@[i as int]);
            return false;
        }
    }
    assert(text@.subrange(0, wanted as int) =~= prefix@);
    true
}

/// The text that `String::from_utf8_lossy` makes of a sequence of bytes.
pub uninterp spec fn replaced_utf8(bytes: Seq<u8>) -> Seq<char>;

/// The text that a sequence of bytes is shown as: what it encodes if it is UTF-8, and otherwise
/// what is left of it once each malformed part has been replaced.
pub open spec fn lossy_text(bytes: Seq<u8>) -> Seq<char> {
    if valid_utf8(bytes) {
        decode_utf8(bytes)
    } else {
        replaced_utf8(bytes)
    }
}

/// Calls `String::from_utf8_lossy`. What it returns depends on the bytes alone, and is the text
/// that they encode where they are well-formed UTF-8. What it makes of malformed bytes has a
/// name here and is not described further.
#[verifier::external_body]
fn from_utf8_lossy(bytes: &[u8]) -> (s: String)
    ensures
        s@ == replaced_utf8(bytes@),
        valid_utf8(bytes@) ==> s@ == decode_utf8(bytes@),
{
    String::from_utf8_lossy(bytes).into_owned()
}

/// The text of a sequence of bytes.
pub fn bytes_to_text(bytes: &[u8]) -> (s: String)
    ensures
        s@ == lossy_text(bytes@),
{
    from_utf8_lossy(bytes)
}

/// Text that is turned into its UTF-8 bytes is shown as the same text again.
pub proof fn law_text_survives_encoding(s: Seq<char>)
    ensures
        lossy_text(encode_utf8(s)) == s,
{
    encode_utf8_valid_utf8(s);
    encode_utf8_decode_utf8(s);
}

/// Well-formed bytes are shown as the text that they encode, so that no byte is lost; only malformed
/// ones are shown as what replaces them.
pub proof fn law_well_formed_bytes_are_shown(bytes: Seq<u8>)
    ensures
        valid_utf8(bytes) ==> encode_utf8(lossy_text(bytes)) == bytes,
        !valid_utf8(bytes) ==> lossy_text(bytes) == replaced_utf8(bytes),
{
    if valid_utf8(bytes) {
        decode_utf8_encode_utf8(bytes);
    }
}

/// Tells whether `c` does not occur in `s`.
pub open spec fn free_of(s: Seq<char>, c: char) -> bool {
    forall|i: int| 0 <= i < s.len() ==> #[trigger] s[i] != c
}

/// Text can be cut in one way only at a separator whose first character does not occur before it.
pub proof fn lemma_cut_at_separator(
    a: Seq<char>,
    b: Seq<char>,
    separator: Seq<char>,
    after_a: Seq<char>,
    after_b: Seq<char>,
)
    requires
        separator.len() > 0,
        free_of(a, separator[0]),
        free_of(b, separator[0]),
        a + (separator + after_a) == b + (separator + after_b),
    ensures
        a == b,
        after_a == after_b,
{
    let whole_a = a + (separator + after_a);
    let whole_b = b + (separator + after_b);
    if a.len() < b.len() {
        assert(whole_a[a.len() as int] == separator[0]);
        assert(whole_b[a.len() as int] == b[a.len() as int]);
    } else if b.len() < a.len() {
        assert(whole_b[b.len() as int] == separator[0]);
        assert(whole_a[b.len() as int] == a[b.len() as int]);
    }
    assert(a =~= whole_a.subrange(0, a.len() as int));
    assert(b =~= whole_b.subrange(0, b.len() as int));
    let start = (a.len() + separator.len()) as int;
    assert(after_a =~= whole_a.subrange(start, whole_a.len() as int));
    assert(after_b =~= whole_b.subrange(start, whole_b.len() as int));
}

/// What follows the same beginning is the same in equal texts.
pub proof fn lemma_drop_beginning(beginning: Seq<char>, a: Seq<char>, b: Seq<char>)
    requires
        beginning + a == beginning + b,
    ensures
        a == b,
{
    assert(a =~= (beginning + a).skip(beginning.len() as int));
    assert(b =~= (beginning + b).skip(beginning.len() as int));
}

/// Four texts between five pieces of a template, grouped from the end.
pub open spec fn template(
    s0: Seq<char>,
    s1: Seq<char>,
    s2: Seq<char>,
    s3: Seq<char>,
    s4: Seq<char>,
    fields: (Seq<char>, Seq<char>, Seq<char>, Seq<char>),
) -> Seq<char> {
    s0 + (fields.0 + (s1 + (fields.1 + (s2 + (fields.2 + (s3 + (fields.3 + (s4
        + Seq::<char>::empty()))))))))
}

/// How the parts of a template are grouped makes no difference.
pub proof fn lemma_template_grouping(
    s0: Seq<char>,
    s1: Seq<char>,
    s2: Seq<char>,
    s3: Seq<char>,
    s4: Seq<char>,
    fields: (Seq<char>, Seq<char>, Seq<char>, Seq<char>),
)
    ensures
        template(s0, s1, s2, s3, s4, fields) == s0 + fields.0 + s1 + fields.1 + s2 + fields.2 + s3
            + fields.3 + s4,
{
    assert(template(s0, s1, s2, s3, s4, fields) =~= s0 + fields.0 + s1 + fields.1 + s2 + fields.2
        + s3 + fields.3 + s4);
}

/// Four texts set into a template can be told from the whole, where each is free of the first
/// character of the piece that follows it.
pub proof fn lemma_fields_of_template(
    s0: Seq<char>,
    s1: Seq<char>,
    s2: Seq<char>,
    s3: Seq<char>,
    s4: Seq<char>,
    a: (Seq<char>, Seq<char>, Seq<char>, Seq<char>),
    b: (Seq<char>, Seq<char>, Seq<char>, Seq<char>),
)
    requires
        s1.len() > 0 && free_of(a.0, s1[0]) && free_of(b.0, s1[0]),
        s2.len() > 0 && free_of(a.1, s2[0]) && free_of(b.1, s2[0]),
        s3.len() > 0 && free_of(a.2, s3[0]) && free_of(b.2, s3[0]),
        s4.len() > 0 && free_of(a.3, s4[0]) && free_of(b.3, s4[0]),
        template(s0, s1, s2, s3, s4, a) == template(s0, s1, s2, s3, s4, b),
    ensures
        a == b,
{
    let none = Seq::<char>::empty();
    let (a3, b3) = (a.3 + (s4 + none), b.3 + (s4 + none));
    let (a2, b2) = (a.2 + (s3 + a3), b.2 + (s3 + b3));
    let (a1, b1) = (a.1 + (s2 + a2), b.1 + (s2 + b2));
    let (a0, b0) = (a.0 + (s1 + a1), b.0 + (s1 + b1));
    lemma_drop_beginning(s0, a0, b0);
    lemma_cut_at_separator(a.0, b.0, s1, a1, b1);
    lemma_cut_at_separator(a.1, b.1, s2, a2, b2);
    lemma_cut_at_separator(a.2, b.2, s3, a3, b3);
    lemma_cut_at_separator(a.3, b.3, s4, none, none);
}

/// A decimal numeral holds no character but digits.
pub proof fn lemma_decimal_free_of(n: nat, c: char)
    requires
        !('0' <= c <= '9'),
    ensures
        free_of(decimal(n), c),
{
    law_decimal_reads_back(n);
}

/// Text with the same UTF-8 bytes is the same text.
pub proof fn lemma_encoding_injective(a: Seq<char>, b: Seq<char>)
    requires
        encode_utf8(a) == encode_utf8(b),
    ensures
        a == b,
{
    encode_utf8_decode_utf8(a);
    encode_utf8_decode_utf8(b);
}

} // verus!
