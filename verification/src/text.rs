//! Decimal notation of integers, and the other pieces of text that messages are built from.
use vstd::prelude::*;

verus! {

/// The character that denotes the digit `d`.
pub open spec fn digit_char(d: int) -> char {
    ('0' as int + d) as char
}

/// The decimal notation of a natural number, without leading zeros.
pub open spec fn nat_text(n: nat) -> Seq<char>
    decreases n,
{
    if n < 10 {
        seq![digit_char(n as int)]
    } else {
        nat_text(n / 10).push(digit_char((n % 10) as int))
    }
}

/// The decimal notation of an integer: a minus sign where it is negative, then its magnitude.
pub open spec fn int_text(i: int) -> Seq<char> {
    if i < 0 {
        seq!['-'] + nat_text((-i) as nat)
    } else {
        nat_text(i as nat)
    }
}

/// `text`, with zeros put in front until it is `width` characters long.
pub open spec fn zero_padded(text: Seq<char>, width: nat) -> Seq<char> {
    if text.len() < width {
        Seq::new((width - text.len()) as nat, |i: int| '0') + text
    } else {
        text
    }
}

fn digit_str(d: u64) -> (r: &'static str)
    requires
        d < 10,
    ensures
        r@ == seq![digit_char(d as int)],
{
    proof {
        reveal_strlit("0");
        reveal_strlit("1");
        reveal_strlit("2");
        reveal_strlit("3");
        reveal_strlit("4");
        reveal_strlit("5");
        reveal_strlit("6");
        reveal_strlit("7");
        reveal_strlit("8");
        reveal_strlit("9");
    }
    let r: &'static str = match d {
        0 => "0",
        1 => "1",
        2 => "2",
        3 => "3",
        4 => "4",
        5 => "5",
        6 => "6",
        7 => "7",
        8 => "8",
        _ => "9",
    };
    assert(r@ =~= seq![digit_char(d as int)]);
    r
}

/// Writes the decimal notation of `n` at the end of `out`.
pub fn append_u64(out: &mut String, n: u64)
    ensures
        final(out)@ == old(out)@ + nat_text(n as nat),
    decreases n,
{
    if n >= 10 {
        append_u64(out, n / 10);
    }
    out.append(digit_str(n % 10));
    assert(out@ =~= old(out)@ + nat_text(n as nat));
}

/// Writes the decimal notation of `i` at the end of `out`.
pub fn append_i64(out: &mut String, i: i64)
    ensures
        final(out)@ == old(out)@ + int_text(i as int),
{
    if i < 0 {
        proof {
            reveal_strlit("-");
        }
        out.append("-");
        let magnitude: u64 = if i == i64::MIN {
            9223372036854775808
        } else {
            (-i) as u64
        };
        append_u64(out, magnitude);
        assert("-"@ =~= seq!['-']);
        assert(out@ =~= old(out)@ + int_text(i as int));
    } else {
        append_u64(out, i as u64);
    }
}

/// The text itself where it is there, the empty text where it is not.
pub open spec fn text_or_empty(text: Option<String>) -> Seq<char> {
    match text {
        Some(t) => t@,
        None => Seq::empty(),
    }
}

/// An optional text as a message carries it: empty where there is none.
pub fn or_empty(text: Option<String>) -> (r: String)
    ensures
        r@ == text_or_empty(text),
{
    match text {
        Some(t) => t,
        None => String::new(),
    }
}

/// Whether an optional text is what a message's text stands for: none where that is empty.
pub open spec fn optional_text(text: Option<String>, message: Seq<char>) -> bool {
    text_or_empty(text) == message && (text is None <==> message.len() == 0)
}

/// A message's text as an optional one: none where it is empty.
pub fn non_empty(text: String) -> (r: Option<String>)
    ensures
        optional_text(r, text@),
{
    if text.as_str().is_empty() {
        assert(text@ =~= Seq::empty());
        None
    } else {
        Some(text)
    }
}

/// The upper-case form of a text, by the rules of Unicode.
pub uninterp spec fn uppercase(text: Seq<char>) -> Seq<char>;

/// Whether a text consists of ASCII characters only.
pub open spec fn ascii(text: Seq<char>) -> bool {
    forall|i: int| 0 <= i < text.len() ==> ((#[trigger] text[i]) as int) < 128
}

/// The upper-case form of an ASCII character.
pub open spec fn ascii_upper(c: char) -> char {
    if 'a' <= c <= 'z' {
        (c as int - 32) as char
    } else {
        c
    }
}

/// `str::to_uppercase`. It depends on the text alone. Of an ASCII text it turns the letters `a`
/// to `z` into `A` to `Z` and keeps the rest; what it makes of other characters is left to the
/// name.
#[verifier::external_body]
fn str_to_uppercase(text: &str) -> (r: String)
    ensures
        r@ == uppercase(text@),
        ascii(text@) ==> r@ == text@.map_values(|c: char| ascii_upper(c)),
{
    text.to_uppercase()
}

/// The upper-case form of a text.
pub fn to_uppercase(text: &str) -> (r: String)
    ensures
        r@ == uppercase(text@),
        ascii(text@) ==> r@ == text@.map_values(|c: char| ascii_upper(c)),
{
    str_to_uppercase(text)
}

} // verus!
