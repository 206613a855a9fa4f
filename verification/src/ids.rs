//! Identifiers of accounts, transactions and entries: UUIDs, held as 128-bit integers.
//!
//! The order of the integers is that of the UUIDs' bytes.
use vstd::arithmetic::power::*;
use vstd::prelude::*;

verus! {

/// The hexadecimal digit of `id` at place `k`, counted from the most significant of its 32.
pub open spec fn uuid_digit(id: u128, k: int) -> int {
    (id as int / pow(16, (31 - k) as nat)) % 16
}

/// The lower-case character of a hexadecimal digit.
pub open spec fn hex_char(d: int) -> char {
    if d < 10 {
        ('0' as int + d) as char
    } else {
        ('a' as int + (d - 10)) as char
    }
}

/// The hexadecimal digit that a character denotes, in either case.
pub open spec fn hex_digit_value(c: char) -> Option<int> {
    if '0' <= c <= '9' {
        Some(c as int - '0' as int)
    } else if 'a' <= c <= 'f' {
        Some(c as int - 'a' as int + 10)
    } else if 'A' <= c <= 'F' {
        Some(c as int - 'A' as int + 10)
    } else {
        None
    }
}

/// The number that a run of hexadecimal digits denotes.
pub open spec fn hex_value(digits: Seq<char>) -> Option<int>
    decreases digits.len(),
{
    if digits.len() == 0 {
        Some(0)
    } else {
        match (hex_value(digits.drop_last()), hex_digit_value(digits.last())) {
            (Some(high), Some(low)) => Some(16 * high + low),
            _ => None,
        }
    }
}

/// Whether a hyphen stands at index `i` of a hyphenated UUID.
pub open spec fn is_hyphen_index(i: int) -> bool {
    i == 8 || i == 13 || i == 18 || i == 23
}

/// The index at which digit `k` stands in a hyphenated UUID.
pub open spec fn digit_index(k: int) -> int {
    if k < 8 {
        k
    } else if k < 12 {
        k + 1
    } else if k < 16 {
        k + 2
    } else if k < 20 {
        k + 3
    } else {
        k + 4
    }
}

/// The place of the digit at index `i` of a hyphenated UUID.
pub open spec fn digit_place(i: int) -> int {
    if i < 8 {
        i
    } else if i < 13 {
        i - 1
    } else if i < 18 {
        i - 2
    } else if i < 23 {
        i - 3
    } else {
        i - 4
    }
}

/// The hyphenated lower-case notation of a UUID.
pub open spec fn uuid_text(id: u128) -> Seq<char> {
    Seq::new(
        36,
        |i: int|
            if is_hyphen_index(i) {
                '-'
            } else {
                hex_char(uuid_digit(id, digit_place(i)))
            },
    )
}

/// The UUID in 32 hexadecimal digits.
pub open spec fn simple_value(text: Seq<char>) -> Option<u128> {
    match hex_value(text) {
        Some(value) => Some(value as u128),
        None => None,
    }
}

/// The UUID in 36 characters with hyphens in their four places.
pub open spec fn hyphenated_value(text: Seq<char>) -> Option<u128> {
    if text[8] == '-' && text[13] == '-' && text[18] == '-' && text[23] == '-' {
        simple_value(Seq::new(32, |k: int| text[digit_index(k)]))
    } else {
        None
    }
}

/// `c`, in lower case where it is an ASCII letter.
pub open spec fn ascii_lower(c: char) -> char {
    if 'A' <= c <= 'Z' {
        (c as int - 'A' as int + 'a' as int) as char
    } else {
        c
    }
}

/// The UUID that a text denotes: as plain digits, hyphenated, hyphenated in braces, or as a URN.
pub open spec fn uuid_value(text: Seq<char>) -> Option<u128> {
    if text.len() == 32 {
        simple_value(text)
    } else if text.len() == 36 {
        hyphenated_value(text)
    } else if text.len() == 38 && text[0] == '{' && text[37] == '}' {
        hyphenated_value(text.subrange(1, 37))
    } else if text.len() == 45 && text.take(9).map_values(|c: char| ascii_lower(c))
        == "urn:uuid:"@ {
        hyphenated_value(text.skip(9))
    } else {
        None
    }
}

/// `uuid::Uuid::parse_str`: reads a UUID in any of the four notations and no others.
#[verifier::external_body]
fn uuid_parse_str(text: &str) -> (r: Option<u128>)
    ensures
        r == uuid_value(text@),
{
    uuid::Uuid::parse_str(text).ok().map(|id| id.as_u128())
}

/// The `Display` of `uuid::Uuid`: the hyphenated lower-case notation.
#[verifier::external_body]
fn uuid_display(id: u128) -> (r: String)
    ensures
        r@ == uuid_text(id),
{
    uuid::Uuid::from_u128(id).to_string()
}

/// `uuid::Uuid::now_v7`: an identifier made from the clock and from random bits, of which only
/// the version and variant digits are fixed. It takes the system's clock to be set to a time
/// since 1970, and panics otherwise.
#[verifier::external_body]
fn uuid_now_v7() -> (r: u128)
    ensures
        uuid_digit(r, 12) == 7,
        8 <= uuid_digit(r, 16) <= 11,
{
    uuid::Uuid::now_v7().as_u128()
}

/// The identifier that a text denotes, where it denotes one.
pub fn parse_id(text: &str) -> (r: Option<u128>)
    ensures
        r == uuid_value(text@),
{
    uuid_parse_str(text)
}

/// The notation of an identifier. Parsing it gives the identifier back.
pub fn id_text(id: u128) -> (r: String)
    ensures
        r@ == uuid_text(id),
        uuid_value(r@) == Some(id),
{
    proof {
        law_id_text_parses_back(id);
    }
    uuid_display(id)
}

/// A fresh identifier. It is a version 7 UUID; its other digits come from the clock and from
/// chance.
pub fn new_id() -> (r: u128)
    ensures
        uuid_digit(r, 12) == 7,
        8 <= uuid_digit(r, 16) <= 11,
{
    uuid_now_v7()
}

/// The first `n` digits of a UUID's notation are those of the number shifted down.
proof fn lemma_hex_prefix(id: u128, digits: Seq<char>, n: nat)
    requires
        digits.len() == 32,
        n <= 32,
        forall|k: int| 0 <= k < 32 ==> #[trigger] digits[k] == hex_char(uuid_digit(id, k)),
    ensures
        hex_value(digits.take(n as int)) == Some(id as int / pow(16, (32 - n) as nat)),
    decreases n,
{
    let top = digits.take(n as int);
    if n == 0 {
        assert(pow(16, 32) > u128::MAX) by {
            reveal_with_fuel(pow, 9);
            lemma_pow_adds(16, 8, 8);
            lemma_pow_adds(16, 16, 16);
            assert(pow(16, 8) == 0x1_0000_0000);
            assert(pow(16, 16) == 0x1_0000_0000 * 0x1_0000_0000);
            assert(pow(16, 32) == 0x1_0000_0000_0000_0000 * 0x1_0000_0000_0000_0000);
        }
        assert(id as int / pow(16, 32) == 0) by (nonlinear_arith)
            requires
                0 <= id < pow(16, 32),
        ;
    } else {
        let k = n - 1;
        lemma_hex_prefix(id, digits, k as nat);
        assert(top.drop_last() =~= digits.take(k as int));
        assert(top.last() == digits[k as int]);
        let q = pow(16, (32 - n) as nat);
        lemma_pow_positive(16, (32 - n) as nat);
        assert(pow(16, (32 - k) as nat) == 16 * q) by {
            reveal(pow);
        }
        let d = uuid_digit(id, k as int);
        assert(d == (id as int / q) % 16);
        assert(hex_digit_value(hex_char(d)) == Some(d));
        assert(id as int / (16 * q) == (id as int / q) / 16) by {
            vstd::arithmetic::div_mod::lemma_div_denominator(id as int, q, 16);
            assert(q * 16 == 16 * q);
        }
        assert(16 * ((id as int / q) / 16) + (id as int / q) % 16 == id as int / q);
    }
}

/// Reading the notation of an identifier gives the identifier back.
pub proof fn law_id_text_parses_back(id: u128)
    ensures
        uuid_value(uuid_text(id)) == Some(id),
{
    let text = uuid_text(id);
    let digits = Seq::new(32, |k: int| text[digit_index(k)]);
    assert forall|k: int| 0 <= k < 32 implies #[trigger] digits[k] == hex_char(
        uuid_digit(id, k),
    ) by {
        assert(digit_place(digit_index(k)) == k);
    }
    lemma_hex_prefix(id, digits, 32);
    assert(digits.take(32) =~= digits);
    assert(pow(16, 0) == 1) by {
        reveal(pow);
    }
}

/// Two identifiers with the same notation are the same.
pub proof fn law_id_text_injective(a: u128, b: u128)
    requires
        uuid_text(a) == uuid_text(b),
    ensures
        a == b,
{
    law_id_text_parses_back(a);
    law_id_text_parses_back(b);
}

} // verus!
