//! Texts: what is written can be read back.
use vstd::prelude::*;

use crate::ids::{id_text, law_id_text_parses_back, parse_id};
use crate::text::{int_text, nat_text, non_empty, or_empty, to_uppercase};

verus! {

/// The number that a run of decimal digits denotes.
pub open spec fn number_read(digits: Seq<char>) -> int
    decreases digits.len(),
{
    if digits.len() == 0 {
        0
    } else {
        10 * number_read(digits.drop_last()) + (digits.last() as int - '0' as int)
    }
}

/// The notation of a natural number has digits only, none of them a needless zero in front, and
/// denotes that number.
pub proof fn law_numbers_are_read_back(n: nat)
    ensures
        number_read(nat_text(n)) == n,
        nat_text(n).len() > 0,
        forall|i: int| 0 <= i < nat_text(n).len() ==> '0' <= #[trigger] nat_text(n)[i] <= '9',
        nat_text(n).len() > 1 ==> nat_text(n)[0] != '0',
    decreases n,
{
    let text = nat_text(n);
    if n < 10 {
        assert(text.drop_last() =~= Seq::<char>::empty());
        assert(text.last() as int == '0' as int + n);
        assert(number_read(text.drop_last()) == 0);
    } else {
        let before = nat_text(n / 10);
        law_numbers_are_read_back(n / 10);
        assert(text.drop_last() =~= before);
        assert(text.last() as int == '0' as int + n % 10);
        assert(text[0] == before[0]);
        if before.len() == 1 && before[0] == '0' {
            assert(before.drop_last() =~= Seq::<char>::empty());
            assert(before.last() == before[0]);
            assert(number_read(before.drop_last()) == 0);
            assert(number_read(before) == 0);
        }
    }
}

/// The notation of an integer starts with a minus sign exactly where it is negative, and the
/// digits denote its magnitude.
pub proof fn law_signed_numbers_are_read_back(i: int)
    ensures
        int_text(i)[0] == '-' <==> i < 0,
        i < 0 ==> number_read(int_text(i).skip(1)) == -i,
        i >= 0 ==> number_read(int_text(i)) == i,
{
    if i < 0 {
        law_numbers_are_read_back((-i) as nat);
        assert(int_text(i).skip(1) =~= nat_text((-i) as nat));
    } else {
        law_numbers_are_read_back(i as nat);
        assert('0' <= nat_text(i as nat)[0]);
    }
}

/// An optional text survives a message: where it is there and not empty it comes back, and where
/// it is not there it is not there again.
pub proof fn law_optional_texts_survive_a_message(
    text: Option<String>,
    m: String,
    back: Option<String>,
)
    requires
        call_ensures(or_empty, (text,), m),
        call_ensures(non_empty, (m,), back),
    ensures
        text is None ==> m@.len() == 0 && back is None,
        text matches Some(t) ==> m@ == t@,
        text matches Some(t) ==> (t@.len() > 0 ==> (back matches Some(b) && b@ == t@)),
{
}

/// A message's text is none exactly where it is empty, and itself otherwise.
pub proof fn law_empty_texts_are_none(m: String, r: Option<String>)
    requires
        call_ensures(non_empty, (m,), r),
    ensures
        r is None <==> m@.len() == 0,
        r matches Some(t) ==> t@ == m@,
{
}

/// The text of an identifier is read as that identifier, and no two identifiers have the same
/// text.
pub proof fn law_identifiers_are_read_back(
    a: u128,
    a_text: String,
    b: u128,
    b_text: String,
    shown: &str,
    read: Option<u128>,
)
    requires
        call_ensures(id_text, (a,), a_text),
        call_ensures(id_text, (b,), b_text),
        shown@ == a_text@,
        call_ensures(parse_id, (shown,), read),
    ensures
        read == Some(a),
        a_text@ == b_text@ ==> a == b,
{
    law_id_text_parses_back(a);
    law_id_text_parses_back(b);
}

/// An ASCII text in upper case has `A` to `Z` for `a` to `z`, and the rest as it was.
pub proof fn law_ascii_letters_become_upper_case(text: &str, r: String)
    requires
        call_ensures(to_uppercase, (text,), r),
        forall|i: int| 0 <= i < text@.len() ==> ((#[trigger] text@[i]) as int) < 128,
    ensures
        r@.len() == text@.len(),
        forall|i: int|
            0 <= i < text@.len() ==> if 'a' <= text@[i] <= 'z' {
                (#[trigger] r@[i]) as int == text@[i] as int - 'a' as int + 'A' as int
            } else {
                r@[i] == text@[i]
            },
{
}

} // verus!
