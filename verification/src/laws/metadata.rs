//! Metadata: what a request attaches is what is stored, and what is stored is what is handed out.
use vstd::prelude::*;

use crate::json::{json_string_map, metadata_from_json, metadata_to_json, pairs_map, stored_map};

verus! {

/// Whether the pair at `i` is the last with its key.
pub open spec fn last_of_its_key(pairs: Seq<(String, String)>, i: int) -> bool {
    &&& 0 <= i < pairs.len()
    &&& forall|j: int| i < j < pairs.len() ==> (#[trigger] pairs[j]).0@ != pairs[i].0@
}

/// What a stored text holds under a key.
pub open spec fn stored_value(text: Seq<char>, key: Seq<char>) -> Option<Seq<char>> {
    match json_string_map(text) {
        Some(map) => if map.contains_key(key) {
            Some(map[key])
        } else {
            None
        },
        None => None,
    }
}

/// Whether a stored text holds what the pairs attach: under each key the value of the last pair
/// with that key, and no other keys.
pub open spec fn holds_metadata(text: Seq<char>, pairs: Seq<(String, String)>) -> bool {
    &&& forall|i: int| #[trigger]
        last_of_its_key(pairs, i) ==> stored_value(text, pairs[i].0@) == Some(pairs[i].1@)
    &&& forall|key: Seq<char>|
        (#[trigger] stored_value(text, key)) is Some ==> exists|i: int| #[trigger]
            last_of_its_key(pairs, i) && pairs[i].0@ == key
}

/// Whether the pairs are what a stored text holds: each key once, with its value, and nothing
/// where the text is no object of strings.
pub open spec fn shows_metadata(pairs: Seq<(String, String)>, text: Seq<char>) -> bool {
    &&& forall|i: int, j: int|
        0 <= i < j < pairs.len() ==> (#[trigger] pairs[i]).0@ != (#[trigger] pairs[j]).0@
    &&& forall|i: int|
        0 <= i < pairs.len() ==> stored_value(text, (#[trigger] pairs[i]).0@) == Some(pairs[i].1@)
    &&& forall|key: Seq<char>|
        (#[trigger] stored_value(text, key)) is Some ==> exists|i: int|
            0 <= i < pairs.len() && (#[trigger] pairs[i]).0@ == key
}

/// The map of a list of pairs has the value of the last pair with each key.
proof fn lemma_pairs_map(pairs: Seq<(String, String)>)
    ensures
        forall|i: int| #[trigger]
            last_of_its_key(pairs, i) ==> pairs_map(pairs).contains_key(pairs[i].0@) && pairs_map(
                pairs,
            )[pairs[i].0@] == pairs[i].1@,
        forall|key: Seq<char>| #[trigger]
            pairs_map(pairs).contains_key(key) ==> exists|i: int| #[trigger]
                last_of_its_key(pairs, i) && pairs[i].0@ == key,
    decreases pairs.len(),
{
    if pairs.len() > 0 {
        let before = pairs.drop_last();
        let last = pairs[pairs.len() - 1];
        lemma_pairs_map(before);
        assert forall|i: int| #[trigger] last_of_its_key(pairs, i) implies pairs_map(
            pairs,
        ).contains_key(pairs[i].0@) && pairs_map(pairs)[pairs[i].0@] == pairs[i].1@ by {
            if i < before.len() {
                assert(pairs[i].0@ != last.0@);
                assert(last_of_its_key(before, i)) by {
                    assert forall|j: int| i < j < before.len() implies (#[trigger] before[j]).0@
                        != before[i].0@ by {
                        assert(pairs[j].0@ != pairs[i].0@);
                    }
                }
            }
        }
        assert forall|key: Seq<char>| #[trigger] pairs_map(pairs).contains_key(
            key,
        ) implies exists|i: int| #[trigger] last_of_its_key(pairs, i) && pairs[i].0@ == key by {
            if key == last.0@ {
                assert(last_of_its_key(pairs, pairs.len() - 1));
            } else {
                assert(pairs_map(before).contains_key(key));
                let i = choose|i: int| #[trigger]
                    last_of_its_key(before, i) && before[i].0@ == key;
                assert forall|j: int| i < j < pairs.len() implies (#[trigger] pairs[j]).0@
                    != pairs[i].0@ by {
                    if j < before.len() {
                        assert(before[j].0@ != before[i].0@);
                    }
                }
                assert(last_of_its_key(pairs, i));
            }
        }
    }
}

/// A text whose map is that of the pairs holds what they attach.
pub proof fn lemma_holds(text: Seq<char>, pairs: Seq<(String, String)>)
    requires
        stored_map(text) == pairs_map(pairs),
    ensures
        holds_metadata(text, pairs),
{
    lemma_pairs_map(pairs);
    assert forall|key: Seq<char>|
        (#[trigger] stored_value(text, key)) is Some implies exists|i: int| #[trigger]
        last_of_its_key(pairs, i) && pairs[i].0@ == key by {
        assert(pairs_map(pairs).contains_key(key));
    }
}

/// What is handed out of a stored text is what it holds.
pub proof fn law_stored_metadata_is_handed_out(text: &str, r: Vec<(String, String)>)
    requires
        call_ensures(metadata_from_json, (text,), r),
    ensures
        shows_metadata(r@, text@),
{
    lemma_shows(r@, text@);
}

/// Pairs with each key once, whose map is that of a text, are what the text holds.
pub proof fn lemma_shows(pairs: Seq<(String, String)>, text: Seq<char>)
    requires
        pairs_map(pairs) == stored_map(text),
        forall|i: int, j: int|
            0 <= i < j < pairs.len() ==> (#[trigger] pairs[i]).0@ != (#[trigger] pairs[j]).0@,
    ensures
        shows_metadata(pairs, text),
{
    lemma_pairs_map(pairs);
    assert forall|i: int| 0 <= i < pairs.len() implies stored_value(
        text,
        (#[trigger] pairs[i]).0@,
    ) == Some(pairs[i].1@) by {
        assert(last_of_its_key(pairs, i));
    }
    assert forall|key: Seq<char>|
        (#[trigger] stored_value(text, key)) is Some implies exists|i: int|
        0 <= i < pairs.len() && (#[trigger] pairs[i]).0@ == key by {
        assert(pairs_map(pairs).contains_key(key));
        let i = choose|i: int| #[trigger] last_of_its_key(pairs, i) && pairs[i].0@ == key;
        assert(pairs[i].0@ == key);
    }
}

/// What is attached comes back: of the pairs that are stored, the last with each key is handed
/// out again, each once, and nothing else is.
pub proof fn law_metadata_comes_back(
    pairs: Vec<(String, String)>,
    text: String,
    stored: &str,
    r: Vec<(String, String)>,
)
    requires
        call_ensures(metadata_to_json, (&pairs,), text),
        stored@ == text@,
        call_ensures(metadata_from_json, (stored,), r),
    ensures
        forall|i: int| #[trigger]
            last_of_its_key(pairs@, i) ==> exists|j: int|
                0 <= j < r.len() && (#[trigger] r@[j]).0@ == pairs@[i].0@ && r@[j].1@
                    == pairs@[i].1@,
        forall|j: int|
            0 <= j < r.len() ==> exists|i: int| #[trigger]
                last_of_its_key(pairs@, i) && (#[trigger] r@[j]).0@ == pairs@[i].0@ && r@[j].1@
                    == pairs@[i].1@,
        forall|i: int, j: int|
            0 <= i < j < r.len() ==> (#[trigger] r@[i]).0@ != (#[trigger] r@[j]).0@,
{
    lemma_holds(text@, pairs@);
    lemma_shows(r@, text@);
    assert forall|i: int| #[trigger] last_of_its_key(pairs@, i) implies exists|j: int|
        0 <= j < r.len() && (#[trigger] r@[j]).0@ == pairs@[i].0@ && r@[j].1@ == pairs@[i].1@ by {
        assert(stored_value(text@, pairs@[i].0@) is Some);
        let j = choose|j: int| 0 <= j < r@.len() && (#[trigger] r@[j]).0@ == pairs@[i].0@;
        assert(stored_value(text@, r@[j].0@) == Some(r@[j].1@));
    }
    assert forall|j: int| 0 <= j < r.len() implies exists|i: int| #[trigger]
        last_of_its_key(pairs@, i) && (#[trigger] r@[j]).0@ == pairs@[i].0@ && r@[j].1@
            == pairs@[i].1@ by {
        assert(stored_value(text@, r@[j].0@) is Some);
        let i = choose|i: int| #[trigger] last_of_its_key(pairs@, i) && pairs@[i].0@ == r@[j].0@;
        assert(stored_value(text@, pairs@[i].0@) == Some(pairs@[i].1@));
    }
}

} // verus!
