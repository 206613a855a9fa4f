//! Metadata: what a request attaches to an account, a transaction or an entry as a map from
//! text to text, and what is stored of it as the text of a JSON value.
use vstd::prelude::*;

verus! {

/// The text of the JSON object whose members are the entries of a map.
pub uninterp spec fn json_object_text(map: Map<Seq<char>, Seq<char>>) -> Seq<char>;

/// The map that a JSON text is the object of, if it is an object of strings only.
pub uninterp spec fn json_string_map(text: Seq<char>) -> Option<Map<Seq<char>, Seq<char>>>;

/// The map with these entries, of which the last counts where a key occurs more than once.
pub open spec fn pairs_map(pairs: Seq<(String, String)>) -> Map<Seq<char>, Seq<char>>
    decreases pairs.len(),
{
    if pairs.len() == 0 {
        Map::empty()
    } else {
        pairs_map(pairs.drop_last()).insert(pairs.last().0@, pairs.last().1@)
    }
}

/// Whether no key occurs more than once.
pub open spec fn keys_once(pairs: Seq<(String, String)>) -> bool {
    forall|i: int, j: int|
        0 <= i < j < pairs.len() ==> (#[trigger] pairs[i]).0@ != (#[trigger] pairs[j]).0@
}

/// Whether a message's metadata is what is stored in a JSON text.
pub open spec fn metadata_message(pairs: Seq<(String, String)>, text: Seq<char>) -> bool {
    pairs_map(pairs) == stored_map(text) && keys_once(pairs)
}

/// The map that is stored in a JSON text, and none of it where the text holds anything else.
pub open spec fn stored_map(text: Seq<char>) -> Map<Seq<char>, Seq<char>> {
    match json_string_map(text) {
        Some(map) => map,
        None => Map::empty(),
    }
}

/// `serde_json::to_string` on a map of strings. The text depends on the map's entries alone, and
/// `serde_json::from_str` reads the same map from it.
#[verifier::external_body]
fn serde_json_to_string(pairs: &Vec<(String, String)>) -> (r: String)
    requires
        keys_once(pairs@),
    ensures
        r@ == json_object_text(pairs_map(pairs@)),
        json_string_map(r@) == Some(pairs_map(pairs@)),
{
    let map: std::collections::BTreeMap<&String, &String> =
        pairs.iter().map(|pair| (&pair.0, &pair.1)).collect();
    serde_json::to_string(&map).unwrap_or_default()
}

/// `serde_json::from_str` on a JSON text, read as a map of strings. The entries come with each
/// key once.
#[verifier::external_body]
fn serde_json_from_str(text: &str) -> (r: Option<Vec<(String, String)>>)
    ensures
        r is Some <==> json_string_map(text@) is Some,
        r matches Some(pairs) ==> json_string_map(text@) == Some(pairs_map(pairs@)),
        r matches Some(pairs) ==> keys_once(pairs@),
{
    let map = serde_json::from_str::<std::collections::BTreeMap<String, String>>(text).ok()?;
    Some(map.into_iter().collect())
}

/// Another value for a key changes the map at that key.
proof fn lemma_other_value(pairs: Seq<(String, String)>, j: int, key: String, value: String)
    requires
        keys_once(pairs),
        0 <= j < pairs.len(),
        pairs[j].0@ == key@,
    ensures
        pairs_map(pairs.update(j, (key, value))) == pairs_map(pairs).insert(key@, value@),
    decreases pairs.len(),
{
    let before = pairs.drop_last();
    let updated = pairs.update(j, (key, value));
    let last = pairs[pairs.len() - 1];
    if j == pairs.len() - 1 {
        assert(updated.drop_last() =~= before);
        assert(pairs_map(before).insert(key@, last.1@).insert(key@, value@) =~= pairs_map(
            before,
        ).insert(key@, value@));
    } else {
        assert(pairs[j].0@ != last.0@);
        assert(keys_once(before)) by {
            assert forall|p: int, q: int| 0 <= p < q < before.len() implies (
            #[trigger] before[p]).0@ != (#[trigger] before[q]).0@ by {
                assert(pairs[p].0@ != pairs[q].0@);
            }
        }
        lemma_other_value(before, j, key, value);
        assert(updated.drop_last() =~= before.update(j, (key, value)));
        assert(pairs_map(before).insert(key@, value@).insert(last.0@, last.1@) =~= pairs_map(
            before,
        ).insert(last.0@, last.1@).insert(key@, value@));
    }
}

/// The same map with each key once.
fn one_per_key(pairs: &Vec<(String, String)>) -> (r: Vec<(String, String)>)
    ensures
        keys_once(r@),
        pairs_map(r@) == pairs_map(pairs@),
{
    let mut out: Vec<(String, String)> = Vec::new();
    let mut i: usize = 0;
    while i < pairs.len()
        invariant
            i <= pairs.len(),
            keys_once(out@),
            pairs_map(out@) == pairs_map(pairs@.take(i as int)),
        decreases pairs.len() - i,
    {
        let key = pairs[i].0.clone();
        let value = pairs[i].1.clone();
        assert(pairs@.take(i + 1).drop_last() =~= pairs@.take(i as int));
        let ghost before = out@;
        let mut j: usize = 0;
        while j < out.len() && out[j].0 != key
            invariant
                j <= out.len(),
                forall|k: int| 0 <= k < j ==> (#[trigger] out@[k]).0@ != key@,
            decreases out.len() - j,
        {
            j += 1;
        }
        if j < out.len() {
            proof {
                lemma_other_value(out@, j as int, key, value);
            }
            out[j] = (key, value);
        } else {
            out.push((key, value));
            assert(out@.drop_last() =~= before);
        }
        i += 1;
    }
    assert(pairs@.take(i as int) =~= pairs@);
    out
}

/// The text under which a request's metadata is stored. The same entries can be read back.
pub fn metadata_to_json(pairs: &Vec<(String, String)>) -> (r: String)
    ensures
        r@ == json_object_text(pairs_map(pairs@)),
        stored_map(r@) == pairs_map(pairs@),
{
    serde_json_to_string(&one_per_key(pairs))
}

/// The entries of stored metadata: none where it is anything but an object of strings.
pub fn metadata_from_json(text: &str) -> (r: Vec<(String, String)>)
    ensures
        metadata_message(r@, text@),
{
    match serde_json_from_str(text) {
        Some(pairs) => pairs,
        None => Vec::new(),
    }
}

/// The metadata of something that has none.
pub fn no_metadata() -> (r: String)
    ensures
        r@ == "{}"@,
{
    "{}".to_owned()
}

} // verus!
