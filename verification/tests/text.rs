use velox_ledger::json::{metadata_from_json, metadata_to_json, no_metadata};
use velox_ledger::text::{append_i64, append_u64, non_empty, or_empty, to_uppercase};

fn pair(key: &str, value: &str) -> (String, String) {
    (key.to_string(), value.to_string())
}

#[test]
fn integers_in_decimal_notation() {
    let mut out = String::from("n=");
    append_u64(&mut out, 0);
    append_u64(&mut out, 9007199254740993);
    assert_eq!(out, "n=09007199254740993");
    let mut out = String::new();
    append_i64(&mut out, i64::MIN);
    append_i64(&mut out, 42);
    assert_eq!(out, "-922337203685477580842");
    let mut out = String::new();
    append_u64(&mut out, u64::MAX);
    assert_eq!(out, "18446744073709551615");
}

#[test]
fn optional_texts() {
    assert_eq!(or_empty(None), "");
    assert_eq!(or_empty(Some("x".to_string())), "x");
    assert_eq!(non_empty(String::new()), None);
    assert_eq!(non_empty("x".to_string()), Some("x".to_string()));
}

#[test]
fn upper_case() {
    assert_eq!(to_uppercase("usd"), "USD");
    assert_eq!(to_uppercase("eUr 7"), "EUR 7");
    assert_eq!(to_uppercase("stra\u{df}e"), "STRASSE");
}

#[test]
fn metadata_is_stored_as_an_object() {
    assert_eq!(metadata_to_json(&vec![]), "{}");
    assert_eq!(no_metadata(), "{}");
    assert_eq!(
        metadata_to_json(&vec![pair("b", "2"), pair("a", "say \"hi\"")]),
        "{\"a\":\"say \\\"hi\\\"\",\"b\":\"2\"}"
    );
    assert_eq!(metadata_to_json(&vec![pair("a", "1"), pair("a", "2")]), "{\"a\":\"2\"}");
}

#[test]
fn metadata_reads_back() {
    let pairs = vec![pair("channel", "web"), pair("note", "a\nb")];
    let mut back = metadata_from_json(&metadata_to_json(&pairs));
    back.sort();
    assert_eq!(back, pairs);
}

#[test]
fn metadata_that_is_no_map_of_texts_reads_as_none() {
    assert_eq!(metadata_from_json("null"), vec![]);
    assert_eq!(metadata_from_json("{\"n\":1}"), vec![]);
    assert_eq!(metadata_from_json("[]"), vec![]);
    assert_eq!(metadata_from_json("not json"), vec![]);
    assert_eq!(metadata_from_json("{\"n\":\"1\"}"), vec![pair("n", "1")]);
}

#[test]
fn metadata_under_any_key_reads_back() {
    for key in ["$serde_json::private::RawValue", "$serde_json::private::Number", "", "\u{0}"] {
        for value in ["x", "{}", "1", ""] {
            let pairs = vec![pair(key, value)];
            assert_eq!(metadata_from_json(&metadata_to_json(&pairs)), pairs);
            let pairs = vec![pair(key, value), pair("~", "2")];
            assert_eq!(metadata_from_json(&metadata_to_json(&pairs)), pairs);
        }
    }
}

#[test]
fn the_last_of_several_values_counts() {
    let pairs = vec![pair("a", "1"), pair("b", "2"), pair("a", "3"), pair("b", "4")];
    assert_eq!(metadata_to_json(&pairs), "{\"a\":\"3\",\"b\":\"4\"}");
}
