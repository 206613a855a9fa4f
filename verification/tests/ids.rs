use velox_ledger::ids::{id_text, new_id, parse_id};

#[test]
fn id_text_parses_back() {
    for id in [0u128, 1, 0x0190_0000_0000_7000_8000_0000_0000_00ff, u128::MAX] {
        assert_eq!(parse_id(&id_text(id)), Some(id));
    }
}

#[test]
fn id_text_is_hyphenated_lower_case() {
    assert_eq!(
        id_text(0x0123_4567_89ab_cdef_0123_4567_89ab_cdef),
        "01234567-89ab-cdef-0123-456789abcdef"
    );
    assert_eq!(id_text(0), "00000000-0000-0000-0000-000000000000");
}

#[test]
fn ids_are_read_in_four_notations() {
    let id = Some(0x0123_4567_89ab_cdef_0123_4567_89ab_cdefu128);
    assert_eq!(parse_id("0123456789abcdef0123456789abcdef"), id);
    assert_eq!(parse_id("01234567-89AB-CDEF-0123-456789abcdef"), id);
    assert_eq!(parse_id("{01234567-89ab-cdef-0123-456789abcdef}"), id);
    assert_eq!(parse_id("urn:uuid:01234567-89ab-cdef-0123-456789abcdef"), id);
    assert_eq!(parse_id("URN:UUID:01234567-89ab-cdef-0123-456789abcdef"), id);
}

#[test]
fn what_is_no_id_is_refused() {
    assert_eq!(parse_id(""), None);
    assert_eq!(parse_id("not-an-id"), None);
    assert_eq!(parse_id("0123456789abcdef0123456789abcde"), None);
    assert_eq!(parse_id("0123456789abcdef0123456789abcdeg"), None);
    assert_eq!(parse_id("{0123456789abcdef0123456789abcdef}"), None);
    assert_eq!(parse_id("012345678-9ab-cdef-0123-456789abcdef"), None);
}

#[test]
fn different_ids_read_differently() {
    assert_ne!(id_text(1), id_text(2));
    assert_ne!(id_text(1 << 64), id_text(1));
}

#[test]
fn new_ids_are_of_version_seven() {
    let a = new_id();
    let b = new_id();
    assert_ne!(a, b);
    assert_eq!((a >> 76) & 0xf, 7);
    assert_eq!((a >> 62) & 0x3, 2);
}
