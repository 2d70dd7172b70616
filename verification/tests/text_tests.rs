use motortown_extract::capacity::{deserialize_zero_as_none, Capacity};
use motortown_extract::cargo_map::CargoMap;
use motortown_extract::is_false;
use motortown_extract::text::{
    chars_of, find_last, join, parse_index, push_decimal, short_guid, strip_hyphens, text_of,
};

#[test]
fn is_false_negates() {
    assert!(is_false(&false));
    assert!(!is_false(&true));
}

#[test]
fn zero_capacity_is_unset() {
    assert_eq!(Capacity::new(0), None);
    assert_eq!(deserialize_zero_as_none(0), None);
}

#[test]
fn set_capacity_keeps_its_amount() {
    assert_eq!(Capacity::new(30).unwrap().get(), 30);
    assert_eq!(deserialize_zero_as_none(-7).unwrap().get(), -7);
    assert_eq!(Capacity::new(i64::MIN).unwrap().get(), i64::MIN);
}

#[test]
fn chars_and_text_round_trip() {
    let chars = chars_of("héllo.12");
    assert_eq!(chars.len(), 8);
    assert_eq!(text_of(&chars, 0, 5), "héllo");
    assert_eq!(text_of(&chars, 6, 8), "12");
    assert_eq!(text_of(&chars, 3, 3), "");
}

#[test]
fn hyphens_are_stripped() {
    assert_eq!(strip_hyphens("a-b--c-"), "abc");
    assert_eq!(strip_hyphens("---"), "");
    assert_eq!(strip_hyphens(""), "");
}

#[test]
fn short_guid_strips_and_lowers() {
    assert_eq!(short_guid("0A1B-2C3D-EEFF"), "0a1b2c3deeff");
    assert_eq!(short_guid("ABC"), "abc");
    assert_eq!(short_guid(""), "");
}

#[test]
fn join_puts_separator_between_parts() {
    let parts = vec!["a".to_string(), "".to_string(), "b".to_string()];
    assert_eq!(join(&parts, ", "), "a, , b");
    assert_eq!(join(&vec!["only".to_string()], " "), "only");
    assert_eq!(join(&Vec::new(), " "), "");
}

#[test]
fn decimal_rendering_matches_display() {
    let samples: [i64; 9] = [0, 7, 10, 42, 100, -1, -120, i64::MAX, i64::MIN];
    for n in samples {
        let mut out = String::from("n=");
        push_decimal(&mut out, n);
        assert_eq!(out, format!("n={}", n));
    }
}

#[test]
fn index_parsing_accepts_digits_and_plus() {
    assert_eq!(parse_index(&chars_of("0"), 0), Some(0));
    assert_eq!(parse_index(&chars_of("1234"), 0), Some(1234));
    assert_eq!(parse_index(&chars_of("+17"), 0), Some(17));
    assert_eq!(parse_index(&chars_of("x.0042"), 2), Some(42));
}

#[test]
fn index_parsing_rejects_everything_else() {
    assert_eq!(parse_index(&chars_of(""), 0), None);
    assert_eq!(parse_index(&chars_of("+"), 0), None);
    assert_eq!(parse_index(&chars_of("-3"), 0), None);
    assert_eq!(parse_index(&chars_of("12a"), 0), None);
    assert_eq!(parse_index(&chars_of(" 12"), 0), None);
    assert_eq!(parse_index(&chars_of("1_000"), 0), None);
    assert_eq!(parse_index(&chars_of("99999999999999999999999999"), 0), None);
}

#[test]
fn index_parsing_reaches_the_machine_limit() {
    let max = format!("{}", usize::MAX);
    assert_eq!(parse_index(&chars_of(&max), 0), Some(usize::MAX));
    let mut over = max.clone();
    over.push('0');
    assert_eq!(parse_index(&chars_of(&over), 0), None);
}

#[test]
fn find_last_gives_the_last_occurrence() {
    assert_eq!(find_last(&chars_of("a.b.c"), '.'), Some(3));
    assert_eq!(find_last(&chars_of(".abc"), '.'), Some(0));
    assert_eq!(find_last(&chars_of("abc"), '.'), None);
    assert_eq!(find_last(&chars_of(""), '.'), None);
}

#[test]
fn cargo_map_insert_replaces_and_keeps_order() {
    let mut m: CargoMap<i64> = CargoMap::new();
    assert!(m.is_empty());
    m.insert("wood".to_string(), 1);
    m.insert("coal".to_string(), 2);
    m.insert("wood".to_string(), 3);
    assert_eq!(m.len(), 2);
    assert_eq!(m.get("wood"), Some(&3));
    assert_eq!(m.get("coal"), Some(&2));
    assert_eq!(m.get("sand"), None);
    assert!(m.contains_key("coal"));
    assert!(!m.contains_key("Coal"));
    let first = m.entry(0);
    assert_eq!((first.0.as_str(), *first.1), ("wood", 3));
    let second = m.entry(1);
    assert_eq!((second.0.as_str(), *second.1), ("coal", 2));
}

#[test]
fn cargo_map_absorb_prefers_the_other_map() {
    let mut own: CargoMap<i64> = CargoMap::new();
    own.insert("wood".to_string(), 50);
    own.insert("sand".to_string(), 5);
    let mut other: CargoMap<i64> = CargoMap::new();
    other.insert("wood".to_string(), 80);
    other.insert("coal".to_string(), 20);
    own.absorb(&other);
    assert_eq!(own.len(), 3);
    assert_eq!(own.get("wood"), Some(&80));
    assert_eq!(own.get("sand"), Some(&5));
    assert_eq!(own.get("coal"), Some(&20));
    let copy = own.copy();
    assert_eq!(copy.get("wood"), Some(&80));
    assert_eq!(copy.len(), 3);
    let cloned = own.clone();
    assert_eq!(cloned.get("coal"), Some(&20));
}
