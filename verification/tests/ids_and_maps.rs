use wasmiot_orchestrator::ids::ObjectId;
use wasmiot_orchestrator::ordered_map::{put_nested, OrderedMap};

fn sample_bytes() -> [u8; 12] {
    [0x00, 0x01, 0x0a, 0x0f, 0x10, 0x7f, 0x80, 0xab, 0xcd, 0xef, 0xfe, 0xff]
}

#[test]
fn hex_of_an_identifier_is_lowercase_and_two_digits_a_byte() {
    let id = ObjectId::from_bytes(sample_bytes());
    assert_eq!(id.to_hex(), "00010a0f107f80abcdeffeff");
}

#[test]
fn hex_of_zero_identifier() {
    let id = ObjectId::from_bytes([0; 12]);
    assert_eq!(id.to_hex(), "000000000000000000000000");
}

#[test]
fn parse_reads_both_cases() {
    let lower = ObjectId::parse_str("00010a0f107f80abcdeffeff");
    let upper = ObjectId::parse_str("00010A0F107F80ABCDEFFEFF");
    assert_eq!(lower, Some(ObjectId::from_bytes(sample_bytes())));
    assert_eq!(upper, lower);
}

#[test]
fn parse_refuses_other_texts() {
    assert_eq!(ObjectId::parse_str(""), None);
    assert_eq!(ObjectId::parse_str("camera"), None);
    assert_eq!(ObjectId::parse_str("00010a0f107f80abcdeffef"), None);
    assert_eq!(ObjectId::parse_str("00010a0f107f80abcdeffeff0"), None);
    assert_eq!(ObjectId::parse_str("00010a0f107f80abcdeffefg"), None);
    assert_eq!(ObjectId::parse_str("é0010a0f107f80abcdeffef"), None);
}

#[test]
fn parse_undoes_hex() {
    let id = ObjectId::from_bytes([9, 8, 7, 6, 5, 4, 3, 2, 1, 0, 255, 254]);
    assert_eq!(ObjectId::parse_str(&id.to_hex()), Some(id));
}

#[test]
fn identifiers_compare_by_their_bytes() {
    let a = ObjectId::from_bytes([1; 12]);
    let b = ObjectId::from_bytes([1; 12]);
    let mut other = [1u8; 12];
    other[11] = 2;
    assert!(a == b);
    assert!(a != ObjectId::from_bytes(other));
}

#[test]
fn map_keeps_arrival_order_and_replaces_in_place() {
    let mut map: OrderedMap<u32> = OrderedMap::new();
    assert!(map.is_empty());
    map.insert("b".to_string(), 1);
    map.insert("a".to_string(), 2);
    map.insert("b".to_string(), 3);
    assert_eq!(map.len(), 2);
    assert_eq!(map.entries, vec![("b".to_string(), 3), ("a".to_string(), 2)]);
    assert_eq!(map.get("a"), Some(&2));
    assert_eq!(map.get("b"), Some(&3));
    assert_eq!(map.get("c"), None);
    assert_eq!(map.position("a"), Some(1));
    assert!(map.contains_key("b"));
    assert!(!map.contains_key(""));
}

#[test]
fn lookup_finds_the_first_entry_of_a_key() {
    let map = OrderedMap { entries: vec![("k".to_string(), 1), ("k".to_string(), 2)] };
    assert_eq!(map.get("k"), Some(&1));
    assert_eq!(map.position("k"), Some(0));
}

#[test]
fn nested_put_creates_and_extends() {
    let mut map: OrderedMap<OrderedMap<u32>> = OrderedMap::new();
    put_nested(&mut map, "m", "f".to_string(), 1);
    put_nested(&mut map, "m", "g".to_string(), 2);
    put_nested(&mut map, "n", "f".to_string(), 3);
    put_nested(&mut map, "m", "f".to_string(), 4);
    assert_eq!(map.len(), 2);
    assert_eq!(map.get("m").unwrap().entries, vec![("f".to_string(), 4), ("g".to_string(), 2)]);
    assert_eq!(map.get("n").unwrap().get("f"), Some(&3));
}

#[test]
fn a_copy_of_a_map_has_the_same_entries() {
    let mut map: OrderedMap<String> = OrderedMap::new();
    map.put("x".to_string(), "1".to_string());
    map.put("y".to_string(), "2".to_string());
    let copy = map.clone();
    assert_eq!(copy, map);
}
