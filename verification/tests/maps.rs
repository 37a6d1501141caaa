use celeste_rs::maps::lookup::{LookupIndex, LookupTable, ResolvableString};
use celeste_rs::maps::reader::{MapReadError, MapReader};
use celeste_rs::maps::var_types::{Character, EncodedVar};
use celeste_rs::maps::writer::{MapWriteError, MapWriter};
use celeste_rs::maps::{MapAttribute, RawMap, RawMapElement};
use celeste_rs::utils::binary::BinReadError;
use celeste_rs::utils::num::Integer;

/// A small map: named "test", a table of "Map" and "x", and a root element
/// "Map" with one attribute x = 7.
fn small_map_bytes() -> Vec<u8> {
    let mut b = vec![11u8];
    b.extend_from_slice(b"CELESTE MAP");
    b.push(4);
    b.extend_from_slice(b"test");
    b.extend_from_slice(&[2, 0, 3]);
    b.extend_from_slice(b"Map");
    b.extend_from_slice(&[1, b'x']);
    b.extend_from_slice(&[0, 0, 1, 1, 0, 3, 7, 0, 0, 0, 0, 0]);
    b
}

fn name_text(n: &ResolvableString) -> String {
    n.as_str().expect("resolved").to_owned()
}

#[test]
fn map_reads_its_parts() {
    let bytes = small_map_bytes();
    let map = RawMap::from_bytes(&bytes).unwrap();
    assert_eq!(map.name, "test");
    assert_eq!(map.lookup_table.len(), 2);
    assert_eq!(map.lookup_table.get(LookupIndex(0)).unwrap(), "Map");
    assert_eq!(map.lookup_table.get(LookupIndex(1)).unwrap(), "x");
    assert_eq!(map.root_element.name, ResolvableString::LookupIndex(LookupIndex(0)));
    assert_eq!(map.root_element.attributes.len(), 1);
    assert_eq!(map.root_element.attributes[0].name, ResolvableString::LookupIndex(LookupIndex(1)));
    assert_eq!(map.root_element.attributes[0].value.i32().unwrap(), 7);
    assert!(map.root_element.children.is_empty());
}

#[test]
fn map_writes_back_the_bytes_it_was_read_from() {
    let bytes = small_map_bytes();
    let map = RawMap::from_bytes(&bytes).unwrap();
    assert_eq!(map.to_bytes().unwrap(), bytes);
}

#[test]
fn map_with_another_header_is_refused() {
    let mut bytes = vec![9u8];
    bytes.extend_from_slice(b"NOT A MAP");
    match RawMap::from_bytes(&bytes) {
        Err(MapReadError::InvalidHeader(h)) => assert_eq!(h, "NOT A MAP"),
        other => panic!("unexpected result: {:?}", other.map(|m| m.name)),
    }
}

#[test]
fn truncated_map_reports_end_of_buffer() {
    let bytes = small_map_bytes();
    let cut = &bytes[.. bytes.len() - 3];
    assert!(matches!(
        RawMap::from_bytes(cut),
        Err(MapReadError::BinError(BinReadError::EndOfBuffer))
    ));
}

#[test]
fn unknown_value_kind_is_refused() {
    let bytes = vec![9u8];
    let mut r = MapReader::new(&bytes);
    assert!(matches!(r.read_encoded_var(), Err(MapReadError::InvalidEncodedVarType(9))));
}

#[test]
fn resolving_replaces_indices_by_text() {
    let bytes = small_map_bytes();
    let mut map = RawMap::from_bytes(&bytes).unwrap();
    map.resolve_strings();
    assert_eq!(name_text(&map.root_element.name), "Map");
    assert_eq!(name_text(&map.root_element.attributes[0].name), "x");
}

#[test]
fn unresolving_after_resolving_restores_the_map() {
    let bytes = small_map_bytes();
    let mut map = RawMap::from_bytes(&bytes).unwrap();
    map.resolve_strings();
    map.unresolve_strings();
    assert_eq!(map.root_element.name, ResolvableString::LookupIndex(LookupIndex(0)));
    assert_eq!(map.to_bytes().unwrap(), bytes);
}

#[test]
fn writing_a_resolved_name_is_an_error() {
    let element = RawMapElement {
        name: ResolvableString::String("Map".to_owned()),
        attributes: Vec::new(),
        children: Vec::new(),
    };
    let mut w = MapWriter::new();
    match w.write_element(&element) {
        Err(MapWriteError::ResolvedString(s)) => assert_eq!(s, "Map"),
        _ => panic!("expected a resolved-string error"),
    }
}

#[test]
fn every_value_kind_reads_back() {
    let values = vec![
        EncodedVar::Bool(true),
        EncodedVar::Byte(200),
        EncodedVar::Short(-3),
        EncodedVar::Int(-70000),
        EncodedVar::Float(0x3F80_0000),
        EncodedVar::LookupIndex(LookupIndex(513)),
        EncodedVar::String("abc".to_owned()),
        EncodedVar::LengthEncodedString("xxxy".to_owned()),
    ];
    let mut w = MapWriter::new();
    for v in &values {
        w.write_encoded_var(v).unwrap();
    }
    let bytes = w.finish();
    let mut r = MapReader::new(&bytes);
    assert_eq!(r.read_encoded_var().unwrap().bool().unwrap(), true);
    assert_eq!(r.read_encoded_var().unwrap().u8().unwrap(), 200);
    assert_eq!(r.read_encoded_var().unwrap().i16().unwrap(), -3);
    assert_eq!(r.read_encoded_var().unwrap().i32().unwrap(), -70000);
    assert_eq!(r.read_encoded_var().unwrap().f32_bits().unwrap(), 0x3F80_0000);
    assert_eq!(r.read_encoded_var().unwrap().lookup_index().unwrap(), LookupIndex(513));
    assert_eq!(r.read_encoded_var().unwrap().string().unwrap(), "abc");
    assert_eq!(r.read_encoded_var().unwrap().string().unwrap(), "xxxy");
}

#[test]
fn element_with_children_reads_back() {
    let child = RawMapElement {
        name: ResolvableString::LookupIndex(LookupIndex(2)),
        attributes: vec![MapAttribute::new(
            ResolvableString::LookupIndex(LookupIndex(3)),
            EncodedVar::Short(12),
        )],
        children: Vec::new(),
    };
    let root = RawMapElement {
        name: ResolvableString::LookupIndex(LookupIndex(1)),
        attributes: Vec::new(),
        children: vec![child.duplicate(), child],
    };
    let mut w = MapWriter::new();
    w.write_element(&root).unwrap();
    let bytes = w.finish();
    assert_eq!(bytes.len(), 5 + 2 * (3 + 2 + 3 + 2));
    let mut r = MapReader::new(&bytes);
    let back = r.read_element().unwrap();
    assert_eq!(back.children.len(), 2);
    assert_eq!(back.children[1].attributes[0].value.i16().unwrap(), 12);
}

#[test]
fn lookup_table_reads_back() {
    let table = LookupTable::from_vec(vec!["a".to_owned(), "bc".to_owned()]);
    let mut w = MapWriter::new();
    w.write_lookup_table(&table).unwrap();
    let bytes = w.finish();
    assert_eq!(bytes, vec![2, 0, 1, b'a', 2, b'b', b'c']);
    let mut r = MapReader::new(&bytes);
    let back = r.read_lookup_table().unwrap();
    assert_eq!(back.get(LookupIndex(1)).unwrap(), "bc");
}

#[test]
fn a_string_is_stored_once_it_is_added_twice() {
    let mut table = LookupTable::new();
    table.add_string("a");
    assert!(!table.lookup_contains("a"));
    assert_eq!(table.lookup_string("a"), None);
    table.add_string("a");
    assert!(table.lookup_contains("a"));
    assert_eq!(table.lookup_string("a"), Some(LookupIndex(0)));
}

#[test]
fn indexed_strings_are_kept_sorted() {
    let mut table = LookupTable::new();
    table.index_string("b");
    table.index_string("a");
    table.index_string("c");
    table.index_string("b");
    assert_eq!(table.len(), 3);
    assert_eq!(table.get(LookupIndex(0)).unwrap(), "a");
    assert_eq!(table.get(LookupIndex(2)).unwrap(), "c");
    assert_eq!(table.lookup_string("c"), Some(LookupIndex(2)));
    assert_eq!(table.get(LookupIndex(3)), None);
}

#[test]
fn resolvable_string_resolves_and_turns_back_into_an_index() {
    let table = LookupTable::from_vec(vec!["a".to_owned(), "b".to_owned()]);
    let mut s = ResolvableString::LookupIndex(LookupIndex(1));
    assert_eq!(s.to_string(&table), "b");
    assert_eq!(s.as_str(), None);
    s.resolve(&table);
    assert_eq!(s.as_str(), Some("b"));
    s.to_index(&table);
    assert_eq!(s, ResolvableString::LookupIndex(LookupIndex(1)));
    let mut missing = ResolvableString::String("z".to_owned());
    missing.to_index(&table);
    assert_eq!(missing, ResolvableString::String("z".to_owned()));
}

#[test]
fn value_of_the_wrong_kind_names_both_kinds() {
    let v = EncodedVar::Int(5);
    let e = v.bool().unwrap_err();
    assert_eq!(e.expected_kind(), "bool");
    assert_eq!(e.found_kind(), "int");
    assert_eq!(v.kind(), "int");
}

#[test]
fn integers_of_every_width_read_as_integer() {
    assert_eq!(EncodedVar::Byte(3).integer().unwrap(), Integer::U8(3));
    assert_eq!(EncodedVar::Short(-4).integer().unwrap(), Integer::I16(-4));
    assert_eq!(EncodedVar::Int(9).integer().unwrap(), Integer::I32(9));
    assert!(EncodedVar::Bool(false).integer().is_err());
}

#[test]
fn integers_widen_when_combined() {
    assert_eq!(Integer::U8(200).add(Integer::I16(100)), Integer::I16(300));
    assert_eq!(Integer::I16(-7).div(Integer::U8(2)), Integer::I16(-3));
    assert_eq!(Integer::I32(6).mul(Integer::U8(7)), Integer::I32(42));
    assert_eq!(Integer::U8(9).sub(Integer::U8(4)), Integer::U8(5));
}

#[test]
fn character_is_one_byte_or_a_one_letter_string() {
    let table = LookupTable::from_vec(vec!["q".to_owned(), "qq".to_owned()]);
    assert_eq!(Character::Byte(b'x').static_as_char(), Some('x'));
    assert_eq!(Character::String(ResolvableString::String("y".to_owned())).static_as_char(), Some('y'));
    assert_eq!(Character::String(ResolvableString::LookupIndex(LookupIndex(0))).as_char(&table), Some('q'));
    assert_eq!(Character::String(ResolvableString::LookupIndex(LookupIndex(1))).as_char(&table), None);
    assert!(Character::String(ResolvableString::LookupIndex(LookupIndex(0))).verify(&table));
}

#[test]
fn new_rle_str_holds_the_text() {
    let v = EncodedVar::new_rle_str("abc");
    assert_eq!(v.kind(), "rle string");
    assert_eq!(v.string().unwrap(), "abc");
}
