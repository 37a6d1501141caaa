use celeste_rs::maps::elements::entities::{Player, Spring, Strawberry};
use celeste_rs::maps::elements::MapEntity;
use celeste_rs::maps::encoder::MapEncoder;
use celeste_rs::maps::lookup::{LookupTable, ResolvableString};
use celeste_rs::maps::parser::{MapElement, MapElementParsingError, MapParser};
use celeste_rs::maps::var_types::EncodedVar;
use celeste_rs::maps::RawMapElement;
use celeste_rs::utils::num::{Float, Integer};

fn berry() -> MapEntity<Strawberry> {
    MapEntity {
        id: Integer::I16(300),
        x: Float::I16(-8),
        y: Float::F32(1.5f32.to_bits()),
        width: None,
        height: Some(Integer::U8(16)),
        origin_x: Float::U8(0),
        origin_y: Float::U8(0),
        entity: Strawberry { winged: true, checkpoint_id: Integer::U8(2), order: None },
    }
}

fn encode<T: MapElement>(table: &mut LookupTable, element: &T) -> RawMapElement {
    let name = table.index_string(T::name());
    let mut enc = MapEncoder::new(table, name);
    element.to_raw(&mut enc);
    enc.resolve()
}

#[test]
fn entity_encodes_then_parses_back() {
    let mut table = LookupTable::new();
    let raw = encode(&mut table, &berry());
    assert_eq!(raw.name.to_string(&table), "strawberry");
    // height is written, width is not
    assert_eq!(raw.attributes.len(), 8);
    let parser = MapParser { verbose_debug: false, lookup: &table, raw: &raw, parsers: &Vec::new() };
    let back = MapEntity::<Strawberry>::from_raw(parser).unwrap();
    assert!(matches!(back.id, Integer::I16(300)));
    assert!(matches!(back.x, Float::I16(-8)));
    assert!(matches!(back.y, Float::F32(b) if b == 1.5f32.to_bits()));
    assert!(back.width.is_none());
    assert!(matches!(back.height, Some(Integer::U8(16))));
    assert!(back.entity.winged);
    assert!(matches!(back.entity.checkpoint_id, Integer::U8(2)));
    assert!(back.entity.order.is_none());
}

#[test]
fn names_are_stored_once_in_the_table() {
    let mut table = LookupTable::new();
    let _first = encode(&mut table, &berry());
    let n = table.len();
    let _second = encode(&mut table, &berry());
    assert_eq!(table.len(), n);
}

#[test]
fn missing_attribute_is_reported_by_name() {
    let mut table = LookupTable::new();
    let name = table.index_string("strawberry");
    let mut enc = MapEncoder::new(&mut table, name);
    enc.attribute("id", EncodedVar::Byte(1));
    let raw = enc.resolve();
    let parser = MapParser { verbose_debug: false, lookup: &table, raw: &raw, parsers: &Vec::new() };
    match MapEntity::<Strawberry>::from_raw(parser) {
        Err(MapElementParsingError::AttributeMissing { name }) => assert_eq!(name, "x"),
        other => panic!("unexpected result {other:?}"),
    }
}

#[test]
fn wrong_kind_of_attribute_is_an_encoded_var_error() {
    let mut table = LookupTable::new();
    let name = table.index_string("spring");
    let mut enc = MapEncoder::new(&mut table, name);
    enc.attribute("playerCanUse", EncodedVar::Byte(1));
    let raw = enc.resolve();
    let parser = MapParser { verbose_debug: false, lookup: &table, raw: &raw, parsers: &Vec::new() };
    assert!(matches!(
        parser.get_optional_attribute::<bool>("playerCanUse"),
        Err(MapElementParsingError::EncodedVarError(_))
    ));
    assert!(matches!(parser.get_optional_attribute::<bool>("absent"), Ok(None)));
    assert!(matches!(parser.get_attribute::<u8>("playerCanUse"), Ok(1)));
}

#[test]
fn children_are_found_by_name() {
    let mut table = LookupTable::new();
    let root_name = table.index_string("entities");
    let mut enc = MapEncoder::new(&mut table, root_name);
    let players = vec![player_at(1), player_at(2)];
    enc.children(&players);
    enc.child(&berry());
    let raw = enc.resolve();
    assert_eq!(raw.children.len(), 3);
    let parser = MapParser { verbose_debug: false, lookup: &table, raw: &raw, parsers: &Vec::new() };
    let all = parser.parse_all_elements::<MapEntity<Player>>().unwrap();
    assert_eq!(all.len(), 2);
    assert!(matches!(all[1].id, Integer::U8(2)));
    let one = parser.parse_element::<MapEntity<Strawberry>>().unwrap();
    assert!(one.entity.winged);
    assert!(matches!(parser.parse_optional_element::<MapEntity<Spring>>(), Ok(None)));
    match parser.parse_element::<MapEntity<Spring>>() {
        Err(MapElementParsingError::NoMatchingElementFound { expected, found }) => {
            assert_eq!(expected, "spring");
            assert_eq!(found, "entities");
        }
        other => panic!("unexpected result {other:?}"),
    }
}

fn player_at(id: u8) -> MapEntity<Player> {
    MapEntity {
        id: Integer::U8(id),
        x: Float::U8(0),
        y: Float::U8(0),
        width: None,
        height: None,
        origin_x: Float::U8(0),
        origin_y: Float::U8(0),
        entity: Player,
    }
}

#[test]
fn encoder_copies_a_raw_element() {
    let mut table = LookupTable::new();
    let raw = encode(&mut table, &berry());
    let mut enc = MapEncoder::new(&mut table, ResolvableString::String("other".to_owned()));
    enc.from_raw(&raw);
    let copy = enc.resolve();
    assert_eq!(copy.name, raw.name);
    assert_eq!(copy.attributes.len(), raw.attributes.len());
}

#[test]
fn default_lookup_table_is_empty() {
    let table = LookupTable::default();
    assert_eq!(table.len(), 0);
    assert_eq!(table.len(), LookupTable::new().len());
}
