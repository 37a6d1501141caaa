use celeste_rs::maps::elements::dynamic::{AnyEntity, AnyTrigger, DynEntity, DynMapElement};
use celeste_rs::maps::elements::entities::Player;
use celeste_rs::maps::elements::level::{Background, Entities, Level, Levels, Solids, Triggers};
use celeste_rs::maps::elements::style::{Backgrounds, Foregrounds, Styles};
use celeste_rs::maps::elements::triggers::LookoutBlocker;
use celeste_rs::maps::elements::{Filler, MapEntity, MapRoot, MapTrigger, Rect};
use celeste_rs::maps::encoder::MapEncoder;
use celeste_rs::maps::lookup::{LookupTable, ResolvableString};
use celeste_rs::maps::parser::{MapElement, MapElementParsingError, MapParser};
use celeste_rs::maps::{MapManager, RawMap, RawMapElement};
use celeste_rs::utils::num::{Float, Integer};

fn player(id: u8) -> DynEntity {
    DynEntity::Entity(AnyEntity::Player(MapEntity {
        id: Integer::U8(id),
        x: Float::I16(8),
        y: Float::I16(16),
        width: None,
        height: None,
        origin_x: Float::U8(0),
        origin_y: Float::U8(0),
        entity: Player,
    }))
}

fn blocker() -> DynMapElement {
    DynMapElement::Trigger(AnyTrigger::LookoutBlocker(MapTrigger {
        id: Integer::U8(7),
        x: Float::U8(0),
        y: Float::U8(0),
        width: Some(Integer::U8(16)),
        height: Some(Integer::U8(8)),
        origin_x: None,
        origin_y: None,
        entity: LookoutBlocker,
    }))
}

fn room() -> Level {
    Level {
        name: ResolvableString::String("lvl_a-00".to_owned()),
        width: Integer::I16(320),
        height: Integer::I16(184),
        wind_pattern: None,
        dark: Some(false),
        camera_offset_x: None,
        camera_offset_y: None,
        alt_music: None,
        music: Some(ResolvableString::String("music_city".to_owned())),
        music_layer_1: None,
        music_layer_2: None,
        music_layer_3: None,
        music_layer_4: None,
        music_progress: None,
        ambience: None,
        ambience_progress: None,
        underwater: None,
        space: None,
        disable_down_transition: None,
        whisper: None,
        delay_alt_music_fade: None,
        enforce_dash_number: None,
        x: Float::I16(0),
        y: Float::I16(0),
        c: Integer::U8(0),
        triggers: Some(Triggers { offset_x: Float::U8(0), offset_y: Float::U8(0), triggers: vec![blocker()] }),
        fg_tiles: None,
        fg_decals: None,
        solids: Solids { offset_x: None, offset_y: None, inner_text: Some("0000\n0110".to_owned()) },
        entities: Some(Entities { offset_x: None, offset_y: None, entities: vec![player(1), player(2)] }),
        bg_tiles: None,
        bg_decals: None,
        bg: Background { offset_x: None, offset_y: None, inner_text: None },
        objtiles: None,
    }
}

fn map_root() -> MapRoot {
    MapRoot {
        filler: Filler { filler: vec![Rect { x: Integer::U8(1), y: Integer::U8(2), w: Integer::U8(3), h: Integer::U8(4) }] },
        levels: Levels { levels: vec![room()] },
        style: Styles {
            background: Backgrounds { parallax_elements: vec![], snow_bg: true },
            foreground: Foregrounds { parallax_elements: vec![], snow_fg: false },
        },
    }
}

fn map_bytes(root: &MapRoot) -> Vec<u8> {
    let mut table = LookupTable::new();
    let name = table.index_string(MapRoot::name());
    let mut enc = MapEncoder::new(&mut table, name);
    root.to_raw(&mut enc);
    let element = enc.resolve();
    let mut raw = RawMap { name: "Test".to_owned(), lookup_table: table, root_element: element };
    raw.unresolve_strings();
    raw.to_bytes().unwrap()
}

fn text(s: &ResolvableString) -> &str {
    s.as_str().unwrap()
}

#[test]
fn map_encodes_then_parses_back_with_default_parsers() {
    let bytes = map_bytes(&map_root());
    let mut mm = MapManager::new(&bytes).unwrap();
    mm.default_parsers();
    let root = mm.parse_map().unwrap();
    assert_eq!(mm.map().name, "Test");
    assert_eq!(root.filler.filler.len(), 1);
    assert!(matches!(root.filler.filler[0].w, Integer::U8(3)));
    assert!(root.style.background.snow_bg);
    assert!(!root.style.foreground.snow_fg);
    assert_eq!(root.levels.levels.len(), 1);
    let level = &root.levels.levels[0];
    assert_eq!(text(&level.name), "lvl_a-00");
    assert_eq!(level.music.as_ref().map(text), Some("music_city"));
    assert_eq!(level.dark, Some(false));
    assert!(level.wind_pattern.is_none());
    assert_eq!(level.solids.inner_text.as_deref(), Some("0000\n0110"));
    let triggers = level.triggers.as_ref().unwrap();
    assert_eq!(triggers.triggers.len(), 1);
    assert!(matches!(&triggers.triggers[0], DynMapElement::Trigger(AnyTrigger::LookoutBlocker(t)) if matches!(t.width, Some(Integer::U8(16)))));
    let entities = level.entities.as_ref().unwrap();
    assert_eq!(entities.entities.len(), 2);
    assert!(matches!(&entities.entities[1], DynEntity::Entity(AnyEntity::Player(p)) if matches!(p.id, Integer::U8(2))));
}

#[test]
fn without_parsers_children_stay_raw() {
    let bytes = map_bytes(&map_root());
    let mm = MapManager::new(&bytes).unwrap();
    let root = mm.parse_map().unwrap();
    let level = &root.levels.levels[0];
    let triggers = level.triggers.as_ref().unwrap();
    match &triggers.triggers[0] {
        DynMapElement::Raw(raw) => assert_eq!(raw.name.as_str(), Some("lookoutBlocker")),
        _ => panic!("the trigger was parsed without a parser"),
    }
    let entities = level.entities.as_ref().unwrap();
    assert!(matches!(&entities.entities[0], DynEntity::Raw(r) if r.name.as_str() == Some("player")));
}

#[test]
fn only_registered_kinds_are_parsed() {
    let bytes = map_bytes(&map_root());
    let mut mm = MapManager::new(&bytes).unwrap();
    mm.add_entity_parser::<Player>();
    let root = mm.parse_map().unwrap();
    let level = &root.levels.levels[0];
    assert!(matches!(&level.triggers.as_ref().unwrap().triggers[0], DynMapElement::Raw(_)));
    assert!(matches!(&level.entities.as_ref().unwrap().entities[0], DynEntity::Entity(AnyEntity::Player(_))));
}

#[test]
fn encode_map_replaces_the_stored_map() {
    let bytes = map_bytes(&map_root());
    let mut mm = MapManager::new(&bytes).unwrap();
    let mut other = map_root();
    other.levels.levels.clear();
    mm.encode_map("Other", &other);
    assert_eq!(mm.map().name, "Other");
    let written = mm.map_bytes().unwrap();
    let back = RawMap::from_bytes(&written).unwrap();
    assert_eq!(back.name, "Other");
}

fn element(name: &str, children: Vec<RawMapElement>) -> RawMapElement {
    RawMapElement { name: ResolvableString::String(name.to_owned()), attributes: vec![], children }
}

#[test]
fn parse_any_element_collects_every_error() {
    // two registered triggers that lack their attributes, and one unknown element
    let raw = element(
        "triggers",
        vec![element("lookoutBlocker", vec![]), element("somethingElse", vec![]), element("lookoutBlocker", vec![])],
    );
    let table = LookupTable::new();
    let parsers = vec!["lookoutBlocker".to_owned(), "somethingElse".to_owned()];
    let parser = MapParser { verbose_debug: false, lookup: &table, raw: &raw, parsers: &parsers };
    match parser.parse_any_element() {
        Err(MapElementParsingError::MultiError { errors }) => {
            assert_eq!(errors.len(), 2);
            assert_eq!(errors[0].0, "lookoutBlocker");
            assert!(matches!(errors[0].1, MapElementParsingError::AttributeMissing { name: "id" }));
        },
        _ => panic!("expected the errors of both triggers"),
    }
}

#[test]
fn parse_any_element_keeps_unregistered_children_raw() {
    let raw = element("triggers", vec![element("lookoutBlocker", vec![]), element("node", vec![])]);
    let table = LookupTable::new();
    let parsers: Vec<String> = vec![];
    let parser = MapParser { verbose_debug: false, lookup: &table, raw: &raw, parsers: &parsers };
    let parsed = parser.parse_any_element().unwrap();
    assert_eq!(parsed.len(), 2);
    assert!(matches!(&parsed[1], DynMapElement::Raw(r) if r.name.as_str() == Some("node")));
}

#[test]
fn a_strawberry_entity_is_parsed_by_its_name() {
    let raw = element("entities", vec![element("strawberry", vec![])]);
    let table = LookupTable::new();
    let parsers = vec!["strawberry".to_owned()];
    let parser = MapParser { verbose_debug: false, lookup: &table, raw: &raw, parsers: &parsers };
    // the strawberry lacks its attributes, so parsing it fails
    assert!(parser.parse_any_entity().is_err());
}
