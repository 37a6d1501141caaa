use celeste_rs::mods::maps::{IntroTypes, MapMetaAudioState, MapMetaCheckpointData};
use celeste_rs::mods::meta::{ModMeta, Version};
use celeste_rs::mods::{root_mod_index, top_level_dir, PathPart};
use celeste_rs::saves::mods::auroras_additions::AurorasAdditionsSave;
use celeste_rs::saves::mods::collab_utils2::CollabsUtils2Save;
use celeste_rs::saves::mods::files::{
    check_yaml_file, name_stops_short, DynYamlDoc, ModFile, ModFileError, ModFileNameError, ParsedModSave,
    ParsedModSetting,
};
use celeste_rs::saves::session::CoreModes;
use celeste_rs::saves::util::FileTime;
use celeste_rs::utils::text::{split_all, split_once, str_contains, trim};
use celeste_rs::utils::yaml::{FromYaml, Yaml, YamlParseError};

fn s(x: &str) -> Yaml {
    Yaml::String(x.to_owned())
}

fn map(entries: Vec<(&str, Yaml)>) -> Yaml {
    Yaml::Mapping(entries.into_iter().map(|(k, v)| (s(k), v)).collect())
}

fn get<'a>(y: &'a Yaml, key: &str) -> &'a Yaml {
    y.as_mapping_get(key).expect("key present")
}

fn custom(e: YamlParseError) -> String {
    match e {
        YamlParseError::Custom(m) => m,
        other => panic!("not a custom error: {other:?}"),
    }
}

fn cu2_doc() -> Yaml {
    map(vec![
        ("SessionsPerLevel", map(vec![("lvl/a", s("<Session/>"))])),
        ("ModSessionsPerLevel", map(vec![("lvl/a", Yaml::Integer(3))])),
        ("ModSessionsPerLevelBinary", map(vec![("lvl/a", map(vec![("ModX", s("AAAA"))]))])),
        ("VisitedLobbyPositions", map(vec![("lobby", s("b64"))])),
        ("OpenedMiniHeartDoors", Yaml::Sequence(vec![s("door1"), s("door2"), s("door1")])),
        ("CombinedRainbowBerries", Yaml::Sequence(vec![])),
        ("SpeedBerryPBs", map(vec![("lvl/a", Yaml::Integer(123456))])),
        ("SpeedberryOptionMessageShown", Yaml::Boolean(true)),
        ("CompletedWarpPedestalSIDs", Yaml::Sequence(vec![s("p"), s("p")])),
        ("RevealMap", Yaml::Boolean(false)),
        ("PauseVisitingPoints", Yaml::Boolean(true)),
        ("ShowVisitedPoints", Yaml::Boolean(false)),
    ])
}

#[test]
fn scalars_read_by_kind() {
    assert_eq!(String::parse_from_yaml(&s("hi")).unwrap(), "hi");
    assert!(bool::parse_from_yaml(&Yaml::Boolean(true)).unwrap());
    assert_eq!(i64::parse_from_yaml(&Yaml::Integer(-5)).unwrap(), -5);
    assert_eq!(u8::parse_from_yaml(&Yaml::Integer(200)).unwrap(), 200);
    match u8::parse_from_yaml(&Yaml::Integer(300)) {
        Err(YamlParseError::Custom(m)) => assert_eq!(m, "Could not fit the number parsed into an u8"),
        other => panic!("unexpected {other:?}"),
    }
    match i32::parse_from_yaml(&s("x")) {
        Err(YamlParseError::TypeMismatch(expected, found)) => {
            assert_eq!(expected, "i64");
            assert_eq!(found, "String");
        }
        other => panic!("unexpected {other:?}"),
    }
    match String::parse_from_yaml(&Yaml::BadValue) {
        Err(YamlParseError::TypeMismatch(_, found)) => assert_eq!(found, "BADVALUE"),
        other => panic!("unexpected {other:?}"),
    }
}

#[test]
fn sequences_read_item_by_item() {
    let y = Yaml::Sequence(vec![Yaml::Integer(1), Yaml::Integer(2)]);
    assert_eq!(Vec::<u16>::parse_from_yaml(&y).unwrap(), vec![1, 2]);
    let bad = Yaml::Sequence(vec![Yaml::Integer(1), s("two")]);
    assert!(matches!(Vec::<u16>::parse_from_yaml(&bad), Err(YamlParseError::TypeMismatch("i64", "String"))));
    assert!(matches!(Vec::<u16>::parse_from_yaml(&Yaml::Null), Err(YamlParseError::TypeMismatch("Vec", "null"))));
    let written = vec![7u32, 8].to_yaml().unwrap();
    assert_eq!(Vec::<u32>::parse_from_yaml(&written).unwrap(), vec![7, 8]);
    match u64::MAX.to_yaml() {
        Err(_) => {}
        Ok(_) => panic!("u64::MAX does not fit"),
    }
}

#[test]
fn collab_utils2_save_reads_each_field() {
    let save = CollabsUtils2Save::parse_from_yaml(&cu2_doc()).unwrap();
    assert_eq!(save.sessions_per_level, vec![("lvl/a".to_owned(), "<Session/>".to_owned())]);
    assert_eq!(save.mod_sessions_per_level.len(), 1);
    assert_eq!(save.mod_sessions_per_level_binary[0].1, vec![("ModX".to_owned(), "AAAA".to_owned())]);
    // a set keeps each door once
    assert_eq!(save.opened_mini_heart_doors, vec!["door1".to_owned(), "door2".to_owned()]);
    // a list keeps repeats
    assert_eq!(save.completed_warp_pedestal_sids.len(), 2);
    assert_eq!(save.speed_berry_pbs, vec![("lvl/a".to_owned(), FileTime(123456))]);
    assert!(save.speed_berry_option_message_shown);
    assert!(!save.reveal_map);
    assert!(save.pause_visiting_points);
    assert!(!save.show_visited_points);
}

#[test]
fn collab_utils2_save_names_the_missing_field() {
    let doc = map(vec![("SessionsPerLevel", map(vec![]))]);
    let e = CollabsUtils2Save::parse_from_yaml(&doc).err().unwrap();
    assert_eq!(custom(e), "CollabUtils2 save doesn't have ModSessionsPerLevel entry");
    let doc = map(vec![("SessionsPerLevel", map(vec![("lvl", Yaml::Integer(1))]))]);
    let e = CollabsUtils2Save::parse_from_yaml(&doc).err().unwrap();
    assert_eq!(custom(e), "CollabUtils2 SessionsPerLevel entry doesn't have a string value");
    let e = CollabsUtils2Save::parse_from_yaml(&Yaml::Null).err().unwrap();
    assert_eq!(custom(e), "CollabUtils2 save doesn't contain a SessionsPerLevel entry");
}

#[test]
fn collab_utils2_save_reads_back_what_it_writes() {
    let save = CollabsUtils2Save::parse_from_yaml(&cu2_doc()).unwrap();
    let written = save.to_yaml().unwrap();
    assert_eq!(get(&written, "SpeedBerryPBs").as_mapping().unwrap().len(), 1);
    let again = CollabsUtils2Save::parse_from_yaml(&written).unwrap();
    assert_eq!(again.sessions_per_level, save.sessions_per_level);
    assert_eq!(again.opened_mini_heart_doors, save.opened_mini_heart_doors);
    assert_eq!(again.completed_warp_pedestal_sids, save.completed_warp_pedestal_sids);
    assert_eq!(again.speed_berry_pbs, save.speed_berry_pbs);
    assert_eq!(again.mod_sessions_per_level_binary, save.mod_sessions_per_level_binary);
}

#[test]
fn auroras_additions_keys_are_level_and_mode() {
    let doc = map(vec![
        ("SessionsPerLevel", map(vec![("Celeste/1-ForsakenCity,  Normal ", s("<Session/>"))])),
        ("ModSessionsPerLevel", map(vec![])),
        ("ModSessionsPerLevelBinary", map(vec![("a, BSide", map(vec![]))])),
        ("MusicVolumeMemory", Yaml::Integer(300)),
    ]);
    let save = AurorasAdditionsSave::parse_from_yaml(&doc).unwrap();
    assert_eq!(save.sessions_per_level[0].0, ("Celeste/1-ForsakenCity".to_owned(), "Normal".to_owned()));
    assert_eq!(save.mod_sessions_per_level_binary[0].0, ("a".to_owned(), "BSide".to_owned()));
    // the volume keeps the low eight bits
    assert_eq!(save.music_volume_memory, 44);
    let written = save.to_yaml().unwrap();
    let key = &get(&written, "SessionsPerLevel").as_mapping().unwrap()[0].0;
    assert_eq!(key.as_str().unwrap(), "Celeste/1-ForsakenCity, Normal");
    let again = AurorasAdditionsSave::parse_from_yaml(&written).unwrap();
    assert_eq!(again.sessions_per_level, save.sessions_per_level);
    assert_eq!(again.music_volume_memory, 44);
}

#[test]
fn auroras_additions_key_without_comma_is_an_error() {
    let doc = map(vec![("SessionsPerLevel", map(vec![("no comma", s("x"))]))]);
    let e = AurorasAdditionsSave::parse_from_yaml(&doc).err().unwrap();
    assert_eq!(custom(e), "Aurora's Additions SessionsPerLevel entry doesn't have a properly formatted key");
}

#[test]
fn mod_file_names_give_slot_and_mod() {
    let (i, m) = check_yaml_file("modsave", false, "1-modsave-CollabUtils2.celeste").unwrap();
    assert_eq!((i, m.as_str()), (1, "CollabUtils2"));
    let (i, m) = check_yaml_file("modsettings", true, "modsettings-SpeedrunTool.celeste").unwrap();
    assert_eq!((i, m.as_str()), (255, "SpeedrunTool"));
    assert!(matches!(check_yaml_file("modsave", false, "1-modsave-X.txt"), Err(ModFileNameError::NotCelesteFile)));
    assert!(matches!(check_yaml_file("modsave", false, "1-modsession-X.celeste"), Err(ModFileNameError::NotOfType)));
    assert!(matches!(check_yaml_file("modsave", false, "x-modsave-X.celeste"), Err(ModFileNameError::InvalidIndex(_))));
    assert!(matches!(check_yaml_file("modsave", false, "1-modsave.celeste"), Err(ModFileNameError::InvalidName)));
}

#[test]
fn mod_saves_go_to_their_readers() {
    let (i, parsed) = ParsedModSave::from_yaml_and_file_name("2-modsave-CollabUtils2.celeste", &cu2_doc()).unwrap();
    assert_eq!(i, 2);
    assert!(matches!(parsed, ParsedModSave::CollabUtils2(_)));
    assert_eq!(parsed.get_file_name(0), "0-modsave-CollabUtils2.celeste");
    let (_, other) = ParsedModSave::from_yaml_and_file_name("0-modsave-Other.celeste", &Yaml::Integer(1)).unwrap();
    assert_eq!(other.get_file_name(3), "3-modsave-Other.celeste");
    assert!(matches!(
        ParsedModSave::from_yaml_and_file_name("0-modsave-AurorasAdditions.celeste", &Yaml::Null),
        Err(ModFileError::Parse(_))
    ));
    let (_, setting) = ParsedModSetting::from_yaml_and_file_name("modsettings-Foo.celeste", &Yaml::Null).unwrap();
    assert_eq!(setting.get_file_name(), "modsettings-Foo.celeste");
}

#[test]
fn everest_yaml_metadata() {
    let doc = map(vec![
        ("Name", s("MyMod")),
        ("Version", s("1.2.3")),
        ("DLL", s("ignored.dll")),
        ("dll", s("Code/MyMod.dll")),
        ("Dependencies", Yaml::Sequence(vec![map(vec![("Name", s("Everest")), ("Version", Yaml::Real("1.5".to_owned()))])])),
    ]);
    let meta = ModMeta::parse_from_yaml(&doc).unwrap();
    assert_eq!(meta.name, "MyMod");
    assert_eq!(meta.version, Version { major: 1, minor: Some(2), patch: Some(3) });
    assert_eq!(meta.dll.as_deref(), Some("Code/MyMod.dll"));
    assert_eq!(meta.dependencies.len(), 1);
    assert_eq!(meta.dependencies[0].1, Some(Version { major: 1, minor: Some(5), patch: Some(0) }));
    assert!(meta.optional_dependencies.is_none());
    let written = meta.to_yaml();
    assert_eq!(get(&written, "Version").as_str().unwrap(), "1.2.3");
    assert_eq!(get(&written, "DLL").as_str().unwrap(), "Code/MyMod.dll");
    assert_eq!(get(get(&written, "Dependencies"), "Name").as_str().unwrap(), "Everest");
}

#[test]
fn everest_yaml_errors() {
    let e = ModMeta::parse_from_yaml(&map(vec![("Name", s("NoVersion"))])).err().unwrap();
    assert_eq!(custom(e), "Mod 'NoVersion' is missing version in everest.yaml");
    let e = ModMeta::parse_from_yaml(&map(vec![])).err().unwrap();
    assert_eq!(custom(e), "everest.yaml mod definition found without a name");
    let e = ModMeta::parse_from_yaml(&map(vec![("Name", s("A")), ("Version", Yaml::Boolean(true))])).err().unwrap();
    assert_eq!(custom(e), "everest.yaml Version isn't a string or a float");
    let e = ModMeta::parse_from_yaml(&map(vec![("Name", s("A")), ("Version", s("*.1"))])).err().unwrap();
    assert_eq!(custom(e), "Version parse error: Wildcard not allowed for major version");
    let e = ModMeta::parse_from_yaml(&map(vec![("Name", s("A")), ("Version", s("1.x"))])).err().unwrap();
    assert!(custom(e).starts_with("Version parse error: "));
    let doc = map(vec![("Name", s("A")), ("Version", s("1.0")), ("Dependencies", s("no"))]);
    let e = ModMeta::parse_from_yaml(&doc).err().unwrap();
    assert_eq!(custom(e), "Dependencies isn't a vec in everest.yaml");
}

#[test]
fn map_meta_types_read_by_field_name() {
    let audio = map(vec![("Music", s("event:/music")), ("Ambience", s("event:/amb"))]);
    let a = MapMetaAudioState::parse_from_yaml(&audio).unwrap();
    assert_eq!(a.music, "event:/music");
    assert!(matches!(
        MapMetaAudioState::parse_from_yaml(&map(vec![("Music", s("m"))])),
        Err(YamlParseError::TypeMismatch("String", "BADVALUE"))
    ));
    let cp = map(vec![
        ("Level", s("a-01")),
        ("Name", s("cp")),
        ("Inventory", s("Default")),
        ("AudioState", audio),
        ("Flags", Yaml::Sequence(vec![s("f")])),
        ("CoreMode", s("Hot")),
        ("Dreaming", s("not a bool")),
    ]);
    let c = MapMetaCheckpointData::parse_from_yaml(&cp).unwrap();
    assert_eq!(c.core_mode, Some(CoreModes::Hot));
    // an optional field that does not read is left out
    assert_eq!(c.dreaming, None);
    let written = c.to_yaml().unwrap();
    assert!(matches!(get(&written, "Dreaming"), Yaml::Null));
    let back = MapMetaCheckpointData::parse_from_yaml(&written).unwrap();
    assert_eq!(back.flags, vec!["f".to_owned()]);
    assert_eq!(IntroTypes::parse_from_yaml(&s("None")).unwrap(), IntroTypes::NoIntro);
    assert!(matches!(IntroTypes::parse_from_yaml(&s("Walk")), Err(YamlParseError::UnknownVariant("IntroTypes", _))));
    assert_eq!(IntroTypes::WakeUp.to_yaml().unwrap().as_str().unwrap(), "WakeUp");
}

#[test]
fn root_mod_depends_on_the_others() {
    let meta = |name: &str, deps: &[&str]| ModMeta {
        name: name.to_owned(),
        version: Version { major: 1, minor: Some(0), patch: Some(0) },
        dll: None,
        dependencies: deps.iter().map(|d| (d.to_string(), None)).collect(),
        optional_dependencies: None,
    };
    let metas = vec![meta("Helper", &[]), meta("Main", &["Helper"])];
    assert_eq!(root_mod_index(&metas), Some(1));
    assert_eq!(root_mod_index(&vec![meta("Solo", &[])]), Some(0));
    assert_eq!(root_mod_index(&vec![meta("A", &[]), meta("B", &[])]), None);
}

#[test]
fn top_level_directory_of_paths() {
    let normal = |n: &str, e: bool| PathPart::Normal { name: n.to_owned(), has_extension: e };
    assert_eq!(top_level_dir(&vec![normal("Maps", false), normal("x.bin", true)]).unwrap(), "Maps");
    assert_eq!(top_level_dir(&vec![normal("everest.yaml", true)]).unwrap(), "/");
    assert_eq!(top_level_dir(&vec![PathPart::Special, normal("a.txt", true)]).unwrap(), "/");
    assert_eq!(
        top_level_dir(&vec![PathPart::Special, PathPart::Special, normal("a.txt", true)]).unwrap(),
        "a.txt"
    );
    assert!(top_level_dir(&vec![PathPart::Special]).is_none());
}

#[test]
fn text_helpers() {
    assert_eq!(trim("  a b \t\n"), "a b");
    assert_eq!(trim("\u{3000}x\u{2028}"), "x");
    assert_eq!(split_once("a,b,c", ','), Some(("a".to_owned(), "b,c".to_owned())));
    assert_eq!(split_once("abc", ','), None);
    assert_eq!(split_all("a-b--c", '-'), vec!["a", "b", "", "c"]);
    assert!(str_contains("1-modsave-X.celeste", ".celeste"));
    assert!(!str_contains("abc", "abcd"));
    assert!(str_contains("abc", ""));
}

#[test]
fn mod_files_know_their_mod_names() {
    assert_eq!(AurorasAdditionsSave::mod_name(), "AurorasAdditions");
    assert_eq!(CollabsUtils2Save::mod_name(), "CollabUtils2");
    assert_eq!(DynYamlDoc::mod_name(), "");
}

#[test]
fn a_slot_number_without_a_kind_stops_the_check_short() {
    assert!(name_stops_short("modsave", false, "1.modsave-x-.celeste"));
    assert!(!name_stops_short("modsave", true, "1.modsave-x-.celeste"));
    assert!(!name_stops_short("modsave", false, "1-modsave-CollabUtils2.celeste"));
}

#[test]
fn a_provider_error_gives_back_the_source_error() {
    let e = celeste_rs::mods::FileProviderError("no such file".to_owned());
    assert_eq!(e.into_inner(), "no such file");
}
