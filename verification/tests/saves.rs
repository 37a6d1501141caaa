use celeste_rs::saves::edit::{
    count_after_list_change, move_poem_line, remove_counted_entity, set_vanilla_flag, total_after_change,
};
use celeste_rs::saves::everest::{LevelSetStats, LevelSets};
use celeste_rs::saves::session::Strawberries;
use celeste_rs::saves::util::{EntityID, FileTime};
use celeste_rs::saves::vanilla::{
    AreaDef,
    AreaMode,
    AreaModeStats,
    AreaModeType,
    AreaRef,
    AreaStats,
    Areas,
    Checkpoints,
    Modes,
};
use celeste_rs::saves::{
    AreaSource,
    Assists,
    DashMode,
    Flags,
    ModSaveData,
    Poem,
    SaveData,
    VanillaFlags,
    VanillaFlagsWrapper,
    XSD_URL,
    XSI_URL,
};

fn blank_save() -> SaveData {
    SaveData {
        xsi_url: XSI_URL.to_owned(),
        xsd_url: XSD_URL.to_owned(),
        version: "1.4.0.0".to_owned(),
        name: "Madeline".to_owned(),
        time: FileTime(0),
        last_save: chrono::NaiveDateTime::default(),
        cheat_mode: false,
        assist_mode: false,
        variant_mode: false,
        assists: Assists::default(),
        theo_sister_name: "Alex".to_owned(),
        unlocked_areas: 0,
        total_deaths: 0,
        total_strawberries: 0,
        total_golden_strawberries: 0,
        total_jumps: 0,
        total_wall_jumps: 0,
        total_dashes: 0,
        flags: Flags::default(),
        poem: Poem::default(),
        summit_gems: None,
        revealed_farewell: false,
        last_area: AreaRef::default(),
        current_session: None,
        areas: Areas::default(),
        level_sets: LevelSets::default(),
        level_set_recycle_bin: LevelSets::default(),
        has_modded_save_data: false,
        last_area_safe: None,
        current_session_safe: None,
    }
}

fn berry(key: &str) -> EntityID {
    EntityID { key: key.to_owned() }
}

fn modded_area(sid: &str, berries: &[&str], checkpoints: &[&str]) -> AreaStats {
    let mut modes = Modes::default();
    modes.modes[0].strawberries = Strawberries { strawberries: berries.iter().map(|b| berry(b)).collect() };
    modes.modes[0].checkpoints = Checkpoints { checkpoints: checkpoints.iter().map(|c| c.to_string()).collect() };
    AreaStats { def: AreaDef { id: 0, cassette: false, sid: Some(sid.to_owned()) }, modes }
}

fn level_set(name: &str, areas: Vec<AreaStats>, unlocked: i16) -> LevelSetStats {
    LevelSetStats {
        name: name.to_owned(),
        areas: Areas { areas },
        poem: Poem::default(),
        unlocked_areas: unlocked,
        total_strawberries: 0,
    }
}

#[test]
fn file_time_counts_hundreds_of_nanoseconds() {
    let t = FileTime::from_parts(1, 2, 3, 4);
    assert_eq!(t.0, 37_230_040_000);
    assert_eq!(t.as_millis(), 3_723_004);
    let mut u = FileTime::from_millis(5);
    u.add_millis(1);
    assert_eq!(u, FileTime(60_000));
    u.add_parts(0, 0, 1, 0);
    assert_eq!(u.as_millis(), 1006);
    assert_eq!(FileTime(7).add(FileTime(8)), FileTime(15));
    assert_eq!(FileTime(8).sub(FileTime(7)), FileTime(1));
}

#[test]
fn file_time_converts_durations_to_the_millisecond() {
    let t = FileTime(12_345_678);
    assert_eq!(t.as_duration(), std::time::Duration::from_millis(1234));
    let u = FileTime::from_duration(std::time::Duration::from_micros(2_500));
    assert_eq!(u, FileTime(20_000));
    let mut v = FileTime(1);
    v.add_duration(std::time::Duration::from_millis(3));
    assert_eq!(v, FileTime(30_001));
}

#[test]
fn vanilla_sids_have_their_ids() {
    let def = AreaDef::for_sid("Celeste/2-OldSite", false).unwrap();
    assert_eq!(def.id, 2);
    assert_eq!(def.sid.as_deref(), Some("Celeste/2-OldSite"));
    assert!(!def.cassette);
    let vanilla = AreaDef::for_sid("Celeste/LostLevels", true).unwrap();
    assert_eq!(vanilla.id, 10);
    assert_eq!(vanilla.sid, None);
    assert!(AreaDef::for_sid("SomeMod/1-Map", false).is_none());
    assert_eq!(AreaDef { id: 3, cassette: false, sid: None }.sid(), "Celeste/3-CelestialResort");
    let r = AreaRef::for_sid("Celeste/9-Core", AreaModeType::BSide, true).unwrap();
    assert_eq!(r.id, 9);
    assert_eq!(r.mode, AreaModeType::BSide);
    assert_eq!(r.sid(), "Celeste/9-Core");
}

#[test]
fn default_areas_are_the_vanilla_chapters() {
    let areas = Areas::default();
    assert_eq!(areas.areas.len(), 11);
    assert_eq!(areas.areas[7].def.id, 7);
    assert_eq!(areas.areas[7].modes.modes.len(), 3);
    assert_eq!(areas.areas[7].modes.modes[2].stats, AreaModeStats::default());
    let stats = AreaStats::for_sid("Celeste/0-Intro", true).unwrap();
    assert_eq!(stats.def.id, 0);
    assert_eq!(Assists::default().game_speed, 10);
    assert_eq!(DashMode::default(), DashMode::Normal);
    assert_eq!(DashMode::Infinite.to_string(), "Infinite");
}

#[test]
fn areas_are_found_by_sid_in_the_right_list() {
    let mut save = blank_save();
    save.level_sets
        .level_set_stats
        .push(level_set("A", vec![modded_area("A/1", &["b1"], &[])], 1));
    save.level_set_recycle_bin
        .level_set_stats
        .push(level_set("B", vec![modded_area("B/1", &[], &[])], 1));
    save.areas.areas[1].def.sid = Some("Celeste/1-ForsakenCity".to_owned());
    assert_eq!(save.find_area_by_sid("Celeste/1-ForsakenCity").unwrap().def.id, 0 + 1);
    assert!(save.find_area_by_sid("Celeste/5-MirrorTemple").is_none());
    assert_eq!(save.find_area_by_sid("B/1").unwrap().def.sid.as_deref(), Some("B/1"));
    assert!(save.find_area_by_sid_and_source("B/1", AreaSource::LevelSets).is_none());
    assert!(save.find_area_by_sid_and_source("B/1", AreaSource::LevelSetRecycleBin).is_some());
    let all = save.all_areas();
    assert_eq!(all.len(), 13);
    assert_eq!(all[11].1, AreaSource::LevelSets);
    assert_eq!(all[12].1, AreaSource::LevelSetRecycleBin);
    let sets = save.all_level_sets();
    assert_eq!(sets.len(), 2);
    assert!(sets[1].1);
}

#[test]
fn mod_save_data_finds_areas_of_every_sid() {
    let mut data = ModSaveData::default();
    data.level_sets
        .level_set_stats
        .push(level_set("Celeste", vec![modded_area("Celeste/X", &[], &[])], 1));
    assert_eq!(data.find_area_by_sid("Celeste/X").unwrap().def.sid.as_deref(), Some("Celeste/X"));
    assert!(data.find_area_by_sid("Celeste/Y").is_none());
    assert!(data.find_area_by_sid_mut("Celeste/X").is_some());
    assert!(data.find_area_by_sid_and_source("Celeste/X", AreaSource::Vanilla).is_none());
    assert!(data.find_area_by_sid_and_source("Celeste/X", AreaSource::LevelSets).is_some());
    assert_eq!(data.all_areas().len(), 1);
}

#[test]
fn loading_mod_save_data_adds_only_new_level_sets() {
    let mut save = blank_save();
    save.level_sets.level_set_stats.push(level_set("A", Vec::new(), 1));
    let mut data = ModSaveData::default();
    data.level_sets.level_set_stats.push(level_set("A", Vec::new(), 5));
    data.level_sets.level_set_stats.push(level_set("B", Vec::new(), 2));
    data.level_set_recycle_bin.level_set_stats.push(level_set("C", Vec::new(), 3));
    data.last_area_safe = AreaRef::for_sid("Celeste/1-ForsakenCity", AreaModeType::Normal, false);
    save.load_in_mod_save_data(&data);
    assert_eq!(save.level_sets.level_set_stats.len(), 2);
    assert_eq!(save.level_sets.level_set_stats[0].unlocked_areas, 1);
    assert_eq!(save.level_sets.level_set_stats[1].name, "B");
    assert_eq!(save.level_set_recycle_bin.level_set_stats[0].name, "C");
    assert_eq!(save.last_area_safe.unwrap().id, 1);
}

#[test]
fn merging_saves_combines_progress() {
    let mut a = blank_save();
    a.time = FileTime(100);
    a.total_deaths = 3;
    a.unlocked_areas = 2;
    a.assists.invincible = false;
    a.total_golden_strawberries = 1;
    a.level_sets
        .level_set_stats
        .push(level_set("S", vec![modded_area("S/1", &["x", "y"], &["b", "c"])], 1));
    let mut b = blank_save();
    b.time = FileTime(50);
    b.total_deaths = 4;
    b.unlocked_areas = 5;
    b.assists.invincible = true;
    b.total_golden_strawberries = 4;
    b.level_sets
        .level_set_stats
        .push(level_set("S", vec![modded_area("S/1", &["y", "z"], &["a", "b", "c"])], 3));
    b.level_sets.level_set_stats[0].areas.areas[0].modes.modes[0].stats.deaths = 7;
    b.level_sets.level_set_stats[0].areas.areas[0].modes.modes[0].stats.completed = true;
    b.level_sets.level_set_stats[0].areas.areas[0].modes.modes[0].stats.best_dashes = 2;
    a.level_sets.level_set_stats[0].areas.areas[0].modes.modes[0].stats.best_dashes = 9;
    a.merge_data(&b);
    assert_eq!(a.time, FileTime(150));
    assert_eq!(a.total_deaths, 7);
    assert_eq!(a.unlocked_areas, 5);
    assert!(a.assists.invincible);
    assert_eq!(a.total_golden_strawberries, 1);
    let set = &a.level_sets.level_set_stats[0];
    assert_eq!(set.unlocked_areas, 3);
    assert_eq!(set.total_strawberries, 3);
    let mode = &set.areas.areas[0].modes.modes[0];
    assert_eq!(mode.checkpoints.checkpoints, vec!["a".to_owned(), "b".to_owned(), "c".to_owned()]);
    let mut keys: Vec<String> = mode.strawberries.strawberries.iter().map(|e| e.key.clone()).collect();
    keys.sort();
    assert_eq!(keys, vec!["x".to_owned(), "y".to_owned(), "z".to_owned()]);
    assert_eq!(mode.stats.total_strawberries, 3);
    assert_eq!(mode.stats.deaths, 7);
    assert!(mode.stats.completed);
    assert_eq!(mode.stats.best_dashes, 2);
    assert_eq!(a.total_strawberries, 0);
}

#[test]
fn file_time_prints_hours_minutes_seconds_millis() {
    assert_eq!(FileTime::from_parts(1, 2, 3, 4).to_string(), "01:02:03:004");
    assert_eq!(FileTime(0).to_string(), "00:00:00:000");
    assert_eq!(FileTime::from_parts(123, 59, 59, 999).to_string(), "123:59:59:999");
}

#[test]
fn area_found_for_editing_is_changed_in_place() {
    let mut save = blank_save();
    save.level_sets
        .level_set_stats
        .push(level_set("A", vec![modded_area("A/1", &[], &[]), modded_area("A/1", &[], &[])], 1));
    save.level_set_recycle_bin
        .level_set_stats
        .push(level_set("B", vec![modded_area("B/1", &[], &[])], 1));
    {
        let area = save.find_area_by_sid_mut("A/1").unwrap();
        area.def.cassette = true;
    }
    // only the first area with the sid is handed out
    assert!(save.level_sets.level_set_stats[0].areas.areas[0].def.cassette);
    assert!(!save.level_sets.level_set_stats[0].areas.areas[1].def.cassette);
    {
        let area = save.find_area_by_sid_and_source_mut("B/1", AreaSource::LevelSetRecycleBin).unwrap();
        area.def.id = 42;
    }
    assert_eq!(save.level_set_recycle_bin.level_set_stats[0].areas.areas[0].def.id, 42);
    assert!(save.find_area_by_sid_and_source_mut("B/1", AreaSource::LevelSets).is_none());
    assert!(save.find_area_by_sid_mut("Celeste/9-Nowhere").is_none());
}

#[test]
fn every_area_can_be_edited_through_the_list() {
    let mut save = blank_save();
    save.level_sets.level_set_stats.push(level_set("A", vec![modded_area("A/1", &[], &[])], 1));
    {
        let all = save.all_areas_mut();
        assert_eq!(all.len(), 12);
        for (area, source) in all {
            if source == AreaSource::LevelSets {
                area.def.cassette = true;
            }
        }
    }
    assert!(save.level_sets.level_set_stats[0].areas.areas[0].def.cassette);
    assert!(!save.areas.areas[0].def.cassette);
    {
        let sets = save.all_level_sets_mut();
        assert_eq!(sets.len(), 1);
        for (set, in_bin) in sets {
            assert!(!in_bin);
            set.unlocked_areas = 9;
        }
    }
    assert_eq!(save.level_sets.level_set_stats[0].unlocked_areas, 9);
}

#[test]
fn mod_save_data_areas_are_edited_in_place() {
    let mut data = ModSaveData::default();
    data.level_set_recycle_bin
        .level_set_stats
        .push(level_set("B", vec![modded_area("B/1", &[], &[])], 1));
    assert!(data.find_area_by_sid_mut("Celeste/1-ForsakenCity").is_none());
    data.find_area_by_sid_mut("B/1").unwrap().def.id = 7;
    assert_eq!(data.level_set_recycle_bin.level_set_stats[0].areas.areas[0].def.id, 7);
    assert_eq!(data.all_areas_mut().len(), 1);
    assert_eq!(data.all_level_sets_mut().len(), 1);
    assert!(data.find_area_by_sid_and_source_mut("B/1", AreaSource::Vanilla).is_none());
}

#[test]
fn saves_whose_totals_overflow_cannot_be_merged() {
    let mut a = blank_save();
    a.total_deaths = u64::MAX;
    let mut b = blank_save();
    assert!(a.can_merge(&b));
    b.total_deaths = 1;
    assert!(!a.can_merge(&b));
    a.total_deaths = 0;
    assert!(a.can_merge(&b));
}

#[test]
fn totals_follow_an_edited_value() {
    assert_eq!(total_after_change(100, 30, 10), 80);
    assert_eq!(total_after_change(100, 10, 30), 120);
    assert_eq!(total_after_change(100, 10, 10), 100);
    assert_eq!(count_after_list_change(5, 3, 2), 4);
    assert_eq!(count_after_list_change(5, 3, 4), 6);
    assert_eq!(count_after_list_change(5, 3, 3), 5);
}

#[test]
fn story_flags_are_turned_on_and_off() {
    let mut flags = vec![VanillaFlagsWrapper { flag: VanillaFlags::MetTheo }];
    set_vanilla_flag(&mut flags, VanillaFlags::TheoKnowsName, true);
    assert_eq!(flags.len(), 2);
    set_vanilla_flag(&mut flags, VanillaFlags::TheoKnowsName, true);
    assert_eq!(flags.len(), 2);
    set_vanilla_flag(&mut flags, VanillaFlags::MetTheo, false);
    assert_eq!(flags, vec![VanillaFlagsWrapper { flag: VanillaFlags::TheoKnowsName }]);
    set_vanilla_flag(&mut flags, VanillaFlags::MetTheo, false);
    assert_eq!(flags.len(), 1);
}

#[test]
fn poem_lines_move_to_their_new_place() {
    let mut poem: Vec<String> = ["a", "b", "c", "d"].iter().map(|s| s.to_string()).collect();
    move_poem_line(&mut poem, 0, 2);
    assert_eq!(poem, vec!["b", "c", "a", "d"]);
    move_poem_line(&mut poem, 1, 10);
    assert_eq!(poem, vec!["b", "a", "d", "c"]);
}

#[test]
fn removing_a_counted_entity_lowers_the_count() {
    let mut berries = vec![berry("1:2"), berry("3:4")];
    let mut count: u16 = 2;
    remove_counted_entity(&mut berries, 0, &mut count);
    assert_eq!(count, 1);
    assert_eq!(berries[0].key, "3:4");
}

#[test]
fn checked_durations_test_the_bound() {
    let t = FileTime::checked_from_duration(std::time::Duration::from_millis(5)).unwrap();
    assert_eq!(t, FileTime(50000));
    assert!(FileTime::checked_from_duration(std::time::Duration::from_millis(u64::MAX)).is_none());
    let mut a = FileTime(10);
    assert!(a.checked_add_duration(std::time::Duration::from_millis(2)));
    assert_eq!(a, FileTime(20010));
    let mut b = FileTime(u64::MAX - 5);
    assert!(!b.checked_add_duration(std::time::Duration::from_millis(1)));
    assert_eq!(b, FileTime(u64::MAX - 5));
}
