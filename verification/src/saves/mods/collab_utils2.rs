//! The mod save of Collab Utils 2.
use vstd::prelude::*;

use crate::saves::mods::{
    field_mapping,
    field_sequence,
    lemma_nested_map_read_unique,
    lemma_str_map_read_unique,
    lemma_str_set_read_unique,
    lemma_time_map_read_unique,
    lemma_yaml_map_read_unique,
    lemma_nested_map_reads_back,
    lemma_str_list_reads_back,
    lemma_str_map_reads_back,
    lemma_str_set_reads_back,
    lemma_time_map_reads_back,
    lemma_yaml_map_reads_back,
    field_nested_map,
    field_str_list,
    field_str_map,
    field_str_set,
    field_time_map,
    field_yaml_map,
    get_bool,
    nested_map_step,
    read_field_bool,
    read_field_map,
    read_field_seq,
    same_node,
    str_list_step,
    str_map_node,
    str_map_step,
    str_node,
    str_set_step,
    time_map_step,
    time_node,
    write_nested_map,
    write_str_list,
    write_str_map,
    write_time_map,
    write_yaml_map,
    written_list,
    written_map,
    yaml_map_step,
};
use crate::saves::util::FileTime;
use crate::utils::keyed::{keys_unique, no_repeats, put};
use crate::utils::yaml::{entries_view, lemma_put_get, mapping_put, FromYaml, Yaml, YamlParseError, YamlParseErrorV, YamlV, YamlWriteError};

verus! {

/// The mod save of [Collab Utils 2](https://gamebanana.com/mods/53704).
///
/// Each YAML mapping of the save is a list here, each key at most once.
pub struct CollabsUtils2Save {
    /// Each level's SID with the XML text of the session saved for it.
    pub sessions_per_level: Vec<(String, String)>,
    /// Saved modded sessions for legacy mods, each with the SID of the level it is for.
    pub mod_sessions_per_level: Vec<(String, Yaml)>,
    /// For each SID, the mods that saved a session there and their sessions, base64 encoded.
    pub mod_sessions_per_level_binary: Vec<(String, Vec<(String, String)>)>,
    /// Lobby SIDs and a base64 encoded list of locations visited.
    pub visited_lobby_positions: Vec<(String, String)>,
    /// Set of opened mini-heart doors
    pub opened_mini_heart_doors: Vec<String>,
    /// Set of rainbow berries that have had their forming animation play
    pub combined_rainbow_berries: Vec<String>,
    /// Level SIDs and the speed berry time for that level
    pub speed_berry_pbs: Vec<(String, FileTime)>,
    /// Whether the speed berry ui notice has been shown on this save
    pub speed_berry_option_message_shown: bool,
    /// List of warp pedestals that have completed their fill animation
    pub completed_warp_pedestal_sids: Vec<String>,
    /// Whether the map should be forcibly revealed
    pub reveal_map: bool,
    /// Whether collab utils should pause visiting points
    pub pause_visiting_points: bool,
    /// Whether collab utils should visualize visited points
    pub show_visited_points: bool,
}

/// The value of a [CollabsUtils2Save].
pub struct CollabsUtils2SaveV {
    pub sessions_per_level: Seq<(Seq<char>, Seq<char>)>,
    pub mod_sessions_per_level: Seq<(Seq<char>, YamlV)>,
    pub mod_sessions_per_level_binary: Seq<(Seq<char>, Seq<(Seq<char>, Seq<char>)>)>,
    pub visited_lobby_positions: Seq<(Seq<char>, Seq<char>)>,
    pub opened_mini_heart_doors: Seq<Seq<char>>,
    pub combined_rainbow_berries: Seq<Seq<char>>,
    pub speed_berry_pbs: Seq<(Seq<char>, u64)>,
    pub speed_berry_option_message_shown: bool,
    pub completed_warp_pedestal_sids: Seq<Seq<char>>,
    pub reveal_map: bool,
    pub pause_visiting_points: bool,
    pub show_visited_points: bool,
}

impl View for CollabsUtils2Save {
    type V = CollabsUtils2SaveV;

    open spec fn view(&self) -> CollabsUtils2SaveV {
        CollabsUtils2SaveV {
            sessions_per_level: self.sessions_per_level.deep_view(),
            mod_sessions_per_level: self.mod_sessions_per_level.deep_view(),
            mod_sessions_per_level_binary: self.mod_sessions_per_level_binary.deep_view(),
            visited_lobby_positions: self.visited_lobby_positions.deep_view(),
            opened_mini_heart_doors: self.opened_mini_heart_doors.deep_view(),
            combined_rainbow_berries: self.combined_rainbow_berries.deep_view(),
            speed_berry_pbs: self.speed_berry_pbs.deep_view(),
            speed_berry_option_message_shown: self.speed_berry_option_message_shown,
            completed_warp_pedestal_sids: self.completed_warp_pedestal_sids.deep_view(),
            reveal_map: self.reveal_map,
            pause_visiting_points: self.pause_visiting_points,
            show_visited_points: self.show_visited_points,
        }
    }
}

/// Reading a Collab Utils 2 save: each field in turn, the first that is
/// missing or of the wrong shape giving the error.
pub open spec fn collab_utils2_read(y: YamlV) -> Result<CollabsUtils2SaveV, Seq<char>> {
    let a = read_field_map(y, "SessionsPerLevel"@, "CollabUtils2 save doesn't contain a SessionsPerLevel entry"@, str_map_step("CollabUtils2 save SessionsPerLevel entry key isn't a string"@, "CollabUtils2 SessionsPerLevel entry doesn't have a string value"@), Seq::empty());
    let b = read_field_map(y, "ModSessionsPerLevel"@, "CollabUtils2 save doesn't have ModSessionsPerLevel entry"@, yaml_map_step("CollabUtils2 ModSessionsPerLevel entry doesn't have a string key"@), Seq::empty());
    let c = read_field_map(
        y,
        "ModSessionsPerLevelBinary"@,
        "CollabUtils2 save doesn't have a ModSessionsPerLevelBinary field"@,
        nested_map_step("CollabUtils2 ModSessionsPerLevelBinary entry doesn't have a string key"@, "CollabUtils2 save ModSessionsPerLevelBinary doesn't have a list of mod sessions"@, "CollabUtils2 save ModSessionsPerLevelBinary mod entry doesn't have a string key"@, "CollabUtils2 save ModSessionsPerLevelBinary mod entry doesn't have a string value"@),
        Seq::empty(),
    );
    let d = read_field_map(y, "VisitedLobbyPositions"@, "CollabUtils2 save doesn't have a VisitedLobbyPositions field"@, str_map_step("CollabUtils2 VisitedLobbyPositions entry doesn't have a string key"@, "CollabUtils2 VisitedLobbyPositions entry doesn't have a string value"@), Seq::empty());
    let e = read_field_seq(y, "OpenedMiniHeartDoors"@, "CollabUtils2 save doesn't have a OpenedMiniHeartDoors field"@, str_set_step("CollabUtils2 OpenedMiniHeartDoors entry isn't a string"@), Seq::empty());
    let f = read_field_seq(y, "CombinedRainbowBerries"@, "CollabUtils2 save doesn't have a CombinedRainbowBerries field"@, str_set_step("CollabUtils2 CombinedRainbowBerries entry isn't a string"@), Seq::empty());
    let g = read_field_map(y, "SpeedBerryPBs"@, "CollabUtils2 save doesn't have a SpeedBerryPBs field"@, time_map_step("CollabUtils2 SpeedBerryPBs entry doesn't have string key"@, "CollabUtils2 SpeedBerryPBs entry doesn't have an integer value"@), Seq::empty());
    let h = read_field_bool(y, "SpeedberryOptionMessageShown"@, "CollabUtils2 save doesn't have SpeedberryOptionMessageShown field"@);
    let i = read_field_seq(y, "CompletedWarpPedestalSIDs"@, "CollabUtils2 save doesn't have CompletedWarpPedestalSIDs field"@, str_list_step("CollabUtils2 CompletedWarpPedestalSIDs entry isn't a string"@), Seq::empty());
    let j = read_field_bool(y, "RevealMap"@, "CollabUtils2 save doesn't have RevealMap field"@);
    let k = read_field_bool(y, "PauseVisitingPoints"@, "CollabUtils2 save doesn't have PauseVisitingPoints field"@);
    let l = read_field_bool(y, "ShowVisitedPoints"@, "CollabUtils2 save doesn't have ShowVisitedPoints field"@);
    if a is Err {
        Err(a->Err_0)
    } else if b is Err {
        Err(b->Err_0)
    } else if c is Err {
        Err(c->Err_0)
    } else if d is Err {
        Err(d->Err_0)
    } else if e is Err {
        Err(e->Err_0)
    } else if f is Err {
        Err(f->Err_0)
    } else if g is Err {
        Err(g->Err_0)
    } else if h is Err {
        Err(h->Err_0)
    } else if i is Err {
        Err(i->Err_0)
    } else if j is Err {
        Err(j->Err_0)
    } else if k is Err {
        Err(k->Err_0)
    } else if l is Err {
        Err(l->Err_0)
    } else {
        Ok(
            CollabsUtils2SaveV {
                sessions_per_level: a->Ok_0,
                mod_sessions_per_level: b->Ok_0,
                mod_sessions_per_level_binary: c->Ok_0,
                visited_lobby_positions: d->Ok_0,
                opened_mini_heart_doors: e->Ok_0,
                combined_rainbow_berries: f->Ok_0,
                speed_berry_pbs: g->Ok_0,
                speed_berry_option_message_shown: h->Ok_0,
                completed_warp_pedestal_sids: i->Ok_0,
                reveal_map: j->Ok_0,
                pause_visiting_points: k->Ok_0,
                show_visited_points: l->Ok_0,
            },
        )
    }
}

/// The document a Collab Utils 2 save is written as: a mapping with each
/// field under its name, in the order they are read.
pub open spec fn collab_utils2_written(v: CollabsUtils2SaveV) -> YamlV {
    let root = Seq::<(YamlV, YamlV)>::empty();
    let root = put(root, YamlV::String("SessionsPerLevel"@), YamlV::Mapping(written_map(v.sessions_per_level, str_node())));
    let root = put(root, YamlV::String("ModSessionsPerLevel"@), YamlV::Mapping(written_map(v.mod_sessions_per_level, same_node())));
    let root = put(
        root,
        YamlV::String("ModSessionsPerLevelBinary"@),
        YamlV::Mapping(written_map(v.mod_sessions_per_level_binary, str_map_node())),
    );
    let root = put(root, YamlV::String("VisitedLobbyPositions"@), YamlV::Mapping(written_map(v.visited_lobby_positions, str_node())));
    let root = put(root, YamlV::String("OpenedMiniHeartDoors"@), YamlV::Sequence(written_list(v.opened_mini_heart_doors)));
    let root = put(root, YamlV::String("CombinedRainbowBerries"@), YamlV::Sequence(written_list(v.combined_rainbow_berries)));
    let root = put(root, YamlV::String("SpeedBerryPBs"@), YamlV::Mapping(written_map(v.speed_berry_pbs, time_node())));
    let root = put(root, YamlV::String("SpeedberryOptionMessageShown"@), YamlV::Boolean(v.speed_berry_option_message_shown));
    let root = put(root, YamlV::String("CompletedWarpPedestalSIDs"@), YamlV::Sequence(written_list(v.completed_warp_pedestal_sids)));
    let root = put(root, YamlV::String("RevealMap"@), YamlV::Boolean(v.reveal_map));
    let root = put(root, YamlV::String("PauseVisitingPoints"@), YamlV::Boolean(v.pause_visiting_points));
    let root = put(root, YamlV::String("ShowVisitedPoints"@), YamlV::Boolean(v.show_visited_points));
    YamlV::Mapping(root)
}

impl CollabsUtils2Save {
    /// The unlocalized name of the mod, the third part of its files' names.
    pub const MOD_NAME: &'static str = "CollabUtils2";
}

impl FromYaml for CollabsUtils2Save {
    open spec fn readable(y: YamlV) -> bool {
        collab_utils2_read(y) is Ok
    }

    open spec fn reads_as(y: YamlV, x: CollabsUtils2Save) -> bool {
        collab_utils2_read(y) == Ok::<_, Seq<char>>(x@)
    }

    open spec fn read_error(y: YamlV) -> YamlParseErrorV {
        YamlParseErrorV::Custom(collab_utils2_read(y)->Err_0)
    }

    open spec fn writable(x: CollabsUtils2Save) -> bool {
        true
    }

    open spec fn written(x: CollabsUtils2Save) -> YamlV {
        collab_utils2_written(x@)
    }

    open spec fn write_error(x: CollabsUtils2Save) -> Seq<char> {
        Seq::empty()
    }

    open spec fn keeps(x: CollabsUtils2Save) -> bool {
        let v = x@;
        &&& keys_unique(v.sessions_per_level)
        &&& keys_unique(v.mod_sessions_per_level)
        &&& keys_unique(v.mod_sessions_per_level_binary)
        &&& forall|i: int|
            0 <= i < v.mod_sessions_per_level_binary.len() ==> keys_unique(#[trigger] v.mod_sessions_per_level_binary[i].1)
        &&& keys_unique(v.visited_lobby_positions)
        &&& no_repeats(v.opened_mini_heart_doors)
        &&& no_repeats(v.combined_rainbow_berries)
        &&& keys_unique(v.speed_berry_pbs)
    }

    proof fn lemma_written_reads_back(x: CollabsUtils2Save) {
        let v = x@;
        reveal_strlit("SessionsPerLevel");
        reveal_strlit("ModSessionsPerLevel");
        reveal_strlit("ModSessionsPerLevelBinary");
        reveal_strlit("VisitedLobbyPositions");
        reveal_strlit("OpenedMiniHeartDoors");
        reveal_strlit("CombinedRainbowBerries");
        reveal_strlit("SpeedBerryPBs");
        reveal_strlit("SpeedberryOptionMessageShown");
        reveal_strlit("CompletedWarpPedestalSIDs");
        reveal_strlit("RevealMap");
        reveal_strlit("PauseVisitingPoints");
        reveal_strlit("ShowVisitedPoints");
        assert("SessionsPerLevel"@.len() == 16);
        assert("ModSessionsPerLevel"@.len() == 19);
        assert("ModSessionsPerLevelBinary"@.len() == 25);
        assert("VisitedLobbyPositions"@.len() == 21);
        assert("OpenedMiniHeartDoors"@.len() == 20);
        assert("CombinedRainbowBerries"@.len() == 22);
        assert("SpeedBerryPBs"@.len() == 13);
        assert("SpeedberryOptionMessageShown"@.len() == 28);
        assert("CompletedWarpPedestalSIDs"@.len() == 25);
        assert("RevealMap"@.len() == 9);
        assert("PauseVisitingPoints"@.len() == 19);
        assert("ShowVisitedPoints"@.len() == 17);
        assert("ModSessionsPerLevel"@[0] == 'M');
        assert("PauseVisitingPoints"@[0] == 'P');
        assert("CompletedWarpPedestalSIDs"@[0] == 'C');
        assert("ModSessionsPerLevelBinary"@[0] == 'M');
        let m0 = Seq::<(YamlV, YamlV)>::empty();
        let m1 = put(m0, YamlV::String("SessionsPerLevel"@), YamlV::Mapping(written_map(v.sessions_per_level, str_node())));
        let m2 = put(m1, YamlV::String("ModSessionsPerLevel"@), YamlV::Mapping(written_map(v.mod_sessions_per_level, same_node())));
        let m3 = put(m2, YamlV::String("ModSessionsPerLevelBinary"@), YamlV::Mapping(written_map(v.mod_sessions_per_level_binary, str_map_node())));
        let m4 = put(m3, YamlV::String("VisitedLobbyPositions"@), YamlV::Mapping(written_map(v.visited_lobby_positions, str_node())));
        let m5 = put(m4, YamlV::String("OpenedMiniHeartDoors"@), YamlV::Sequence(written_list(v.opened_mini_heart_doors)));
        let m6 = put(m5, YamlV::String("CombinedRainbowBerries"@), YamlV::Sequence(written_list(v.combined_rainbow_berries)));
        let m7 = put(m6, YamlV::String("SpeedBerryPBs"@), YamlV::Mapping(written_map(v.speed_berry_pbs, time_node())));
        let m8 = put(m7, YamlV::String("SpeedberryOptionMessageShown"@), YamlV::Boolean(v.speed_berry_option_message_shown));
        let m9 = put(m8, YamlV::String("CompletedWarpPedestalSIDs"@), YamlV::Sequence(written_list(v.completed_warp_pedestal_sids)));
        let m10 = put(m9, YamlV::String("RevealMap"@), YamlV::Boolean(v.reveal_map));
        let m11 = put(m10, YamlV::String("PauseVisitingPoints"@), YamlV::Boolean(v.pause_visiting_points));
        let m12 = put(m11, YamlV::String("ShowVisitedPoints"@), YamlV::Boolean(v.show_visited_points));
        lemma_put_get(m11, "ShowVisitedPoints"@, YamlV::Boolean(v.show_visited_points), "SessionsPerLevel"@);
        lemma_put_get(m10, "PauseVisitingPoints"@, YamlV::Boolean(v.pause_visiting_points), "SessionsPerLevel"@);
        lemma_put_get(m9, "RevealMap"@, YamlV::Boolean(v.reveal_map), "SessionsPerLevel"@);
        lemma_put_get(m8, "CompletedWarpPedestalSIDs"@, YamlV::Sequence(written_list(v.completed_warp_pedestal_sids)), "SessionsPerLevel"@);
        lemma_put_get(m7, "SpeedberryOptionMessageShown"@, YamlV::Boolean(v.speed_berry_option_message_shown), "SessionsPerLevel"@);
        lemma_put_get(m6, "SpeedBerryPBs"@, YamlV::Mapping(written_map(v.speed_berry_pbs, time_node())), "SessionsPerLevel"@);
        lemma_put_get(m5, "CombinedRainbowBerries"@, YamlV::Sequence(written_list(v.combined_rainbow_berries)), "SessionsPerLevel"@);
        lemma_put_get(m4, "OpenedMiniHeartDoors"@, YamlV::Sequence(written_list(v.opened_mini_heart_doors)), "SessionsPerLevel"@);
        lemma_put_get(m3, "VisitedLobbyPositions"@, YamlV::Mapping(written_map(v.visited_lobby_positions, str_node())), "SessionsPerLevel"@);
        lemma_put_get(m2, "ModSessionsPerLevelBinary"@, YamlV::Mapping(written_map(v.mod_sessions_per_level_binary, str_map_node())), "SessionsPerLevel"@);
        lemma_put_get(m1, "ModSessionsPerLevel"@, YamlV::Mapping(written_map(v.mod_sessions_per_level, same_node())), "SessionsPerLevel"@);
        lemma_put_get(m0, "SessionsPerLevel"@, YamlV::Mapping(written_map(v.sessions_per_level, str_node())), "SessionsPerLevel"@);
        lemma_put_get(m11, "ShowVisitedPoints"@, YamlV::Boolean(v.show_visited_points), "ModSessionsPerLevel"@);
        lemma_put_get(m10, "PauseVisitingPoints"@, YamlV::Boolean(v.pause_visiting_points), "ModSessionsPerLevel"@);
        lemma_put_get(m9, "RevealMap"@, YamlV::Boolean(v.reveal_map), "ModSessionsPerLevel"@);
        lemma_put_get(m8, "CompletedWarpPedestalSIDs"@, YamlV::Sequence(written_list(v.completed_warp_pedestal_sids)), "ModSessionsPerLevel"@);
        lemma_put_get(m7, "SpeedberryOptionMessageShown"@, YamlV::Boolean(v.speed_berry_option_message_shown), "ModSessionsPerLevel"@);
        lemma_put_get(m6, "SpeedBerryPBs"@, YamlV::Mapping(written_map(v.speed_berry_pbs, time_node())), "ModSessionsPerLevel"@);
        lemma_put_get(m5, "CombinedRainbowBerries"@, YamlV::Sequence(written_list(v.combined_rainbow_berries)), "ModSessionsPerLevel"@);
        lemma_put_get(m4, "OpenedMiniHeartDoors"@, YamlV::Sequence(written_list(v.opened_mini_heart_doors)), "ModSessionsPerLevel"@);
        lemma_put_get(m3, "VisitedLobbyPositions"@, YamlV::Mapping(written_map(v.visited_lobby_positions, str_node())), "ModSessionsPerLevel"@);
        lemma_put_get(m2, "ModSessionsPerLevelBinary"@, YamlV::Mapping(written_map(v.mod_sessions_per_level_binary, str_map_node())), "ModSessionsPerLevel"@);
        lemma_put_get(m1, "ModSessionsPerLevel"@, YamlV::Mapping(written_map(v.mod_sessions_per_level, same_node())), "ModSessionsPerLevel"@);
        lemma_put_get(m11, "ShowVisitedPoints"@, YamlV::Boolean(v.show_visited_points), "ModSessionsPerLevelBinary"@);
        lemma_put_get(m10, "PauseVisitingPoints"@, YamlV::Boolean(v.pause_visiting_points), "ModSessionsPerLevelBinary"@);
        lemma_put_get(m9, "RevealMap"@, YamlV::Boolean(v.reveal_map), "ModSessionsPerLevelBinary"@);
        lemma_put_get(m8, "CompletedWarpPedestalSIDs"@, YamlV::Sequence(written_list(v.completed_warp_pedestal_sids)), "ModSessionsPerLevelBinary"@);
        lemma_put_get(m7, "SpeedberryOptionMessageShown"@, YamlV::Boolean(v.speed_berry_option_message_shown), "ModSessionsPerLevelBinary"@);
        lemma_put_get(m6, "SpeedBerryPBs"@, YamlV::Mapping(written_map(v.speed_berry_pbs, time_node())), "ModSessionsPerLevelBinary"@);
        lemma_put_get(m5, "CombinedRainbowBerries"@, YamlV::Sequence(written_list(v.combined_rainbow_berries)), "ModSessionsPerLevelBinary"@);
        lemma_put_get(m4, "OpenedMiniHeartDoors"@, YamlV::Sequence(written_list(v.opened_mini_heart_doors)), "ModSessionsPerLevelBinary"@);
        lemma_put_get(m3, "VisitedLobbyPositions"@, YamlV::Mapping(written_map(v.visited_lobby_positions, str_node())), "ModSessionsPerLevelBinary"@);
        lemma_put_get(m2, "ModSessionsPerLevelBinary"@, YamlV::Mapping(written_map(v.mod_sessions_per_level_binary, str_map_node())), "ModSessionsPerLevelBinary"@);
        lemma_put_get(m11, "ShowVisitedPoints"@, YamlV::Boolean(v.show_visited_points), "VisitedLobbyPositions"@);
        lemma_put_get(m10, "PauseVisitingPoints"@, YamlV::Boolean(v.pause_visiting_points), "VisitedLobbyPositions"@);
        lemma_put_get(m9, "RevealMap"@, YamlV::Boolean(v.reveal_map), "VisitedLobbyPositions"@);
        lemma_put_get(m8, "CompletedWarpPedestalSIDs"@, YamlV::Sequence(written_list(v.completed_warp_pedestal_sids)), "VisitedLobbyPositions"@);
        lemma_put_get(m7, "SpeedberryOptionMessageShown"@, YamlV::Boolean(v.speed_berry_option_message_shown), "VisitedLobbyPositions"@);
        lemma_put_get(m6, "SpeedBerryPBs"@, YamlV::Mapping(written_map(v.speed_berry_pbs, time_node())), "VisitedLobbyPositions"@);
        lemma_put_get(m5, "CombinedRainbowBerries"@, YamlV::Sequence(written_list(v.combined_rainbow_berries)), "VisitedLobbyPositions"@);
        lemma_put_get(m4, "OpenedMiniHeartDoors"@, YamlV::Sequence(written_list(v.opened_mini_heart_doors)), "VisitedLobbyPositions"@);
        lemma_put_get(m3, "VisitedLobbyPositions"@, YamlV::Mapping(written_map(v.visited_lobby_positions, str_node())), "VisitedLobbyPositions"@);
        lemma_put_get(m11, "ShowVisitedPoints"@, YamlV::Boolean(v.show_visited_points), "OpenedMiniHeartDoors"@);
        lemma_put_get(m10, "PauseVisitingPoints"@, YamlV::Boolean(v.pause_visiting_points), "OpenedMiniHeartDoors"@);
        lemma_put_get(m9, "RevealMap"@, YamlV::Boolean(v.reveal_map), "OpenedMiniHeartDoors"@);
        lemma_put_get(m8, "CompletedWarpPedestalSIDs"@, YamlV::Sequence(written_list(v.completed_warp_pedestal_sids)), "OpenedMiniHeartDoors"@);
        lemma_put_get(m7, "SpeedberryOptionMessageShown"@, YamlV::Boolean(v.speed_berry_option_message_shown), "OpenedMiniHeartDoors"@);
        lemma_put_get(m6, "SpeedBerryPBs"@, YamlV::Mapping(written_map(v.speed_berry_pbs, time_node())), "OpenedMiniHeartDoors"@);
        lemma_put_get(m5, "CombinedRainbowBerries"@, YamlV::Sequence(written_list(v.combined_rainbow_berries)), "OpenedMiniHeartDoors"@);
        lemma_put_get(m4, "OpenedMiniHeartDoors"@, YamlV::Sequence(written_list(v.opened_mini_heart_doors)), "OpenedMiniHeartDoors"@);
        lemma_put_get(m11, "ShowVisitedPoints"@, YamlV::Boolean(v.show_visited_points), "CombinedRainbowBerries"@);
        lemma_put_get(m10, "PauseVisitingPoints"@, YamlV::Boolean(v.pause_visiting_points), "CombinedRainbowBerries"@);
        lemma_put_get(m9, "RevealMap"@, YamlV::Boolean(v.reveal_map), "CombinedRainbowBerries"@);
        lemma_put_get(m8, "CompletedWarpPedestalSIDs"@, YamlV::Sequence(written_list(v.completed_warp_pedestal_sids)), "CombinedRainbowBerries"@);
        lemma_put_get(m7, "SpeedberryOptionMessageShown"@, YamlV::Boolean(v.speed_berry_option_message_shown), "CombinedRainbowBerries"@);
        lemma_put_get(m6, "SpeedBerryPBs"@, YamlV::Mapping(written_map(v.speed_berry_pbs, time_node())), "CombinedRainbowBerries"@);
        lemma_put_get(m5, "CombinedRainbowBerries"@, YamlV::Sequence(written_list(v.combined_rainbow_berries)), "CombinedRainbowBerries"@);
        lemma_put_get(m11, "ShowVisitedPoints"@, YamlV::Boolean(v.show_visited_points), "SpeedBerryPBs"@);
        lemma_put_get(m10, "PauseVisitingPoints"@, YamlV::Boolean(v.pause_visiting_points), "SpeedBerryPBs"@);
        lemma_put_get(m9, "RevealMap"@, YamlV::Boolean(v.reveal_map), "SpeedBerryPBs"@);
        lemma_put_get(m8, "CompletedWarpPedestalSIDs"@, YamlV::Sequence(written_list(v.completed_warp_pedestal_sids)), "SpeedBerryPBs"@);
        lemma_put_get(m7, "SpeedberryOptionMessageShown"@, YamlV::Boolean(v.speed_berry_option_message_shown), "SpeedBerryPBs"@);
        lemma_put_get(m6, "SpeedBerryPBs"@, YamlV::Mapping(written_map(v.speed_berry_pbs, time_node())), "SpeedBerryPBs"@);
        lemma_put_get(m11, "ShowVisitedPoints"@, YamlV::Boolean(v.show_visited_points), "SpeedberryOptionMessageShown"@);
        lemma_put_get(m10, "PauseVisitingPoints"@, YamlV::Boolean(v.pause_visiting_points), "SpeedberryOptionMessageShown"@);
        lemma_put_get(m9, "RevealMap"@, YamlV::Boolean(v.reveal_map), "SpeedberryOptionMessageShown"@);
        lemma_put_get(m8, "CompletedWarpPedestalSIDs"@, YamlV::Sequence(written_list(v.completed_warp_pedestal_sids)), "SpeedberryOptionMessageShown"@);
        lemma_put_get(m7, "SpeedberryOptionMessageShown"@, YamlV::Boolean(v.speed_berry_option_message_shown), "SpeedberryOptionMessageShown"@);
        lemma_put_get(m11, "ShowVisitedPoints"@, YamlV::Boolean(v.show_visited_points), "CompletedWarpPedestalSIDs"@);
        lemma_put_get(m10, "PauseVisitingPoints"@, YamlV::Boolean(v.pause_visiting_points), "CompletedWarpPedestalSIDs"@);
        lemma_put_get(m9, "RevealMap"@, YamlV::Boolean(v.reveal_map), "CompletedWarpPedestalSIDs"@);
        lemma_put_get(m8, "CompletedWarpPedestalSIDs"@, YamlV::Sequence(written_list(v.completed_warp_pedestal_sids)), "CompletedWarpPedestalSIDs"@);
        lemma_put_get(m11, "ShowVisitedPoints"@, YamlV::Boolean(v.show_visited_points), "RevealMap"@);
        lemma_put_get(m10, "PauseVisitingPoints"@, YamlV::Boolean(v.pause_visiting_points), "RevealMap"@);
        lemma_put_get(m9, "RevealMap"@, YamlV::Boolean(v.reveal_map), "RevealMap"@);
        lemma_put_get(m11, "ShowVisitedPoints"@, YamlV::Boolean(v.show_visited_points), "PauseVisitingPoints"@);
        lemma_put_get(m10, "PauseVisitingPoints"@, YamlV::Boolean(v.pause_visiting_points), "PauseVisitingPoints"@);
        lemma_put_get(m11, "ShowVisitedPoints"@, YamlV::Boolean(v.show_visited_points), "ShowVisitedPoints"@);
        lemma_str_map_reads_back(v.sessions_per_level, "CollabUtils2 save SessionsPerLevel entry key isn't a string"@, "CollabUtils2 SessionsPerLevel entry doesn't have a string value"@);
        lemma_yaml_map_reads_back(v.mod_sessions_per_level, "CollabUtils2 ModSessionsPerLevel entry doesn't have a string key"@);
        lemma_nested_map_reads_back(v.mod_sessions_per_level_binary, "CollabUtils2 ModSessionsPerLevelBinary entry doesn't have a string key"@, "CollabUtils2 save ModSessionsPerLevelBinary doesn't have a list of mod sessions"@, "CollabUtils2 save ModSessionsPerLevelBinary mod entry doesn't have a string key"@, "CollabUtils2 save ModSessionsPerLevelBinary mod entry doesn't have a string value"@);
        lemma_str_map_reads_back(v.visited_lobby_positions, "CollabUtils2 VisitedLobbyPositions entry doesn't have a string key"@, "CollabUtils2 VisitedLobbyPositions entry doesn't have a string value"@);
        lemma_str_set_reads_back(v.opened_mini_heart_doors, "CollabUtils2 OpenedMiniHeartDoors entry isn't a string"@);
        lemma_str_set_reads_back(v.combined_rainbow_berries, "CollabUtils2 CombinedRainbowBerries entry isn't a string"@);
        lemma_time_map_reads_back(v.speed_berry_pbs, "CollabUtils2 SpeedBerryPBs entry doesn't have string key"@, "CollabUtils2 SpeedBerryPBs entry doesn't have an integer value"@);
        lemma_str_list_reads_back(v.completed_warp_pedestal_sids, "CollabUtils2 CompletedWarpPedestalSIDs entry isn't a string"@);
    }

    proof fn lemma_read_keeps(y: YamlV, x: CollabsUtils2Save) {
        if let Some(m) = field_mapping(y, "SessionsPerLevel"@) {
            lemma_str_map_read_unique(m, "CollabUtils2 save SessionsPerLevel entry key isn't a string"@, "CollabUtils2 SessionsPerLevel entry doesn't have a string value"@);
        }
        if let Some(m) = field_mapping(y, "ModSessionsPerLevel"@) {
            lemma_yaml_map_read_unique(m, "CollabUtils2 ModSessionsPerLevel entry doesn't have a string key"@);
        }
        if let Some(m) = field_mapping(y, "ModSessionsPerLevelBinary"@) {
            lemma_nested_map_read_unique(m, "CollabUtils2 ModSessionsPerLevelBinary entry doesn't have a string key"@, "CollabUtils2 save ModSessionsPerLevelBinary doesn't have a list of mod sessions"@, "CollabUtils2 save ModSessionsPerLevelBinary mod entry doesn't have a string key"@, "CollabUtils2 save ModSessionsPerLevelBinary mod entry doesn't have a string value"@);
        }
        if let Some(m) = field_mapping(y, "VisitedLobbyPositions"@) {
            lemma_str_map_read_unique(m, "CollabUtils2 VisitedLobbyPositions entry doesn't have a string key"@, "CollabUtils2 VisitedLobbyPositions entry doesn't have a string value"@);
        }
        if let Some(s) = field_sequence(y, "OpenedMiniHeartDoors"@) {
            lemma_str_set_read_unique(s, "CollabUtils2 OpenedMiniHeartDoors entry isn't a string"@);
        }
        if let Some(s) = field_sequence(y, "CombinedRainbowBerries"@) {
            lemma_str_set_read_unique(s, "CollabUtils2 CombinedRainbowBerries entry isn't a string"@);
        }
        if let Some(m) = field_mapping(y, "SpeedBerryPBs"@) {
            lemma_time_map_read_unique(m, "CollabUtils2 SpeedBerryPBs entry doesn't have string key"@, "CollabUtils2 SpeedBerryPBs entry doesn't have an integer value"@);
        }
    }

    fn parse_from_yaml(yaml: &Yaml) -> (r: Result<CollabsUtils2Save, YamlParseError>) {
        let sessions_per_level = match field_str_map(yaml, "SessionsPerLevel", "CollabUtils2 save doesn't contain a SessionsPerLevel entry", "CollabUtils2 save SessionsPerLevel entry key isn't a string", "CollabUtils2 SessionsPerLevel entry doesn't have a string value") {
            Ok(x) => x,
            Err(e) => {
                return Err(e);
            },
        };
        let mod_sessions_per_level = match field_yaml_map(yaml, "ModSessionsPerLevel", "CollabUtils2 save doesn't have ModSessionsPerLevel entry", "CollabUtils2 ModSessionsPerLevel entry doesn't have a string key") {
            Ok(x) => x,
            Err(e) => {
                return Err(e);
            },
        };
        let mod_sessions_per_level_binary = match field_nested_map(
            yaml,
            "ModSessionsPerLevelBinary",
            "CollabUtils2 save doesn't have a ModSessionsPerLevelBinary field",
            "CollabUtils2 ModSessionsPerLevelBinary entry doesn't have a string key",
            "CollabUtils2 save ModSessionsPerLevelBinary doesn't have a list of mod sessions",
            "CollabUtils2 save ModSessionsPerLevelBinary mod entry doesn't have a string key",
            "CollabUtils2 save ModSessionsPerLevelBinary mod entry doesn't have a string value",
        ) {
            Ok(x) => x,
            Err(e) => {
                return Err(e);
            },
        };
        let visited_lobby_positions = match field_str_map(yaml, "VisitedLobbyPositions", "CollabUtils2 save doesn't have a VisitedLobbyPositions field", "CollabUtils2 VisitedLobbyPositions entry doesn't have a string key", "CollabUtils2 VisitedLobbyPositions entry doesn't have a string value") {
            Ok(x) => x,
            Err(e) => {
                return Err(e);
            },
        };
        let opened_mini_heart_doors = match field_str_set(yaml, "OpenedMiniHeartDoors", "CollabUtils2 save doesn't have a OpenedMiniHeartDoors field", "CollabUtils2 OpenedMiniHeartDoors entry isn't a string") {
            Ok(x) => x,
            Err(e) => {
                return Err(e);
            },
        };
        let combined_rainbow_berries = match field_str_set(yaml, "CombinedRainbowBerries", "CollabUtils2 save doesn't have a CombinedRainbowBerries field", "CollabUtils2 CombinedRainbowBerries entry isn't a string") {
            Ok(x) => x,
            Err(e) => {
                return Err(e);
            },
        };
        let speed_berry_pbs = match field_time_map(yaml, "SpeedBerryPBs", "CollabUtils2 save doesn't have a SpeedBerryPBs field", "CollabUtils2 SpeedBerryPBs entry doesn't have string key", "CollabUtils2 SpeedBerryPBs entry doesn't have an integer value") {
            Ok(x) => x,
            Err(e) => {
                return Err(e);
            },
        };
        let speed_berry_option_message_shown = match get_bool(yaml, "SpeedberryOptionMessageShown", "CollabUtils2 save doesn't have SpeedberryOptionMessageShown field") {
            Ok(x) => x,
            Err(e) => {
                return Err(e);
            },
        };
        let completed_warp_pedestal_sids = match field_str_list(yaml, "CompletedWarpPedestalSIDs", "CollabUtils2 save doesn't have CompletedWarpPedestalSIDs field", "CollabUtils2 CompletedWarpPedestalSIDs entry isn't a string") {
            Ok(x) => x,
            Err(e) => {
                return Err(e);
            },
        };
        let reveal_map = match get_bool(yaml, "RevealMap", "CollabUtils2 save doesn't have RevealMap field") {
            Ok(x) => x,
            Err(e) => {
                return Err(e);
            },
        };
        let pause_visiting_points = match get_bool(yaml, "PauseVisitingPoints", "CollabUtils2 save doesn't have PauseVisitingPoints field") {
            Ok(x) => x,
            Err(e) => {
                return Err(e);
            },
        };
        let show_visited_points = match get_bool(yaml, "ShowVisitedPoints", "CollabUtils2 save doesn't have ShowVisitedPoints field") {
            Ok(x) => x,
            Err(e) => {
                return Err(e);
            },
        };
        Ok(
            CollabsUtils2Save {
                sessions_per_level,
                mod_sessions_per_level,
                mod_sessions_per_level_binary,
                visited_lobby_positions,
                opened_mini_heart_doors,
                combined_rainbow_berries,
                speed_berry_pbs,
                speed_berry_option_message_shown,
                completed_warp_pedestal_sids,
                reveal_map,
                pause_visiting_points,
                show_visited_points,
            },
        )
    }

    fn to_yaml(&self) -> (r: Result<Yaml, YamlWriteError>) {
        let mut root: Vec<(Yaml, Yaml)> = Vec::new();
        assert(entries_view(root@) =~= Seq::<(YamlV, YamlV)>::empty());
        mapping_put(&mut root, "SessionsPerLevel".to_owned(), Yaml::hash(write_str_map(&self.sessions_per_level)));
        mapping_put(&mut root, "ModSessionsPerLevel".to_owned(), Yaml::hash(write_yaml_map(&self.mod_sessions_per_level)));
        mapping_put(
            &mut root,
            "ModSessionsPerLevelBinary".to_owned(),
            Yaml::hash(write_nested_map(&self.mod_sessions_per_level_binary)),
        );
        mapping_put(&mut root, "VisitedLobbyPositions".to_owned(), Yaml::hash(write_str_map(&self.visited_lobby_positions)));
        mapping_put(&mut root, "OpenedMiniHeartDoors".to_owned(), Yaml::seq(write_str_list(&self.opened_mini_heart_doors)));
        mapping_put(&mut root, "CombinedRainbowBerries".to_owned(), Yaml::seq(write_str_list(&self.combined_rainbow_berries)));
        mapping_put(&mut root, "SpeedBerryPBs".to_owned(), Yaml::hash(write_time_map(&self.speed_berry_pbs)));
        mapping_put(&mut root, "SpeedberryOptionMessageShown".to_owned(), Yaml::bool(self.speed_berry_option_message_shown));
        mapping_put(
            &mut root,
            "CompletedWarpPedestalSIDs".to_owned(),
            Yaml::seq(write_str_list(&self.completed_warp_pedestal_sids)),
        );
        mapping_put(&mut root, "RevealMap".to_owned(), Yaml::bool(self.reveal_map));
        mapping_put(&mut root, "PauseVisitingPoints".to_owned(), Yaml::bool(self.pause_visiting_points));
        mapping_put(&mut root, "ShowVisitedPoints".to_owned(), Yaml::bool(self.show_visited_points));
        Ok(Yaml::hash(root))
    }
}

} // verus!
