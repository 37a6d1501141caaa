//! The state of a level in progress, as saved with "save & exit".
use vstd::prelude::*;

use crate::saves::util::{EntityID, FileTime, RespawnPoint};
use crate::saves::vanilla::{AreaDef, Modes};
use crate::utils::text::str_eq;
use crate::utils::yaml::{FromYaml, Yaml, YamlParseError, YamlParseErrorV, YamlV, YamlWriteError};

verus! {

#[derive(Debug, Clone)]
pub struct SessionAreaRef {
    pub id: u16,
    pub mode: String,
    /// The SID of the last level played
    ///
    /// This is `None` in a Vanilla session, and is always Some in a modded session.
    pub s_id: Option<String>,
}

/// The running statistics of a session.
///
/// The three lighting values are kept as the bit patterns of their `f32`s.
#[derive(Debug, Clone)]
pub struct SessionStats {
    /// The name of the screen the session is in
    pub level: String,
    pub time: FileTime,
    pub started_from_beginning: bool,
    pub deaths: u64,
    pub dashes: u64,
    pub dashes_at_start: u64,
    pub session_deaths: u64,
    pub in_area: bool,
    pub first_level: bool,
    pub cassette: bool,
    pub heart_gem: bool,
    pub dreaming: bool,
    pub lighting_alpha_add: u32,
    pub bloom_base_add: u32,
    pub dark_room_alpha: u32,
    pub core_more: String,
    pub grabbed_golden: bool,
    pub hit_checkpoint: bool,
}

#[derive(Debug, Clone)]
pub struct SavedSession {
    pub stats: SessionStats,
    pub area: SessionAreaRef,
    pub respawn_point: RespawnPoint,
    pub audio: Audio,
    pub inventory: Inventory,
    pub flags: LevelFlags,
    pub level_flags: LevelFlags,
    pub strawberries: Strawberries,
    pub do_not_load: DoNotLoad,
    pub keys: Keys,
    pub counters: Counters,
    pub summit_gems: SummitGems,
    pub old_stats: OldStats,
    pub unlocked_c_side: bool,
    /// The furthest screen reached in the map
    pub furthest_seen_level: Option<String>,
    pub beat_best_time: bool,
    pub restarted_from_golden: bool,
}

#[derive(Debug, Clone)]
pub struct LevelFlags {
    pub level_flags: Vec<String>,
}

#[derive(Debug, Clone)]
pub struct Strawberries {
    pub strawberries: Vec<EntityID>,
}

/// The keys of a list of ids.
pub open spec fn keys(v: Seq<EntityID>) -> Seq<Seq<char>> {
    v.map_values(|e: EntityID| e@)
}

impl View for Strawberries {
    type V = Seq<Seq<char>>;

    /// The keys of the strawberries.
    open spec fn view(&self) -> Seq<Seq<char>> {
        keys(self.strawberries@)
    }
}

impl Strawberries {
    /// A copy of the list.
    pub fn duplicate(&self) -> (r: Self)
        ensures
            r@ == self@,
    {
        let mut out: Vec<EntityID> = Vec::new();
        for i in 0..self.strawberries.len()
            invariant
                keys(out@) == self@.take(i as int),
        {
            let e = self.strawberries[i].duplicate();
            proof {
                assert(keys(out@.push(e)) =~= keys(out@).push(e@));
                assert(self@.take(i + 1) =~= self@.take(i as int).push(self@[i as int]));
            }
            out.push(e);
        }
        proof {
            assert(self@.take(self@.len() as int) =~= self@);
        }
        Strawberries { strawberries: out }
    }

    /// The number of strawberries.
    pub fn len(&self) -> (r: usize)
        ensures
            r == self@.len(),
    {
        self.strawberries.len()
    }
}

#[derive(Debug, Clone)]
pub struct DoNotLoad {
    pub do_not_load: Vec<EntityID>,
}

#[derive(Debug, Clone)]
pub struct Keys {
    pub keys: Vec<EntityID>,
}

#[derive(Debug, Clone)]
pub struct Counters {
    pub counters: Vec<Counter>,
}

#[derive(Debug, Clone)]
pub struct SummitGems {
    pub summit_gems: Vec<bool>,
}

#[derive(Debug, Clone)]
pub struct Audio {
    pub music: Music,
    pub ambience: Music,
}

#[derive(Debug, Clone)]
pub struct Music {
    pub event: String,
    pub parameters: Parameters,
}

#[derive(Debug, Clone)]
pub struct Parameters {
    pub parameters: Vec<MusicParam>,
}

#[derive(Debug, Clone)]
pub struct MusicParam {
    pub key: String,
    pub value: String,
}

#[derive(Debug, Clone, Copy, PartialEq, Eq, Structural)]
pub struct Inventory {
    pub dashes: u8,
    pub dream_dash: bool,
    pub backpack: bool,
    pub no_refills: bool,
}

#[derive(Debug, Clone)]
pub struct Counter {
    pub key: String,
    pub value: u64,
}

#[derive(Debug, Clone)]
pub struct OldStats {
    pub area: AreaDef,
    pub modes: Modes,
}


/// The core mode of a level: whether it is hot or cold.
#[derive(Clone, Copy, Debug, PartialEq, Eq, Structural)]
pub enum CoreModes {
    /// Written as `None`.
    Neither,
    Hot,
    Cold,
}

impl CoreModes {
    /// The name the variant is written under.
    pub open spec fn variant_name(self) -> Seq<char> {
        match self {
            CoreModes::Neither => "None"@,
            CoreModes::Hot => "Hot"@,
            CoreModes::Cold => "Cold"@,
        }
    }

    /// The variant written under `s`.
    pub open spec fn from_name(s: Seq<char>) -> Option<CoreModes> {
        if s == "None"@ {
            Some(CoreModes::Neither)
        } else if s == "Hot"@ {
            Some(CoreModes::Hot)
        } else if s == "Cold"@ {
            Some(CoreModes::Cold)
        } else {
            None
        }
    }
}

impl FromYaml for CoreModes {
    open spec fn readable(y: YamlV) -> bool {
        y matches YamlV::String(s) && CoreModes::from_name(s) is Some
    }

    open spec fn reads_as(y: YamlV, x: CoreModes) -> bool {
        y == YamlV::String(x.variant_name())
    }

    open spec fn read_error(y: YamlV) -> YamlParseErrorV {
        match y {
            YamlV::String(s) => YamlParseErrorV::UnknownVariant("CoreModes"@, s),
            _ => YamlParseErrorV::Custom("Could not find a matching 'CoreModes' variant when parsing"@),
        }
    }

    open spec fn writable(x: CoreModes) -> bool {
        true
    }

    open spec fn written(x: CoreModes) -> YamlV {
        YamlV::String(x.variant_name())
    }

    open spec fn write_error(x: CoreModes) -> Seq<char> {
        Seq::empty()
    }

    open spec fn keeps(x: CoreModes) -> bool {
        true
    }

    proof fn lemma_written_reads_back(x: CoreModes) {
        reveal_strlit("None");
        reveal_strlit("Hot");
        reveal_strlit("Cold");
        assert("None"@.len() == 4);
        assert("Hot"@.len() == 3);
        assert("Cold"@.len() == 4);
        assert("Cold"@[0] == 'C');
        assert("None"@[0] == 'N');
    }

    proof fn lemma_read_keeps(y: YamlV, x: CoreModes) {
    }

    fn parse_from_yaml(yaml: &Yaml) -> (r: Result<CoreModes, YamlParseError>) {
        let s = match yaml.as_str() {
            Some(s) => s,
            None => {
                return Err(YamlParseError::Custom("Could not find a matching 'CoreModes' variant when parsing".to_owned()));
            },
        };
        if str_eq(s, "None") {
            Ok(CoreModes::Neither)
        } else if str_eq(s, "Hot") {
            Ok(CoreModes::Hot)
        } else if str_eq(s, "Cold") {
            Ok(CoreModes::Cold)
        } else {
            Err(YamlParseError::UnknownVariant("CoreModes", s.to_owned()))
        }
    }

    fn to_yaml(&self) -> (r: Result<Yaml, YamlWriteError>) {
        let name = match self {
            CoreModes::Neither => "None",
            CoreModes::Hot => "Hot",
            CoreModes::Cold => "Cold",
        };
        Ok(Yaml::string(name.to_owned()))
    }
}

} // verus!
