//! Per-area statistics as the vanilla game stores them.
use vstd::prelude::*;

use crate::saves::session::Strawberries;
use crate::saves::util::FileTime;
use crate::saves::{AreaId, DashCount, DeathCount, StrawberryCount};
use crate::maps::lookup::string_views;
use crate::utils::text::str_eq;

verus! {

/// The number of vanilla areas.
pub const VANILLA_AREA_COUNT: usize = 11;

/// The sid of the vanilla area with id `i`.
pub open spec fn vanilla_sid_text(i: int) -> Seq<char> {
    if i == 0 {
        "Celeste/0-Intro"@
    } else if i == 1 {
        "Celeste/1-ForsakenCity"@
    } else if i == 2 {
        "Celeste/2-OldSite"@
    } else if i == 3 {
        "Celeste/3-CelestialResort"@
    } else if i == 4 {
        "Celeste/4-GoldenRidge"@
    } else if i == 5 {
        "Celeste/5-MirrorTemple"@
    } else if i == 6 {
        "Celeste/6-Reflection"@
    } else if i == 7 {
        "Celeste/7-Summit"@
    } else if i == 8 {
        "Celeste/8-Epilogue"@
    } else if i == 9 {
        "Celeste/9-Core"@
    } else {
        "Celeste/LostLevels"@
    }
}

/// Whether `s` is the sid of a vanilla area.
pub open spec fn is_vanilla_sid(s: Seq<char>) -> bool {
    exists|i: int| 0 <= i < VANILLA_AREA_COUNT && vanilla_sid_text(i) == s
}

/// The first vanilla area id whose sid is `s`, if any.
pub open spec fn vanilla_id_of(s: Seq<char>) -> Option<nat> {
    if is_vanilla_sid(s) {
        Some(choose|i: nat| i < VANILLA_AREA_COUNT && vanilla_sid_text(i as int) == s && forall|j: int|
            0 <= j < i ==> vanilla_sid_text(j) != s)
    } else {
        None
    }
}

/// The sid of the vanilla area with id `i`.
pub fn vanilla_sid(i: usize) -> (r: &'static str)
    requires
        i < VANILLA_AREA_COUNT,
    ensures
        r@ == vanilla_sid_text(i as int),
{
    if i == 0 {
        "Celeste/0-Intro"
    } else if i == 1 {
        "Celeste/1-ForsakenCity"
    } else if i == 2 {
        "Celeste/2-OldSite"
    } else if i == 3 {
        "Celeste/3-CelestialResort"
    } else if i == 4 {
        "Celeste/4-GoldenRidge"
    } else if i == 5 {
        "Celeste/5-MirrorTemple"
    } else if i == 6 {
        "Celeste/6-Reflection"
    } else if i == 7 {
        "Celeste/7-Summit"
    } else if i == 8 {
        "Celeste/8-Epilogue"
    } else if i == 9 {
        "Celeste/9-Core"
    } else {
        "Celeste/LostLevels"
    }
}

/// The position of `sid` among the vanilla sids.
fn vanilla_position(sid: &str) -> (r: Option<usize>)
    ensures
        match r {
            Some(i) => vanilla_id_of(sid@) == Some(i as nat),
            None => vanilla_id_of(sid@) is None,
        },
{
    let mut i: usize = 0;
    while i < VANILLA_AREA_COUNT
        invariant
            i <= VANILLA_AREA_COUNT,
            forall|j: int| 0 <= j < i ==> vanilla_sid_text(j) != sid@,
        decreases VANILLA_AREA_COUNT - i,
    {
        if str_eq(vanilla_sid(i), sid) {
            proof {
                let w = i as nat;
                assert(w < VANILLA_AREA_COUNT && vanilla_sid_text(w as int) == sid@ && forall|j: int|
                    0 <= j < w ==> vanilla_sid_text(j) != sid@);
                let c = vanilla_id_of(sid@)->Some_0;
                if c < w {
                    assert(vanilla_sid_text(c as int) != sid@);
                } else if c > w {
                    assert(vanilla_sid_text(w as int) != sid@);
                }
            }
            return Some(i);
        }
        i = i + 1;
    }
    None
}

#[derive(Debug, Clone)]
pub struct Areas {
    pub areas: Vec<AreaStats>,
}

#[derive(Debug, Clone)]
pub struct LastAreaRef {
    pub id: AreaId,
    pub mode: String,
    /// Is `None` in a non-modded save
    pub s_id: Option<String>,
}

#[derive(Debug, Clone)]
pub struct AreaStats {
    pub def: AreaDef,
    pub modes: Modes,
}

#[derive(Debug, Clone)]
pub struct Modes {
    pub modes: Vec<AreaMode>,
}

#[derive(Debug, Clone)]
pub struct AreaDef {
    pub id: AreaId,
    pub cassette: bool,
    /// Is `None` in a non-modded save
    pub sid: Option<String>,
}

#[derive(Debug, Clone)]
pub struct AreaMode {
    pub stats: AreaModeStats,
    pub strawberries: Strawberries,
    pub checkpoints: Checkpoints,
}

#[derive(Debug, Clone)]
pub struct Checkpoints {
    pub checkpoints: Vec<String>,
}

#[derive(Debug, Clone, Copy, PartialEq, Eq, Structural)]
pub struct AreaModeStats {
    pub total_strawberries: StrawberryCount,
    pub completed: bool,
    pub single_run_completed: bool,
    pub full_clear: bool,
    pub deaths: DeathCount,
    pub time_played: FileTime,
    pub best_time: FileTime,
    pub best_full_clear_time: FileTime,
    pub best_dashes: DashCount,
    pub best_deaths: DeathCount,
    pub heart_gem: bool,
}

/// Which of an area's sides a reference points to.
#[derive(Debug, Clone, Copy, PartialEq, Eq, Structural)]
pub enum AreaModeType {
    Normal,
    BSide,
    CSide,
}

/// A reference to an area and one of its sides.
#[derive(Debug, Clone)]
pub struct AreaRef {
    pub id: AreaId,
    pub mode: AreaModeType,
    /// Is `None` in a non-modded save
    pub sid: Option<String>,
}

/// The text of an optional string.
pub open spec fn opt_text(s: Option<String>) -> Option<Seq<char>> {
    match s {
        Some(t) => Some(t@),
        None => None,
    }
}

impl AreaDef {
    /// Gets a reference to an sid for the level
    pub fn sid(&self) -> (r: &str)
        requires
            self.sid is Some || self.id < VANILLA_AREA_COUNT,
        ensures
            r@ == match self.sid {
                Some(s) => s@,
                None => vanilla_sid_text(self.id as int),
            },
    {
        match &self.sid {
            Some(s) => s.as_str(),
            None => vanilla_sid(self.id as usize),
        }
    }

    /// Creates a new AreaDef for a given sid
    ///
    /// `vanilla` determines whether or not the `sid` field is present.
    ///
    /// Note that this only works for vanilla SIDs since there does not seem to be a consistent way to
    /// generate the `id` field for modded areas.
    pub fn for_sid(sid: &str, vanilla: bool) -> (r: Option<AreaDef>)
        ensures
            match vanilla_id_of(sid@) {
                Some(i) => r matches Some(d) && d.id == i && !d.cassette && opt_text(d.sid) == if vanilla {
                    None
                } else {
                    Some(sid@)
                },
                None => r is None,
            },
    {
        match vanilla_position(sid) {
            Some(i) => Some(AreaDef {
                id: i as u16,
                cassette: false,
                sid: if !vanilla {
                    Some(sid.to_owned())
                } else {
                    None
                },
            }),
            None => None,
        }
    }
}

impl AreaRef {
    /// Gets a reference to an sid for the level
    pub fn sid(&self) -> (r: &str)
        requires
            self.sid is Some || self.id < VANILLA_AREA_COUNT,
        ensures
            r@ == match self.sid {
                Some(s) => s@,
                None => vanilla_sid_text(self.id as int),
            },
    {
        match &self.sid {
            Some(s) => s.as_str(),
            None => vanilla_sid(self.id as usize),
        }
    }

    /// Creates an AreaRef for a given sid, mode, and whether to format it for a vanilla session or not
    ///
    /// `vanilla` determines whether or not the `sid` field is present.
    ///
    /// Note that this only works for vanilla SIDs since there does not seem to be a consistent way to
    /// generate the `id` field for modded areas.
    pub fn for_sid(sid: &str, mode: AreaModeType, vanilla: bool) -> (r: Option<AreaRef>)
        ensures
            match vanilla_id_of(sid@) {
                Some(i) => r matches Some(a) && a.id == i && a.mode == mode && opt_text(a.sid) == if vanilla {
                    None
                } else {
                    Some(sid@)
                },
                None => r is None,
            },
    {
        match vanilla_position(sid) {
            Some(i) => Some(AreaRef {
                id: i as u16,
                mode,
                sid: if !vanilla {
                    Some(sid.to_owned())
                } else {
                    None
                },
            }),
            None => None,
        }
    }
}

// We say the default is just providing a reference to 0-Intro
impl Default for AreaRef {
    fn default() -> (r: Self)
        ensures
            r.id == 0 && r.mode == AreaModeType::Normal && r.sid is None,
    {
        AreaRef { id: 0, mode: AreaModeType::Normal, sid: None }
    }
}

// Default areas is just a list of all vanilla areas
impl Default for Areas {
    fn default() -> (r: Self)
        ensures
            r.areas@.len() == VANILLA_AREA_COUNT,
            forall|i: int| 0 <= i < VANILLA_AREA_COUNT ==> {
                &&& (#[trigger] r.areas@[i]).def.id == i
                &&& !r.areas@[i].def.cassette
                &&& r.areas@[i].def.sid is None
                &&& r.areas@[i].modes.is_default()
            },
    {
        let mut vanilla_areas: Vec<AreaStats> = Vec::new();
        for i in 0..VANILLA_AREA_COUNT
            invariant
                vanilla_areas@.len() == i,
                forall|j: int| 0 <= j < i ==> {
                    &&& (#[trigger] vanilla_areas@[j]).def.id == j
                    &&& !vanilla_areas@[j].def.cassette
                    &&& vanilla_areas@[j].def.sid is None
                    &&& vanilla_areas@[j].modes.is_default()
                },
        {
            vanilla_areas.push(AreaStats::for_def(AreaDef { id: i as u16, cassette: false, sid: None }));
        }
        Areas { areas: vanilla_areas }
    }
}

impl AreaStats {
    /// Creates an AreaStats for a given sid
    ///
    /// `vanilla` is used to determine the format of the inner [AreaDef]
    pub fn for_sid(sid: &str, vanilla: bool) -> (r: Option<AreaStats>)
        ensures
            match vanilla_id_of(sid@) {
                Some(i) => r matches Some(a) && a.def.id == i && !a.def.cassette && opt_text(a.def.sid)
                    == if vanilla {
                    None
                } else {
                    Some(sid@)
                } && a.modes.is_default(),
                None => r is None,
            },
    {
        match AreaDef::for_sid(sid, vanilla) {
            Some(def) => Some(AreaStats { def, modes: Modes::default() }),
            None => None,
        }
    }

    /// Creates an AreaStats for a given `AreaDef`
    ///
    /// Is shorthand for making an `AreaStats` with modes being set to the default.
    pub fn for_def(def: AreaDef) -> (r: AreaStats)
        ensures
            r.def == def,
            r.modes.is_default(),
    {
        AreaStats { def, modes: Modes::default() }
    }
}

impl Modes {
    /// Whether these are the modes of an area never played: three sides with default stats.
    pub open spec fn is_default(self) -> bool {
        &&& self.modes@.len() == 3
        &&& forall|i: int| 0 <= i < 3 ==> (#[trigger] self.modes@[i]).is_default()
    }
}

// Default for modes is just 3 defaulted AreaModes
impl Default for Modes {
    fn default() -> (r: Self)
        ensures
            r.is_default(),
    {
        let mut modes: Vec<AreaMode> = Vec::new();
        for i in 0..3usize
            invariant
                modes@.len() == i,
                forall|j: int| 0 <= j < i ==> (#[trigger] modes@[j]).is_default(),
        {
            modes.push(AreaMode::default());
        }
        Modes { modes }
    }
}

impl AreaMode {
    /// Whether this is the mode of a side never played.
    pub open spec fn is_default(self) -> bool {
        &&& self.stats == AreaModeStats::default_value()
        &&& self.strawberries.strawberries@.len() == 0
        &&& self.checkpoints.checkpoints@.len() == 0
    }
}

impl Default for AreaMode {
    fn default() -> (r: Self)
        ensures
            r.is_default(),
    {
        AreaMode {
            stats: AreaModeStats::default(),
            strawberries: Strawberries { strawberries: Vec::new() },
            checkpoints: Checkpoints { checkpoints: Vec::new() },
        }
    }
}

impl AreaModeStats {
    /// The statistics of a side never played.
    pub open spec fn default_value() -> AreaModeStats {
        AreaModeStats {
            total_strawberries: 0,
            completed: false,
            single_run_completed: false,
            full_clear: false,
            deaths: 0,
            time_played: FileTime(0),
            best_time: FileTime(0),
            best_full_clear_time: FileTime(0),
            best_dashes: 0,
            best_deaths: 0,
            heart_gem: false,
        }
    }
}

impl Default for AreaModeStats {
    fn default() -> (r: Self)
        ensures
            r == AreaModeStats::default_value(),
    {
        AreaModeStats {
            total_strawberries: 0,
            completed: false,
            single_run_completed: false,
            full_clear: false,
            deaths: 0,
            time_played: FileTime(0),
            best_time: FileTime(0),
            best_full_clear_time: FileTime(0),
            best_dashes: 0,
            best_deaths: 0,
            heart_gem: false,
        }
    }
}

/// A copy of a list of strings.
pub fn duplicate_strings(v: &Vec<String>) -> (r: Vec<String>)
    ensures
        string_views(r@) == string_views(v@),
{
    let mut out: Vec<String> = Vec::new();
    for i in 0..v.len()
        invariant
            string_views(out@) == string_views(v@).take(i as int),
    {
        let c = v[i].clone();
        proof {
            assert(string_views(out@.push(c)) =~= string_views(out@).push(c@));
            assert(string_views(v@).take(i + 1) =~= string_views(v@).take(i as int).push(v@[i as int]@));
        }
        out.push(c);
    }
    proof {
        assert(string_views(v@).take(v@.len() as int) =~= string_views(v@));
    }
    out
}

/// The mathematical value of an [AreaDef].
pub struct DefV {
    pub id: AreaId,
    pub cassette: bool,
    pub sid: Option<Seq<char>>,
}

/// The mathematical value of an [AreaMode].
pub struct ModeV {
    pub stats: AreaModeStats,
    pub strawberries: Seq<Seq<char>>,
    pub checkpoints: Seq<Seq<char>>,
}

/// The mathematical value of an [AreaStats].
pub struct AreaV {
    pub def: DefV,
    pub modes: Seq<ModeV>,
}

impl View for Checkpoints {
    type V = Seq<Seq<char>>;

    open spec fn view(&self) -> Seq<Seq<char>> {
        string_views(self.checkpoints@)
    }
}

impl View for AreaDef {
    type V = DefV;

    open spec fn view(&self) -> DefV {
        DefV { id: self.id, cassette: self.cassette, sid: opt_text(self.sid) }
    }
}

impl View for AreaMode {
    type V = ModeV;

    open spec fn view(&self) -> ModeV {
        ModeV { stats: self.stats, strawberries: self.strawberries@, checkpoints: self.checkpoints@ }
    }
}

impl View for Modes {
    type V = Seq<ModeV>;

    open spec fn view(&self) -> Seq<ModeV> {
        self.modes@.map_values(|m: AreaMode| m@)
    }
}

impl View for AreaStats {
    type V = AreaV;

    open spec fn view(&self) -> AreaV {
        AreaV { def: self.def@, modes: self.modes@ }
    }
}

/// The values of a list of areas.
pub open spec fn areas_view(s: Seq<AreaStats>) -> Seq<AreaV> {
    s.map_values(|a: AreaStats| a@)
}

impl Checkpoints {
    /// A copy of the list.
    pub fn duplicate(&self) -> (r: Self)
        ensures
            r@ == self@,
    {
        Checkpoints { checkpoints: duplicate_strings(&self.checkpoints) }
    }
}

impl AreaDef {
    /// A copy of the definition.
    pub fn duplicate(&self) -> (r: Self)
        ensures
            r@ == self@,
    {
        AreaDef {
            id: self.id,
            cassette: self.cassette,
            sid: match &self.sid {
                Some(s) => Some(s.clone()),
                None => None,
            },
        }
    }
}

impl AreaMode {
    /// A copy of the mode.
    pub fn duplicate(&self) -> (r: Self)
        ensures
            r@ == self@,
    {
        AreaMode {
            stats: self.stats,
            strawberries: self.strawberries.duplicate(),
            checkpoints: self.checkpoints.duplicate(),
        }
    }
}

impl Modes {
    /// A copy of the modes.
    pub fn duplicate(&self) -> (r: Self)
        ensures
            r@ == self@,
    {
        let mut out: Vec<AreaMode> = Vec::new();
        for i in 0..self.modes.len()
            invariant
                out@.map_values(|m: AreaMode| m@) == self@.take(i as int),
        {
            let m = self.modes[i].duplicate();
            proof {
                assert(out@.push(m).map_values(|m: AreaMode| m@) =~= out@.map_values(|m: AreaMode| m@).push(m@));
                assert(self@.take(i + 1) =~= self@.take(i as int).push(self@[i as int]));
            }
            out.push(m);
        }
        proof {
            assert(self@.take(self@.len() as int) =~= self@);
        }
        Modes { modes: out }
    }
}

impl AreaStats {
    /// A copy of the area's statistics.
    pub fn duplicate(&self) -> (r: Self)
        ensures
            r@ == self@,
    {
        AreaStats { def: self.def.duplicate(), modes: self.modes.duplicate() }
    }
}

impl Areas {
    /// A copy of the list.
    pub fn duplicate(&self) -> (r: Self)
        ensures
            areas_view(r.areas@) == areas_view(self.areas@),
    {
        let mut out: Vec<AreaStats> = Vec::new();
        for i in 0..self.areas.len()
            invariant
                areas_view(out@) == areas_view(self.areas@).take(i as int),
        {
            let a = self.areas[i].duplicate();
            proof {
                assert(areas_view(out@.push(a)) =~= areas_view(out@).push(a@));
                assert(areas_view(self.areas@).take(i + 1) =~= areas_view(self.areas@).take(i as int).push(self.areas@[i as int]@));
            }
            out.push(a);
        }
        proof {
            assert(areas_view(self.areas@).take(self.areas@.len() as int) =~= areas_view(self.areas@));
        }
        Areas { areas: out }
    }
}

impl AreaRef {
    /// A copy of the reference.
    pub fn duplicate(&self) -> (r: Self)
        ensures
            r.id == self.id,
            r.mode == self.mode,
            opt_text(r.sid) == opt_text(self.sid),
    {
        AreaRef {
            id: self.id,
            mode: self.mode,
            sid: match &self.sid {
                Some(s) => Some(s.clone()),
                None => None,
            },
        }
    }
}

} // verus!
