//! The data types of Celeste save files and the operations on them.
//!
//! While every struct and field is public, it is not always ideal to directly
//! edit the structures as some are somewhat unintuitive.
use vstd::prelude::*;

pub mod everest;
pub mod mods;
pub mod merge;
pub mod session;
pub mod areas_mut;
pub mod edit;
pub mod util;
pub mod vanilla;

use everest::{LevelSetStats, LevelSets};
use session::{SavedSession, SummitGems};
use util::FileTime;
use vanilla::{opt_text, AreaRef, AreaStats, Areas};
use crate::utils::text::{str_eq, str_starts_with};

verus! {

pub type AreaCount = i16;

pub type StrawberryCount = u16;

pub type DeathCount = u64;

pub type DashCount = u64;

pub type JumpCount = u64;

pub type AreaId = u16;

/// `chrono::NaiveDateTime`, a date and time without a time zone.
#[verifier::external_type_specification]
#[verifier::external_body]
pub struct ExNaiveDateTime(chrono::NaiveDateTime);

/// `NaiveDateTime::clone` from chrono: the type is `Copy`, and its clone is
/// the same date and time.
pub assume_specification[ <chrono::NaiveDateTime as Clone>::clone ](d: &chrono::NaiveDateTime) -> (r: chrono::NaiveDateTime)
    ensures
        r == *d,
;

/// `NaiveDateTime::default` from chrono: the Unix epoch. Nothing in the
/// library reads a date's parts, so nothing is stated of it.
#[verifier::external_body]
fn default_date_time() -> chrono::NaiveDateTime {
    chrono::NaiveDateTime::default()
}

/// The line every save file starts with.
pub const XML_VERSION_HEADER: &'static str = "<?xml version=\"1.0\" encoding=\"utf-8\"?>";

/// The namespace of the xsi attributes.
pub const XSI_URL: &'static str = "http://www.w3.org/2001/XMLSchema-instance";

/// The namespace of the xsd attributes.
pub const XSD_URL: &'static str = "http://www.w3.org/2001/XMLSchema";

/// The root of a celeste save file
#[derive(Debug, Clone)]
pub struct SaveData {
    /// XML metadata about the xsi library, should always be [XSI_URL]
    pub xsi_url: String,
    /// XML metadata about the xsd library, should always be [XSD_URL]
    pub xsd_url: String,
    /// The last celeste version that the save file was opened with
    pub version: String,
    /// The name of the save file
    pub name: String,
    /// The total playtime on the save file
    pub time: FileTime,
    /// The last time the save file was written to
    pub last_save: chrono::NaiveDateTime,
    /// Whether cheat mode is enabled
    pub cheat_mode: bool,
    /// Whether assist mode is enabled
    pub assist_mode: bool,
    /// Whether variants are enabled
    pub variant_mode: bool,
    /// What assists are enabled
    pub assists: Assists,
    /// What Theo's sister is named
    pub theo_sister_name: String,
    /// The number of unlocked areas (vanilla areas only)
    pub unlocked_areas: AreaCount,
    /// The total amount of deaths in the save file
    pub total_deaths: DeathCount,
    /// The total amount of vanilla strawberries collected
    pub total_strawberries: StrawberryCount,
    /// The total amount of golden strawberries collected, modded ones included
    pub total_golden_strawberries: StrawberryCount,
    /// The total amount of jumps on the save file
    pub total_jumps: JumpCount,
    /// The total amount of wall jumps on the save file
    pub total_wall_jumps: JumpCount,
    /// The total amount of dashes on the save file
    pub total_dashes: DashCount,
    /// The flags used in the vanilla storyline
    pub flags: Flags,
    /// The order of the heart poem in the journal
    pub poem: Poem,
    /// The gems unlocked in the summit a-side
    pub summit_gems: Option<SummitGems>,
    /// Whether farewell has been revealed
    pub revealed_farewell: bool,
    /// The last vanilla area that was played
    pub last_area: AreaRef,
    /// The saved session used by vanilla celeste
    pub current_session: Option<SavedSession>,
    /// Data about each vanilla area
    pub areas: Areas,
    /// Data about all the modded level sets that were loaded last time this save was played on
    pub level_sets: LevelSets,
    /// Data about the all the modded level sets ever loaded on this save file
    pub level_set_recycle_bin: LevelSets,
    /// Whether this save file has been loaded into everest before
    pub has_modded_save_data: bool,
    /// A reference to the last area played, including modded levels
    pub last_area_safe: Option<AreaRef>,
    /// The current session saved on the file
    pub current_session_safe: Option<SavedSession>,
}

/// The `*-modsavedata.celeste` format
///
/// This is used to keep modded stats across starting the vanilla game
#[derive(Debug, Clone)]
pub struct ModSaveData {
    /// XML metadata about the xsi library, should always be [XSI_URL]
    pub xsi_url: String,
    /// XML metadata about the xsd library, should always be [XSD_URL]
    pub xsd_url: String,
    /// Data about all the modded level sets that were loaded last time this save was played on
    pub level_sets: LevelSets,
    /// Data about the all the modded level sets ever loaded on this save file
    pub level_set_recycle_bin: LevelSets,
    /// A reference to the last area played, including modded levels
    pub last_area_safe: Option<AreaRef>,
}

#[derive(Debug, Clone, Copy, PartialEq, Eq, Structural)]
pub struct Assists {
    pub game_speed: u8,
    pub invincible: bool,
    pub dash_mode: DashMode,
    pub dash_assist: bool,
    pub infinite_stamina: bool,
    pub mirror_mode: bool,
    pub full_dashing: bool,
    pub invisible_motion: bool,
    pub no_grabbing: bool,
    pub low_friction: bool,
    pub super_dash: bool,
    pub hiccups: bool,
    pub badeline: bool,
}

#[derive(Debug, Clone, Copy, PartialEq, Eq, Structural)]
pub enum DashMode {
    Normal,
    Two,
    Infinite,
}

#[derive(Debug, Clone)]
pub struct Flags {
    pub flags: Vec<VanillaFlagsWrapper>,
}

#[derive(Debug, Clone, Copy, PartialEq, Eq, Structural)]
pub struct VanillaFlagsWrapper {
    pub flag: VanillaFlags,
}

#[derive(Debug, Clone)]
pub struct Poem {
    pub string: Vec<String>,
}

#[derive(Debug, Clone, Copy, PartialEq, Eq, Structural)]
pub enum VanillaFlags {
    MetTheo,
    TheoKnowsName,
}

/// Which list of a save an area comes from.
#[derive(Clone, Copy, Debug, PartialEq, Eq, Structural)]
pub enum AreaSource {
    Vanilla,
    LevelSets,
    LevelSetRecycleBin,
}

impl Default for DashMode {
    fn default() -> (r: Self)
        ensures
            r == DashMode::Normal,
    {
        DashMode::Normal
    }
}

impl DashMode {
    /// The name of the dash mode.
    pub fn to_string(&self) -> (r: String)
        ensures
            r@ == match *self {
                DashMode::Normal => "Normal"@,
                DashMode::Two => "Two"@,
                DashMode::Infinite => "Infinite"@,
            },
    {
        match self {
            DashMode::Normal => "Normal".to_owned(),
            DashMode::Two => "Two".to_owned(),
            DashMode::Infinite => "Infinite".to_owned(),
        }
    }
}

impl Default for Flags {
    fn default() -> (r: Self)
        ensures
            r.flags@.len() == 0,
    {
        Flags { flags: Vec::new() }
    }
}

impl Default for Poem {
    fn default() -> (r: Self)
        ensures
            r.string@.len() == 0,
    {
        Poem { string: Vec::new() }
    }
}

impl VanillaFlagsWrapper {
    pub fn from(val: VanillaFlags) -> (r: Self)
        ensures
            r.flag == val,
    {
        VanillaFlagsWrapper { flag: val }
    }
}

impl Assists {
    /// No assist on, at normal game speed.
    pub open spec fn default_value() -> Assists {
        Assists {
            game_speed: 10,
            invincible: false,
            dash_mode: DashMode::Normal,
            dash_assist: false,
            infinite_stamina: false,
            mirror_mode: false,
            full_dashing: false,
            invisible_motion: false,
            no_grabbing: false,
            low_friction: false,
            super_dash: false,
            hiccups: false,
            badeline: false,
        }
    }
}

impl Default for Assists {
    fn default() -> (r: Self)
        ensures
            r == Assists::default_value(),
    {
        Assists {
            game_speed: 10,
            invincible: false,
            dash_mode: DashMode::default(),
            dash_assist: false,
            infinite_stamina: false,
            mirror_mode: false,
            full_dashing: false,
            invisible_motion: false,
            no_grabbing: false,
            low_friction: false,
            super_dash: false,
            hiccups: false,
            badeline: false,
        }
    }
}

// ---------------------------------------------------------------------------
// Finding areas
// ---------------------------------------------------------------------------

/// Whether the area's sid is `sid`.
pub open spec fn sid_matches(a: AreaStats, sid: Seq<char>) -> bool {
    opt_text(a.def.sid) == Some(sid)
}

pub(crate) fn area_sid_matches(area: &AreaStats, sid: &str) -> (r: bool)
    ensures
        r == sid_matches(*area, sid@),
{
    match &area.def.sid {
        Some(a_sid) => str_eq(a_sid.as_str(), sid),
        None => false,
    }
}

/// The areas of level sets, one set after another.
pub open spec fn sets_areas(s: Seq<LevelSetStats>) -> Seq<AreaStats>
    decreases s.len(),
{
    if s.len() == 0 {
        Seq::empty()
    } else {
        s[0].areas.areas@ + sets_areas(s.drop_first())
    }
}

/// The first area of `s` with the sid `sid`.
pub open spec fn first_with_sid(s: Seq<AreaStats>, sid: Seq<char>) -> Option<AreaStats>
    decreases s.len(),
{
    if s.len() == 0 {
        None
    } else if sid_matches(s[0], sid) {
        Some(s[0])
    } else {
        first_with_sid(s.drop_first(), sid)
    }
}

/// Searching two lists one after the other.
pub proof fn lemma_first_with_sid_concat(a: Seq<AreaStats>, b: Seq<AreaStats>, sid: Seq<char>)
    ensures
        first_with_sid(a + b, sid) == match first_with_sid(a, sid) {
            Some(x) => Some(x),
            None => first_with_sid(b, sid),
        },
    decreases a.len(),
{
    if a.len() > 0 {
        assert((a + b).drop_first() =~= a.drop_first() + b);
        lemma_first_with_sid_concat(a.drop_first(), b, sid);
    } else {
        assert(a + b =~= b);
    }
}

/// Whether a found reference is the spec's answer.
pub open spec fn found_area(r: Option<&AreaStats>, want: Option<AreaStats>) -> bool {
    match want {
        Some(x) => r matches Some(a) && *a == x,
        None => r is None,
    }
}

/// The first area with the sid `sid` in a list of areas.
fn find_in_areas<'a>(areas: &'a Vec<AreaStats>, sid: &str) -> (r: Option<&'a AreaStats>)
    ensures
        found_area(r, first_with_sid(areas@, sid@)),
{
    let mut i: usize = 0;
    proof {
        assert(areas@.skip(0) =~= areas@);
    }
    while i < areas.len()
        invariant
            i <= areas@.len(),
            first_with_sid(areas@, sid@) == first_with_sid(areas@.skip(i as int), sid@),
        decreases areas@.len() - i,
    {
        assert(areas@.skip(i as int).drop_first() =~= areas@.skip(i + 1));
        if area_sid_matches(&areas[i], sid) {
            return Some(&areas[i]);
        }
        i = i + 1;
    }
    None
}

/// The first area with the sid `sid` among the areas of level sets.
pub(crate) fn find_in_sets<'a>(sets: &'a Vec<LevelSetStats>, sid: &str) -> (r: Option<&'a AreaStats>)
    ensures
        found_area(r, first_with_sid(sets_areas(sets@), sid@)),
{
    let mut i: usize = 0;
    proof {
        assert(sets@.skip(0) =~= sets@);
    }
    while i < sets.len()
        invariant
            i <= sets@.len(),
            first_with_sid(sets_areas(sets@), sid@) == first_with_sid(sets_areas(sets@.skip(i as int)), sid@),
        decreases sets@.len() - i,
    {
        let ghost rest = sets@.skip(i as int);
        proof {
            assert(rest.drop_first() =~= sets@.skip(i + 1));
            assert(sets_areas(rest) == sets[i as int].areas.areas@ + sets_areas(sets@.skip(i + 1)));
            lemma_first_with_sid_concat(sets[i as int].areas.areas@, sets_areas(sets@.skip(i + 1)), sid@);
        }
        let found = find_in_areas(&sets[i].areas.areas, sid);
        if found.is_some() {
            return found;
        }
        i = i + 1;
    }
    proof {
        assert(sets@.skip(i as int) =~= Seq::<LevelSetStats>::empty());
    }
    None
}

/// Which areas of a save a sid is looked up in: vanilla sids (those that start
/// with "Celeste") in the vanilla areas, others in the level sets and then the
/// recycle bin.
pub open spec fn sid_lookup(vanilla: Seq<AreaStats>, sets: Seq<LevelSetStats>, bin: Seq<LevelSetStats>, sid: Seq<char>) -> Option<AreaStats> {
    if "Celeste"@.is_prefix_of(sid) {
        first_with_sid(vanilla, sid)
    } else {
        match first_with_sid(sets_areas(sets), sid) {
            Some(a) => Some(a),
            None => first_with_sid(sets_areas(bin), sid),
        }
    }
}

/// The first area with `sid` in the level sets `sets`, otherwise the first in
/// the recycle bin `bin`.
pub open spec fn sets_sid_lookup(sets: Seq<LevelSetStats>, bin: Seq<LevelSetStats>, sid: Seq<char>) -> Option<AreaStats> {
    match first_with_sid(sets_areas(sets), sid) {
        Some(a) => Some(a),
        None => first_with_sid(sets_areas(bin), sid),
    }
}

/// The areas of one list of a save, as [AreaSource] names them.
pub open spec fn source_areas(vanilla: Seq<AreaStats>, sets: Seq<LevelSetStats>, bin: Seq<LevelSetStats>, source: AreaSource) -> Seq<AreaStats> {
    match source {
        AreaSource::Vanilla => vanilla,
        AreaSource::LevelSets => sets_areas(sets),
        AreaSource::LevelSetRecycleBin => sets_areas(bin),
    }
}

/// Each area of `s` with the source `tag`.
pub open spec fn tagged(s: Seq<AreaStats>, tag: AreaSource) -> Seq<(AreaStats, AreaSource)> {
    s.map_values(|a: AreaStats| (a, tag))
}

/// Each level set of `s`, marked with whether it is in the recycle bin.
pub open spec fn marked(s: Seq<LevelSetStats>, bin: bool) -> Seq<(LevelSetStats, bool)> {
    s.map_values(|l: LevelSetStats| (l, bin))
}

/// Appends references to each area of `areas`, with the source `tag`.
fn push_areas<'a>(out: &mut Vec<(&'a AreaStats, AreaSource)>, areas: &'a Vec<AreaStats>, tag: AreaSource)
    ensures
        final(out)@.map_values(|p: (&AreaStats, AreaSource)| (*p.0, p.1)) == old(out)@.map_values(
            |p: (&AreaStats, AreaSource)| (*p.0, p.1),
        ) + tagged(areas@, tag),
{
    let ghost start = old(out)@.map_values(|p: (&AreaStats, AreaSource)| (*p.0, p.1));
    for i in 0..areas.len()
        invariant
            out@.map_values(|p: (&AreaStats, AreaSource)| (*p.0, p.1)) == start + tagged(areas@.take(i as int), tag),
    {
        let ghost prev = out@;
        out.push((&areas[i], tag));
        proof {
            assert(out@.map_values(|p: (&AreaStats, AreaSource)| (*p.0, p.1)) =~= prev.map_values(
                |p: (&AreaStats, AreaSource)| (*p.0, p.1),
            ).push((areas@[i as int], tag)));
            assert(tagged(areas@.take(i + 1), tag) =~= tagged(areas@.take(i as int), tag).push((areas@[i as int], tag)));
            assert(out@.map_values(|p: (&AreaStats, AreaSource)| (*p.0, p.1)) =~= start + tagged(
                areas@.take(i + 1),
                tag,
            ));
        }
    }
    proof {
        assert(areas@.take(areas@.len() as int) =~= areas@);
    }
}

/// Appends references to each area of each level set, with the source `tag`.
fn push_set_areas<'a>(out: &mut Vec<(&'a AreaStats, AreaSource)>, sets: &'a Vec<LevelSetStats>, tag: AreaSource)
    ensures
        final(out)@.map_values(|p: (&AreaStats, AreaSource)| (*p.0, p.1)) == old(out)@.map_values(
            |p: (&AreaStats, AreaSource)| (*p.0, p.1),
        ) + tagged(sets_areas(sets@), tag),
{
    let ghost start = old(out)@.map_values(|p: (&AreaStats, AreaSource)| (*p.0, p.1));
    proof {
        assert(sets_areas(sets@.take(0)) =~= Seq::<AreaStats>::empty());
        assert(start + tagged(Seq::<AreaStats>::empty(), tag) =~= start);
    }
    for i in 0..sets.len()
        invariant
            out@.map_values(|p: (&AreaStats, AreaSource)| (*p.0, p.1)) == start + tagged(
                sets_areas(sets@.take(i as int)),
                tag,
            ),
    {
        push_areas(out, &sets[i].areas.areas, tag);
        proof {
            lemma_sets_areas_push(sets@.take(i as int), sets@[i as int]);
            assert(sets@.take(i + 1) =~= sets@.take(i as int).push(sets@[i as int]));
            assert(tagged(sets_areas(sets@.take(i as int)) + sets@[i as int].areas.areas@, tag) =~= tagged(
                sets_areas(sets@.take(i as int)),
                tag,
            ) + tagged(sets@[i as int].areas.areas@, tag));
            assert(out@.map_values(|p: (&AreaStats, AreaSource)| (*p.0, p.1)) =~= start + tagged(
                sets_areas(sets@.take(i + 1)),
                tag,
            ));
        }
    }
    proof {
        assert(sets@.take(sets@.len() as int) =~= sets@);
    }
}

/// The areas of one more level set follow the others'.
pub proof fn lemma_sets_areas_push(s: Seq<LevelSetStats>, x: LevelSetStats)
    ensures
        sets_areas(s.push(x)) == sets_areas(s) + x.areas.areas@,
    decreases s.len(),
{
    if s.len() == 0 {
        assert(s.push(x).drop_first() =~= Seq::<LevelSetStats>::empty());
        assert(sets_areas(Seq::<LevelSetStats>::empty()) == Seq::<AreaStats>::empty());
        assert(x.areas.areas@ + Seq::<AreaStats>::empty() =~= Seq::<AreaStats>::empty() + x.areas.areas@);
    } else {
        assert(s.push(x).drop_first() =~= s.drop_first().push(x));
        lemma_sets_areas_push(s.drop_first(), x);
        assert(s[0].areas.areas@ + (sets_areas(s.drop_first()) + x.areas.areas@) =~= (s[0].areas.areas@
            + sets_areas(s.drop_first())) + x.areas.areas@);
    }
}

/// Appends references to each level set, marked with `bin`.
fn push_sets<'a>(out: &mut Vec<(&'a LevelSetStats, bool)>, sets: &'a Vec<LevelSetStats>, bin: bool)
    ensures
        final(out)@.map_values(|p: (&LevelSetStats, bool)| (*p.0, p.1)) == old(out)@.map_values(
            |p: (&LevelSetStats, bool)| (*p.0, p.1),
        ) + marked(sets@, bin),
{
    let ghost start = old(out)@.map_values(|p: (&LevelSetStats, bool)| (*p.0, p.1));
    for i in 0..sets.len()
        invariant
            out@.map_values(|p: (&LevelSetStats, bool)| (*p.0, p.1)) == start + marked(sets@.take(i as int), bin),
    {
        let ghost prev = out@;
        out.push((&sets[i], bin));
        proof {
            assert(out@.map_values(|p: (&LevelSetStats, bool)| (*p.0, p.1)) =~= prev.map_values(
                |p: (&LevelSetStats, bool)| (*p.0, p.1),
            ).push((sets@[i as int], bin)));
            assert(marked(sets@.take(i + 1), bin) =~= marked(sets@.take(i as int), bin).push((sets@[i as int], bin)));
            assert(out@.map_values(|p: (&LevelSetStats, bool)| (*p.0, p.1)) =~= start + marked(
                sets@.take(i + 1),
                bin,
            ));
        }
    }
    proof {
        assert(sets@.take(sets@.len() as int) =~= sets@);
    }
}

impl SaveData {
    /// Combines all the [LevelSetStats] into one vec,
    /// with a boolean indicating whether they are in the recycle bin or not
    pub fn all_level_sets(&self) -> (r: Vec<(&LevelSetStats, bool)>)
        ensures
            r@.map_values(|p: (&LevelSetStats, bool)| (*p.0, p.1)) == marked(self.level_sets.level_set_stats@, false)
                + marked(self.level_set_recycle_bin.level_set_stats@, true),
    {
        let mut out: Vec<(&LevelSetStats, bool)> = Vec::new();
        proof {
            assert(out@.map_values(|p: (&LevelSetStats, bool)| (*p.0, p.1)) =~= Seq::empty());
        }
        push_sets(&mut out, &self.level_sets.level_set_stats, false);
        push_sets(&mut out, &self.level_set_recycle_bin.level_set_stats, true);
        proof {
            assert(Seq::<(LevelSetStats, bool)>::empty() + marked(self.level_sets.level_set_stats@, false)
                =~= marked(self.level_sets.level_set_stats@, false));
        }
        out
    }

    /// Combines all the areas into one list, adding a tag that denotes what group the area is in
    pub fn all_areas(&self) -> (r: Vec<(&AreaStats, AreaSource)>)
        ensures
            r@.map_values(|p: (&AreaStats, AreaSource)| (*p.0, p.1)) == self.all_areas_spec(),
    {
        let mut out: Vec<(&AreaStats, AreaSource)> = Vec::new();
        proof {
            assert(out@.map_values(|p: (&AreaStats, AreaSource)| (*p.0, p.1)) =~= Seq::empty());
        }
        push_areas(&mut out, &self.areas.areas, AreaSource::Vanilla);
        push_set_areas(&mut out, &self.level_sets.level_set_stats, AreaSource::LevelSets);
        push_set_areas(&mut out, &self.level_set_recycle_bin.level_set_stats, AreaSource::LevelSetRecycleBin);
        proof {
            assert(Seq::<(AreaStats, AreaSource)>::empty() + tagged(self.areas.areas@, AreaSource::Vanilla)
                =~= tagged(self.areas.areas@, AreaSource::Vanilla));
        }
        out
    }

    /// All areas of the save with their sources: vanilla areas, then the areas
    /// of the level sets, then those of the recycle bin.
    pub open spec fn all_areas_spec(self) -> Seq<(AreaStats, AreaSource)> {
        tagged(self.areas.areas@, AreaSource::Vanilla) + tagged(
            sets_areas(self.level_sets.level_set_stats@),
            AreaSource::LevelSets,
        ) + tagged(sets_areas(self.level_set_recycle_bin.level_set_stats@), AreaSource::LevelSetRecycleBin)
    }

    /// Returns a reference to an [AreaStats] given the area's sid
    ///
    /// Returns `None` if no area with the given sid is found.
    pub fn find_area_by_sid<'a>(&'a self, sid: &str) -> (r: Option<&'a AreaStats>)
        ensures
            found_area(
                r,
                sid_lookup(
                    self.areas.areas@,
                    self.level_sets.level_set_stats@,
                    self.level_set_recycle_bin.level_set_stats@,
                    sid@,
                ),
            ),
    {
        proof {
            reveal_strlit("Celeste");
        }
        if str_starts_with(sid, "Celeste") {
            find_in_areas(&self.areas.areas, sid)
        } else {
            match find_in_sets(&self.level_sets.level_set_stats, sid) {
                Some(a) => Some(a),
                None => find_in_sets(&self.level_set_recycle_bin.level_set_stats, sid),
            }
        }
    }

    /// Returns a reference to an [AreaStats] given the area's sid and [AreaSource]
    ///
    /// Returns `None` if no area with the given sid is found in the list indicated by the source.
    pub fn find_area_by_sid_and_source<'a>(&'a self, sid: &str, source: AreaSource) -> (r: Option<
        &'a AreaStats,
    >)
        ensures
            found_area(
                r,
                first_with_sid(
                    source_areas(
                        self.areas.areas@,
                        self.level_sets.level_set_stats@,
                        self.level_set_recycle_bin.level_set_stats@,
                        source,
                    ),
                    sid@,
                ),
            ),
    {
        match source {
            AreaSource::Vanilla => find_in_areas(&self.areas.areas, sid),
            AreaSource::LevelSets => find_in_sets(&self.level_sets.level_set_stats, sid),
            AreaSource::LevelSetRecycleBin => find_in_sets(&self.level_set_recycle_bin.level_set_stats, sid),
        }
    }
}

impl ModSaveData {
    /// Combines all the [LevelSetStats] into one vec,
    /// with a boolean indicating whether they are in the recycle bin or not
    pub fn all_level_sets(&self) -> (r: Vec<(&LevelSetStats, bool)>)
        ensures
            r@.map_values(|p: (&LevelSetStats, bool)| (*p.0, p.1)) == marked(self.level_sets.level_set_stats@, false)
                + marked(self.level_set_recycle_bin.level_set_stats@, true),
    {
        let mut out: Vec<(&LevelSetStats, bool)> = Vec::new();
        proof {
            assert(out@.map_values(|p: (&LevelSetStats, bool)| (*p.0, p.1)) =~= Seq::empty());
        }
        push_sets(&mut out, &self.level_sets.level_set_stats, false);
        push_sets(&mut out, &self.level_set_recycle_bin.level_set_stats, true);
        proof {
            assert(Seq::<(LevelSetStats, bool)>::empty() + marked(self.level_sets.level_set_stats@, false)
                =~= marked(self.level_sets.level_set_stats@, false));
        }
        out
    }

    /// Combines all the areas into one list, adding a tag that denotes what group the area is in
    pub fn all_areas(&self) -> (r: Vec<(&AreaStats, AreaSource)>)
        ensures
            r@.map_values(|p: (&AreaStats, AreaSource)| (*p.0, p.1)) == tagged(
                sets_areas(self.level_sets.level_set_stats@),
                AreaSource::LevelSets,
            ) + tagged(sets_areas(self.level_set_recycle_bin.level_set_stats@), AreaSource::LevelSetRecycleBin),
    {
        let mut out: Vec<(&AreaStats, AreaSource)> = Vec::new();
        proof {
            assert(out@.map_values(|p: (&AreaStats, AreaSource)| (*p.0, p.1)) =~= Seq::empty());
        }
        push_set_areas(&mut out, &self.level_sets.level_set_stats, AreaSource::LevelSets);
        push_set_areas(&mut out, &self.level_set_recycle_bin.level_set_stats, AreaSource::LevelSetRecycleBin);
        proof {
            assert(Seq::<(AreaStats, AreaSource)>::empty() + tagged(
                sets_areas(self.level_sets.level_set_stats@),
                AreaSource::LevelSets,
            ) =~= tagged(sets_areas(self.level_sets.level_set_stats@), AreaSource::LevelSets));
        }
        out
    }

    /// Returns a reference to an [AreaStats] given the area's sid
    ///
    /// Returns `None` if no area with the given sid is found: the first match
    /// in the level sets, otherwise the first in the recycle bin.
    pub fn find_area_by_sid<'a>(&'a self, sid: &str) -> (r: Option<&'a AreaStats>)
        ensures
            found_area(
                r,
                sets_sid_lookup(self.level_sets.level_set_stats@, self.level_set_recycle_bin.level_set_stats@, sid@),
            ),
    {
        match find_in_sets(&self.level_sets.level_set_stats, sid) {
            Some(a) => Some(a),
            None => find_in_sets(&self.level_set_recycle_bin.level_set_stats, sid),
        }
    }

    /// Returns a reference to an [AreaStats] given the area's sid and [AreaSource]
    ///
    /// Returns `None` if no area with the given sid is found in the list
    /// indicated by the source (always, for the vanilla source).
    pub fn find_area_by_sid_and_source<'a>(&'a self, sid: &str, source: AreaSource) -> (r: Option<
        &'a AreaStats,
    >)
        ensures
            found_area(
                r,
                first_with_sid(
                    source_areas(
                        Seq::empty(),
                        self.level_sets.level_set_stats@,
                        self.level_set_recycle_bin.level_set_stats@,
                        source,
                    ),
                    sid@,
                ),
            ),
    {
        match source {
            AreaSource::Vanilla => None,
            AreaSource::LevelSets => find_in_sets(&self.level_sets.level_set_stats, sid),
            AreaSource::LevelSetRecycleBin => find_in_sets(&self.level_set_recycle_bin.level_set_stats, sid),
        }
    }
}

impl Default for ModSaveData {
    fn default() -> (r: Self)
        ensures
            r.xsi_url@ == XSI_URL@,
            r.xsd_url@ == XSD_URL@,
            r.level_sets.level_set_stats@.len() == 0,
            r.level_set_recycle_bin.level_set_stats@.len() == 0,
            r.last_area_safe is None,
    {
        ModSaveData {
            xsi_url: XSI_URL.to_owned(),
            xsd_url: XSD_URL.to_owned(),
            level_sets: LevelSets::default(),
            level_set_recycle_bin: LevelSets::default(),
            last_area_safe: None,
        }
    }
}

} // verus!
