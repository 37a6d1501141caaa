//! Combining the progress of two saves, and loading modded progress into a save.
use vstd::prelude::*;

use crate::maps::lookup::string_views;
use crate::saves::everest::{sets_view, LevelSetStats, LevelSetV, LevelSets};
use crate::saves::session::{keys, Strawberries};
use crate::saves::util::{EntityID, FileTime};
use crate::saves::vanilla::{
    areas_view,
    duplicate_strings,
    opt_text,
    AreaMode,
    AreaModeStats,
    AreaStats,
    AreaV,
    Areas,
    Checkpoints,
    ModeV,
    Modes,
};
use crate::saves::session::{SavedSession, SummitGems};
use crate::saves::vanilla::AreaRef;
use crate::saves::{sets_areas, AreaCount, Assists, Flags, ModSaveData, Poem, SaveData, StrawberryCount};
use crate::utils::text::str_eq;

verus! {

// ---------------------------------------------------------------------------
// Loading modded progress
// ---------------------------------------------------------------------------

/// Whether some level set of `s` has the name `name`.
pub open spec fn has_set_named(s: Seq<LevelSetV>, name: Seq<char>) -> bool {
    exists|i: int| 0 <= i < s.len() && #[trigger] s[i].name == name
}

/// The level sets of `incoming` whose names no set of `known` has, in order.
pub open spec fn new_sets(incoming: Seq<LevelSetV>, known: Seq<LevelSetV>) -> Seq<LevelSetV> {
    incoming.filter(|l: LevelSetV| !has_set_named(known, l.name))
}

/// Whether one of the first `upto` sets of `sets` is named `name`.
fn has_name(sets: &Vec<LevelSetStats>, upto: usize, name: &str) -> (r: bool)
    requires
        upto <= sets@.len(),
    ensures
        r == has_set_named(sets_view(sets@.take(upto as int)), name@),
{
    let ghost v = sets_view(sets@.take(upto as int));
    for i in 0..upto
        invariant
            upto <= sets@.len(),
            v == sets_view(sets@.take(upto as int)),
            forall|j: int| 0 <= j < i ==> v[j].name != name@,
    {
        assert(v[i as int] == sets@[i as int]@);
        if str_eq(sets[i].name.as_str(), name) {
            assert(v[i as int].name == name@);
            return true;
        }
    }
    false
}

impl SaveData {
    /// Load ins a [ModSaveData], adding any entries that are not in our
    /// [level_sets](SaveData::level_sets) or [level_set_recycle_bin](SaveData::level_set_recycle_bin) and ignoring any that are already there
    pub fn load_in_mod_save_data(&mut self, mod_save_data: &ModSaveData)
        ensures
            sets_view(final(self).level_sets.level_set_stats@) == sets_view(old(self).level_sets.level_set_stats@)
                + new_sets(
                sets_view(mod_save_data.level_sets.level_set_stats@),
                sets_view(old(self).level_sets.level_set_stats@) + sets_view(
                    old(self).level_set_recycle_bin.level_set_stats@,
                ),
            ),
            sets_view(final(self).level_set_recycle_bin.level_set_stats@) == sets_view(
                old(self).level_set_recycle_bin.level_set_stats@,
            ) + new_sets(
                sets_view(mod_save_data.level_set_recycle_bin.level_set_stats@),
                sets_view(old(self).level_sets.level_set_stats@) + sets_view(
                    old(self).level_set_recycle_bin.level_set_stats@,
                ),
            ),
            match old(self).last_area_safe {
                Some(_) => final(self).last_area_safe == old(self).last_area_safe,
                None => match mod_save_data.last_area_safe {
                    Some(m) => final(self).last_area_safe matches Some(a) && a.id == m.id && a.mode == m.mode
                        && opt_text(a.sid) == opt_text(m.sid),
                    None => final(self).last_area_safe is None,
                },
            },
            *final(self) == (SaveData {
                level_sets: final(self).level_sets,
                level_set_recycle_bin: final(self).level_set_recycle_bin,
                last_area_safe: final(self).last_area_safe,
                ..*old(self)
            }),
    {
        let n_sets = self.level_sets.level_set_stats.len();
        let n_bin = self.level_set_recycle_bin.level_set_stats.len();
        let ghost known = sets_view(old(self).level_sets.level_set_stats@) + sets_view(
            old(self).level_set_recycle_bin.level_set_stats@,
        );
        let ghost old_sets = old(self).level_sets.level_set_stats@;
        let ghost old_bin = old(self).level_set_recycle_bin.level_set_stats@;
        proof {
            assert(old_sets.take(n_sets as int) =~= old_sets);
            assert(old_bin.take(n_bin as int) =~= old_bin);
        }
        let mut level_sets = LevelSets { level_set_stats: Vec::new() };
        std::mem::swap(&mut level_sets, &mut self.level_sets);
        let mut bin = LevelSets { level_set_stats: Vec::new() };
        std::mem::swap(&mut bin, &mut self.level_set_recycle_bin);
        self.add_new_sets(&mut level_sets, n_sets, &bin, n_bin, &mod_save_data.level_sets);
        proof {
            assert(level_sets.level_set_stats@.take(n_sets as int) =~= old_sets);
        }
        let ghost sets_now = level_sets.level_set_stats@;
        let mut bin2 = LevelSets { level_set_stats: Vec::new() };
        std::mem::swap(&mut bin2, &mut bin);
        self.add_new_sets(&mut bin2, n_bin, &level_sets, n_sets, &mod_save_data.level_set_recycle_bin);
        proof {
            assert(sets_view(sets_now.take(n_sets as int)) + sets_view(old_bin) == known);
            assert(sets_view(old_bin) + sets_view(sets_now.take(n_sets as int)) + Seq::empty() =~= sets_view(old_bin) + sets_view(old_sets));
        }
        self.level_sets = level_sets;
        self.level_set_recycle_bin = bin2;
        if self.last_area_safe.is_none() {
            self.last_area_safe = match &mod_save_data.last_area_safe {
                Some(a) => Some(a.duplicate()),
                None => None,
            };
        }
    }

    /// Appends to `target` each set of `incoming` whose name is not among the
    /// first `n_target` sets of `target` nor the first `n_other` of `other`.
    fn add_new_sets(
        &self,
        target: &mut LevelSets,
        n_target: usize,
        other: &LevelSets,
        n_other: usize,
        incoming: &LevelSets,
    )
        requires
            n_target == old(target).level_set_stats@.len(),
            n_other <= other.level_set_stats@.len(),
        ensures
            final(target).level_set_stats@.len() >= n_target,
            final(target).level_set_stats@.take(n_target as int) == old(target).level_set_stats@,
            sets_view(final(target).level_set_stats@) == sets_view(old(target).level_set_stats@) + new_sets(
                sets_view(incoming.level_set_stats@),
                sets_view(old(target).level_set_stats@) + sets_view(other.level_set_stats@.take(n_other as int)),
            ),
            sets_view(final(target).level_set_stats@) == sets_view(old(target).level_set_stats@) + new_sets(
                sets_view(incoming.level_set_stats@),
                sets_view(other.level_set_stats@.take(n_other as int)) + sets_view(old(target).level_set_stats@),
            ),
    {
        let ghost known = sets_view(old(target).level_set_stats@) + sets_view(
            other.level_set_stats@.take(n_other as int),
        );
        let ghost known2 = sets_view(other.level_set_stats@.take(n_other as int)) + sets_view(
            old(target).level_set_stats@,
        );
        let ghost inc = sets_view(incoming.level_set_stats@);
        let ghost pred = |l: LevelSetV| !has_set_named(known, l.name);
        proof {
            reveal(Seq::filter);
            assert(inc.take(0).filter(pred) =~= Seq::<LevelSetV>::empty());
            assert(sets_view(old(target).level_set_stats@) + Seq::<LevelSetV>::empty() =~= sets_view(
                old(target).level_set_stats@,
            ));
            assert forall|x: Seq<char>| has_set_named(known, x) <==> has_set_named(known2, x) by {
                if has_set_named(known, x) {
                    let i = choose|i: int| 0 <= i < known.len() && #[trigger] known[i].name == x;
                    if i < n_target {
                        assert(known2[n_other + i] == known[i]);
                    } else {
                        assert(known2[i - n_target] == known[i]);
                    }
                }
                if has_set_named(known2, x) {
                    let i = choose|i: int| 0 <= i < known2.len() && #[trigger] known2[i].name == x;
                    if i < n_other {
                        assert(known[n_target + i] == known2[i]);
                    } else {
                        assert(known[i - n_other] == known2[i]);
                    }
                }
            }
            assert(pred =~= |l: LevelSetV| !has_set_named(known2, l.name));
        }
        for i in 0..incoming.level_set_stats.len()
            invariant
                n_target <= target.level_set_stats@.len(),
                n_target == old(target).level_set_stats@.len(),
                n_other <= other.level_set_stats@.len(),
                inc == sets_view(incoming.level_set_stats@),
                target.level_set_stats@.take(n_target as int) == old(target).level_set_stats@,
                known == sets_view(old(target).level_set_stats@) + sets_view(
                    other.level_set_stats@.take(n_other as int),
                ),
                pred == |l: LevelSetV| !has_set_named(known, l.name),
                sets_view(target.level_set_stats@) == sets_view(old(target).level_set_stats@) + inc.take(
                    i as int,
                ).filter(pred),
        {
            let set = &incoming.level_set_stats[i];
            let in_target = has_name(&target.level_set_stats, n_target, set.name.as_str());
            let in_other = has_name(&other.level_set_stats, n_other, set.name.as_str());
            proof {
                assert(inc[i as int] == set@);
                assert(inc.take(i + 1).drop_last() =~= inc.take(i as int));
                assert(inc.take(i + 1).last() == set@);
                let a = sets_view(target.level_set_stats@.take(n_target as int));
                let b = sets_view(other.level_set_stats@.take(n_other as int));
                assert(has_set_named(known, set@.name) <==> (has_set_named(a, set@.name) || has_set_named(
                    b,
                    set@.name,
                ))) by {
                    if has_set_named(known, set@.name) {
                        let k = choose|k: int| 0 <= k < known.len() && #[trigger] known[k].name == set@.name;
                        if k < a.len() {
                            assert(a[k] == known[k]);
                        } else {
                            assert(b[k - a.len()] == known[k]);
                        }
                    }
                    if has_set_named(a, set@.name) {
                        let k = choose|k: int| 0 <= k < a.len() && #[trigger] a[k].name == set@.name;
                        assert(known[k] == a[k]);
                    }
                    if has_set_named(b, set@.name) {
                        let k = choose|k: int| 0 <= k < b.len() && #[trigger] b[k].name == set@.name;
                        assert(known[a.len() + k] == b[k]);
                    }
                }
            }
            proof {
                reveal(Seq::filter);
                assert(pred(set@) == !(in_target || in_other));
                assert(inc.take(i + 1).filter(pred) == if pred(inc.take(i + 1).last()) {
                    inc.take(i + 1).drop_last().filter(pred).push(inc.take(i + 1).last())
                } else {
                    inc.take(i + 1).drop_last().filter(pred)
                });
            }
            if !in_target && !in_other {
                let ghost before = target.level_set_stats@;
                let copy = set.duplicate();
                target.level_set_stats.push(copy);
                proof {
                    assert(target.level_set_stats@.take(n_target as int) =~= before.take(n_target as int));
                    assert(sets_view(target.level_set_stats@) =~= sets_view(before).push(copy@));
                    assert(sets_view(old(target).level_set_stats@) + inc.take(i as int).filter(pred).push(set@)
                        =~= (sets_view(old(target).level_set_stats@) + inc.take(i as int).filter(pred)).push(set@));
                }
            }
        }
        proof {
            assert(inc.take(inc.len() as int) =~= inc);
        }
    }
}

// ---------------------------------------------------------------------------
// Merging two saves
// ---------------------------------------------------------------------------

/// The first `n` checkpoints of `o` merged into `s`: each one that the list
/// lacks goes in at its own position in `o`.
pub open spec fn cps_merged(s: Seq<Seq<char>>, o: Seq<Seq<char>>, n: nat) -> Seq<Seq<char>>
    decreases n,
{
    if n == 0 {
        s
    } else {
        let t = cps_merged(s, o, (n - 1) as nat);
        let cp = o[n - 1];
        if t.contains(cp) {
            t
        } else {
            t.insert(n - 1, cp)
        }
    }
}

/// Whether merging the first `n` checkpoints of `o` into `s` puts each one
/// that is missing at a position that exists.
pub open spec fn cps_mergeable(s: Seq<Seq<char>>, o: Seq<Seq<char>>, n: nat) -> bool
    decreases n,
{
    if n == 0 {
        true
    } else {
        let t = cps_merged(s, o, (n - 1) as nat);
        &&& cps_mergeable(s, o, (n - 1) as nat)
        &&& (t.contains(o[n - 1]) || n - 1 <= t.len())
    }
}

/// A mergeable prefix of a mergeable list.
proof fn lemma_cps_mergeable_prefix(s: Seq<Seq<char>>, o: Seq<Seq<char>>, n: nat, k: nat)
    requires
        cps_mergeable(s, o, n),
        k <= n,
    ensures
        cps_mergeable(s, o, k),
    decreases n,
{
    if k < n {
        lemma_cps_mergeable_prefix(s, o, (n - 1) as nat, k);
    }
}

/// The smaller of two play times.
pub open spec fn min_time(a: FileTime, b: FileTime) -> FileTime {
    if a.0 < b.0 {
        a
    } else {
        b
    }
}

/// The statistics of a side merged with another's, with `count` strawberries.
pub open spec fn stats_merged(s: AreaModeStats, o: AreaModeStats, count: nat) -> AreaModeStats {
    AreaModeStats {
        total_strawberries: (count % 0x10000) as u16,
        completed: s.completed || o.completed,
        single_run_completed: s.single_run_completed || o.single_run_completed,
        full_clear: s.full_clear || o.full_clear,
        deaths: (s.deaths + o.deaths) as u64,
        time_played: FileTime((s.time_played.0 + o.time_played.0) as u64),
        best_time: min_time(s.best_time, o.best_time),
        best_full_clear_time: min_time(s.best_full_clear_time, o.best_full_clear_time),
        best_dashes: if s.best_dashes <= o.best_dashes {
            s.best_dashes
        } else {
            o.best_dashes
        },
        best_deaths: if s.best_deaths <= o.best_deaths {
            s.best_deaths
        } else {
            o.best_deaths
        },
        heart_gem: s.heart_gem || o.heart_gem,
    }
}

/// Whether `r` holds each strawberry of `s` and of `o` once, and no other.
pub open spec fn berries_merged(s: Seq<Seq<char>>, o: Seq<Seq<char>>, r: Seq<Seq<char>>) -> bool {
    &&& r.no_duplicates()
    &&& forall|x: Seq<char>| #[trigger] r.contains(x) <==> (s.contains(x) || o.contains(x))
}

/// Whether `r` is the side `s` merged with the side `o`.
pub open spec fn mode_merged(s: ModeV, o: ModeV, r: ModeV) -> bool {
    &&& r.checkpoints == cps_merged(s.checkpoints, o.checkpoints, o.checkpoints.len())
    &&& berries_merged(s.strawberries, o.strawberries, r.strawberries)
    &&& r.stats == stats_merged(s.stats, o.stats, r.strawberries.len())
}

/// Whether the side `o` can be merged into `s`: its checkpoints go in at
/// positions that exist, and the sums fit in 64 bits.
pub open spec fn mode_mergeable(s: ModeV, o: ModeV) -> bool {
    &&& cps_mergeable(s.checkpoints, o.checkpoints, o.checkpoints.len())
    &&& s.stats.deaths + o.stats.deaths <= u64::MAX
    &&& s.stats.time_played.0 + o.stats.time_played.0 <= u64::MAX
}

/// Whether `r` is the area `s` merged with the area `o` it was matched with,
/// if any: its sides merged pairwise, as many as both have.
pub open spec fn area_merged(s: AreaV, o: Option<AreaV>, r: AreaV) -> bool {
    match o {
        None => r == s,
        Some(o) => {
            &&& r.def == s.def
            &&& r.modes.len() == s.modes.len()
            &&& forall|i: int| 0 <= i < s.modes.len() ==> if i < o.modes.len() {
                mode_merged(s.modes[i], o.modes[i], #[trigger] r.modes[i])
            } else {
                r.modes[i] == s.modes[i]
            }
        },
    }
}

/// Whether the area `o` can be merged into `s`.
pub open spec fn area_mergeable(s: AreaV, o: Option<AreaV>) -> bool {
    match o {
        None => true,
        Some(o) => forall|i: int|
            0 <= i < s.modes.len() && i < o.modes.len() ==> mode_mergeable(#[trigger] s.modes[i], o.modes[i]),
    }
}

/// The first area of `s` whose sid (or lack of one) is `sid`.
pub open spec fn match_for(sid: Option<Seq<char>>, s: Seq<AreaV>) -> Option<AreaV>
    decreases s.len(),
{
    if s.len() == 0 {
        None
    } else if s[0].def.sid == sid {
        Some(s[0])
    } else {
        match_for(sid, s.drop_first())
    }
}

/// Whether `r` is each area of `s` merged with its match among `others`.
pub open spec fn areas_merged(s: Seq<AreaV>, others: Seq<AreaV>, r: Seq<AreaV>) -> bool {
    &&& r.len() == s.len()
    &&& forall|i: int| 0 <= i < s.len() ==> area_merged(s[i], match_for(s[i].def.sid, others), #[trigger] r[i])
}

/// Whether each area of `s` can be merged with its match among `others`.
pub open spec fn areas_mergeable(s: Seq<AreaV>, others: Seq<AreaV>) -> bool {
    forall|i: int| 0 <= i < s.len() ==> area_mergeable(#[trigger] s[i], match_for(s[i].def.sid, others))
}

/// The strawberries of a list of sides.
pub open spec fn modes_berries(m: Seq<ModeV>) -> nat
    decreases m.len(),
{
    if m.len() == 0 {
        0
    } else {
        modes_berries(m.drop_last()) + m.last().strawberries.len()
    }
}

/// The strawberries of all sides of a list of areas.
pub open spec fn areas_berries(a: Seq<AreaV>) -> nat
    decreases a.len(),
{
    if a.len() == 0 {
        0
    } else {
        areas_berries(a.drop_last()) + modes_berries(a.last().modes)
    }
}

/// The first level set of `s` named `name`.
pub open spec fn set_named(s: Seq<LevelSetV>, name: Seq<char>) -> Option<LevelSetV>
    decreases s.len(),
{
    if s.len() == 0 {
        None
    } else if s[0].name == name {
        Some(s[0])
    } else {
        set_named(s.drop_first(), name)
    }
}

/// Whether `r` is the level set `s` with its areas merged with `others`, its
/// strawberries counted again and its unlocked areas raised to those of the
/// first set of `other_sets` with the same name.
pub open spec fn set_merged(s: LevelSetV, others: Seq<AreaV>, other_sets: Seq<LevelSetV>, r: LevelSetV) -> bool {
    &&& r.name == s.name
    &&& r.poem == s.poem
    &&& areas_merged(s.areas, others, r.areas)
    &&& r.total_strawberries == (areas_berries(r.areas) % 0x10000) as u16
    &&& r.unlocked_areas == match set_named(other_sets, s.name) {
        Some(o) => if s.unlocked_areas >= o.unlocked_areas {
            s.unlocked_areas
        } else {
            o.unlocked_areas
        },
        None => s.unlocked_areas,
    }
}

/// Whether `r` is each set of `s` merged.
pub open spec fn sets_merged(s: Seq<LevelSetV>, others: Seq<AreaV>, other_sets: Seq<LevelSetV>, r: Seq<LevelSetV>) -> bool {
    &&& r.len() == s.len()
    &&& forall|i: int| 0 <= i < s.len() ==> set_merged(s[i], others, other_sets, #[trigger] r[i])
}

/// Whether the areas of each set of `s` can be merged with `others`.
pub open spec fn sets_mergeable(s: Seq<LevelSetV>, others: Seq<AreaV>) -> bool {
    forall|i: int| 0 <= i < s.len() ==> areas_mergeable(#[trigger] s[i].areas, others)
}

impl SaveData {
    /// Every area of the save, in the order the save lists them: vanilla
    /// areas, then those of the level sets, then those of the recycle bin.
    pub open spec fn areas_in_order(self) -> Seq<AreaV> {
        areas_view(self.areas.areas@) + areas_view(sets_areas(self.level_sets.level_set_stats@)) + areas_view(
            sets_areas(self.level_set_recycle_bin.level_set_stats@),
        )
    }

    /// Every level set of the save: those in use, then those in the recycle bin.
    pub open spec fn sets_in_order(self) -> Seq<LevelSetV> {
        sets_view(self.level_sets.level_set_stats@) + sets_view(self.level_set_recycle_bin.level_set_stats@)
    }
}

/// Whether `x` is one of the strings of `v`.
fn contains_string(v: &Vec<String>, x: &str) -> (r: bool)
    ensures
        r == string_views(v@).contains(x@),
{
    for i in 0..v.len()
        invariant
            forall|j: int| 0 <= j < i ==> string_views(v@)[j] != x@,
    {
        if str_eq(v[i].as_str(), x) {
            assert(string_views(v@)[i as int] == x@);
            return true;
        }
    }
    false
}

/// The checkpoints of `o` merged into those of `s`.
fn merge_checkpoints(s: &Checkpoints, o: &Checkpoints) -> (r: Checkpoints)
    requires
        cps_mergeable(s@, o@, o@.len()),
    ensures
        r@ == cps_merged(s@, o@, o@.len()),
{
    let mut out = duplicate_strings(&s.checkpoints);
    let n = o.checkpoints.len();
    for idx in 0..n
        invariant
            n == o@.len(),
            cps_mergeable(s@, o@, o@.len()),
            string_views(out@) == cps_merged(s@, o@, idx as nat),
    {
        let cp = &o.checkpoints[idx];
        proof {
            lemma_cps_mergeable_prefix(s@, o@, o@.len(), (idx + 1) as nat);
            assert(o@[idx as int] == cp@);
        }
        if !contains_string(&out, cp.as_str()) {
            let c = cp.clone();
            out.insert(idx, c);
            proof {
                assert(string_views(out@) =~= cps_merged(s@, o@, idx as nat).insert(idx as int, cp@));
            }
        }
    }
    Checkpoints { checkpoints: out }
}

/// Whether one of the ids of `v` has the key `k`.
fn has_key(v: &Vec<EntityID>, k: &str) -> (r: bool)
    ensures
        r == keys(v@).contains(k@),
{
    let ghost ks = keys(v@);
    for i in 0..v.len()
        invariant
            ks == keys(v@),
            forall|j: int| 0 <= j < i ==> ks[j] != k@,
    {
        if str_eq(v[i].key.as_str(), k) {
            assert(ks[i as int] == k@);
            return true;
        }
    }
    false
}

/// Appends each id of `from` whose key `out` lacks.
fn add_missing_berries(out: &mut Vec<EntityID>, from: &Strawberries)
    requires
        keys(old(out)@).no_duplicates(),
    ensures
        keys(final(out)@).no_duplicates(),
        forall|x: Seq<char>| #[trigger] keys(final(out)@).contains(x) <==> (keys(old(out)@).contains(x)
            || from@.contains(x)),
{
    let ghost start = keys(old(out)@);
    for i in 0..from.strawberries.len()
        invariant
            keys(out@).no_duplicates(),
            forall|x: Seq<char>| #[trigger] keys(out@).contains(x) <==> (start.contains(x)
                || from@.take(i as int).contains(x)),
    {
        let e = &from.strawberries[i];
        let ghost before = keys(out@);
        proof {
            assert(from@[i as int] == e@);
            assert(from@.take(i + 1) =~= from@.take(i as int).push(e@));
        }
        if !has_key(out, e.key.as_str()) {
            let d = e.duplicate();
            out.push(d);
            proof {
                assert(keys(out@) =~= before.push(e@));
                assert forall|x: Seq<char>| #[trigger] before.push(e@).contains(x) <==> (before.contains(x) || x == e@) by {
                    if before.push(e@).contains(x) {
                        let j = choose|j: int| 0 <= j < before.push(e@).len() && before.push(e@)[j] == x;
                        if j < before.len() {
                            assert(before[j] == x);
                        }
                    }
                    if before.contains(x) {
                        let j = choose|j: int| 0 <= j < before.len() && before[j] == x;
                        assert(before.push(e@)[j] == x);
                    }
                    if x == e@ {
                        assert(before.push(e@)[before.len() as int] == x);
                    }
                }
            }
        }
        proof {
            assert forall|x: Seq<char>| #[trigger] from@.take(i + 1).contains(x) <==> (from@.take(i as int).contains(x)
                || x == e@) by {
                let t = from@.take(i as int);
                if t.push(e@).contains(x) {
                    let j = choose|j: int| 0 <= j < t.push(e@).len() && t.push(e@)[j] == x;
                    if j < t.len() {
                        assert(t[j] == x);
                    }
                }
                if t.contains(x) {
                    let j = choose|j: int| 0 <= j < t.len() && t[j] == x;
                    assert(t.push(e@)[j] == x);
                }
                if x == e@ {
                    assert(t.push(e@)[t.len() as int] == x);
                }
            }
        }
    }
    proof {
        assert(from@.take(from@.len() as int) =~= from@);
    }
}

/// The strawberries of both lists, each once.
fn merge_strawberries(s: &Strawberries, o: &Strawberries) -> (r: Strawberries)
    ensures
        berries_merged(s@, o@, r@),
{
    let mut out: Vec<EntityID> = Vec::new();
    proof {
        assert(keys(out@) =~= Seq::<Seq<char>>::empty());
    }
    add_missing_berries(&mut out, s);
    add_missing_berries(&mut out, o);
    Strawberries { strawberries: out }
}

/// The side `s` merged with the side `o`.
fn merged_mode(s: &AreaMode, o: &AreaMode) -> (r: AreaMode)
    requires
        mode_mergeable(s@, o@),
    ensures
        mode_merged(s@, o@, r@),
{
    let checkpoints = merge_checkpoints(&s.checkpoints, &o.checkpoints);
    let strawberries = merge_strawberries(&s.strawberries, &o.strawberries);
    let a = &s.stats;
    let b = &o.stats;
    let count = strawberries.len();
    let stats = AreaModeStats {
        total_strawberries: (count % 0x10000) as u16,
        completed: a.completed || b.completed,
        single_run_completed: a.single_run_completed || b.single_run_completed,
        full_clear: a.full_clear || b.full_clear,
        deaths: a.deaths + b.deaths,
        time_played: FileTime(a.time_played.0 + b.time_played.0),
        best_time: if a.best_time.0 < b.best_time.0 {
            a.best_time
        } else {
            b.best_time
        },
        best_full_clear_time: if a.best_full_clear_time.0 < b.best_full_clear_time.0 {
            a.best_full_clear_time
        } else {
            b.best_full_clear_time
        },
        best_dashes: if a.best_dashes <= b.best_dashes {
            a.best_dashes
        } else {
            b.best_dashes
        },
        best_deaths: if a.best_deaths <= b.best_deaths {
            a.best_deaths
        } else {
            b.best_deaths
        },
        heart_gem: a.heart_gem || b.heart_gem,
    };
    AreaMode { stats, strawberries, checkpoints }
}

/// The area `s` merged with the area `o` matched to it.
fn merged_area(s: &AreaStats, o: &AreaStats) -> (r: AreaStats)
    requires
        area_mergeable(s@, Some(o@)),
    ensures
        area_merged(s@, Some(o@), r@),
{
    let mut modes: Vec<AreaMode> = Vec::new();
    let n = s.modes.modes.len();
    for i in 0..n
        invariant
            n == s@.modes.len(),
            area_mergeable(s@, Some(o@)),
            modes@.len() == i,
            forall|j: int| 0 <= j < i ==> if j < o@.modes.len() {
                mode_merged(s@.modes[j], o@.modes[j], #[trigger] modes@[j]@)
            } else {
                modes@[j]@ == s@.modes[j]
            },
    {
        let m = &s.modes.modes[i];
        proof {
            assert(s@.modes[i as int] == m@);
        }
        if i < o.modes.modes.len() {
            proof {
                assert(o@.modes[i as int] == o.modes.modes@[i as int]@);
                assert(mode_mergeable(s@.modes[i as int], o@.modes[i as int]));
            }
            modes.push(merged_mode(m, &o.modes.modes[i]));
        } else {
            modes.push(m.duplicate());
        }
    }
    let r = AreaStats { def: s.def.duplicate(), modes: Modes { modes } };
    proof {
        assert forall|i: int| 0 <= i < s@.modes.len() implies if i < o@.modes.len() {
            mode_merged(s@.modes[i], o@.modes[i], #[trigger] r@.modes[i])
        } else {
            r@.modes[i] == s@.modes[i]
        } by {
            assert(r@.modes[i] == modes@[i]@);
        }
    }
    r
}

/// Whether two optional sids are equal (both absent, or the same text).
fn sid_eq(a: &Option<String>, b: &Option<String>) -> (r: bool)
    ensures
        r == (opt_text(*a) == opt_text(*b)),
{
    match (a, b) {
        (Some(x), Some(y)) => str_eq(x.as_str(), y.as_str()),
        (None, None) => true,
        _ => false,
    }
}

/// Searching two lists of areas one after the other.
proof fn lemma_match_for_concat(sid: Option<Seq<char>>, a: Seq<AreaV>, b: Seq<AreaV>)
    ensures
        match_for(sid, a + b) == match match_for(sid, a) {
            Some(x) => Some(x),
            None => match_for(sid, b),
        },
    decreases a.len(),
{
    if a.len() > 0 {
        assert((a + b).drop_first() =~= a.drop_first() + b);
        lemma_match_for_concat(sid, a.drop_first(), b);
    } else {
        assert(a + b =~= b);
    }
}

/// Whether a found reference is the area that the spec matches.
pub open spec fn matched(r: Option<&AreaStats>, want: Option<AreaV>) -> bool {
    match want {
        Some(x) => r matches Some(a) && a@ == x,
        None => r is None,
    }
}

/// The first area of `areas` whose sid is `sid`.
fn match_in_areas<'a>(sid: &Option<String>, areas: &'a Vec<AreaStats>) -> (r: Option<&'a AreaStats>)
    ensures
        matched(r, match_for(opt_text(*sid), areas_view(areas@))),
{
    let ghost v = areas_view(areas@);
    let mut i: usize = 0;
    proof {
        assert(v.skip(0) =~= v);
    }
    while i < areas.len()
        invariant
            i <= areas@.len(),
            v == areas_view(areas@),
            match_for(opt_text(*sid), v) == match_for(opt_text(*sid), v.skip(i as int)),
        decreases areas@.len() - i,
    {
        assert(v.skip(i as int).drop_first() =~= v.skip(i + 1));
        assert(v.skip(i as int)[0] == areas@[i as int]@);
        if sid_eq(&areas[i].def.sid, sid) {
            return Some(&areas[i]);
        }
        i = i + 1;
    }
    None
}

/// The views of the areas of level sets, one set after another.
proof fn lemma_sets_areas_view(s: Seq<LevelSetStats>)
    ensures
        s.len() > 0 ==> areas_view(sets_areas(s)) == areas_view(s[0].areas.areas@) + areas_view(
            sets_areas(s.drop_first()),
        ),
{
    if s.len() > 0 {
        assert(areas_view(sets_areas(s)) =~= areas_view(s[0].areas.areas@) + areas_view(
            sets_areas(s.drop_first()),
        ));
    }
}

/// The first area, among the areas of level sets, whose sid is `sid`.
fn match_in_sets<'a>(sid: &Option<String>, sets: &'a Vec<LevelSetStats>) -> (r: Option<&'a AreaStats>)
    ensures
        matched(r, match_for(opt_text(*sid), areas_view(sets_areas(sets@)))),
{
    let mut i: usize = 0;
    proof {
        assert(sets@.skip(0) =~= sets@);
    }
    while i < sets.len()
        invariant
            i <= sets@.len(),
            match_for(opt_text(*sid), areas_view(sets_areas(sets@))) == match_for(
                opt_text(*sid),
                areas_view(sets_areas(sets@.skip(i as int))),
            ),
        decreases sets@.len() - i,
    {
        let ghost rest = sets@.skip(i as int);
        proof {
            assert(rest.drop_first() =~= sets@.skip(i + 1));
            lemma_sets_areas_view(rest);
            lemma_match_for_concat(
                opt_text(*sid),
                areas_view(sets[i as int].areas.areas@),
                areas_view(sets_areas(sets@.skip(i + 1))),
            );
        }
        let found = match_in_areas(sid, &sets[i].areas.areas);
        if found.is_some() {
            return found;
        }
        i = i + 1;
    }
    proof {
        assert(sets@.skip(i as int) =~= Seq::<LevelSetStats>::empty());
        assert(areas_view(sets_areas(Seq::<LevelSetStats>::empty())) =~= Seq::<AreaV>::empty());
    }
    None
}

/// The first area of `save`, in the save's order, whose sid is `sid`.
fn match_in_save<'a>(sid: &Option<String>, save: &'a SaveData) -> (r: Option<&'a AreaStats>)
    ensures
        matched(r, match_for(opt_text(*sid), save.areas_in_order())),
{
    let ghost v = areas_view(save.areas.areas@);
    let ghost a = areas_view(sets_areas(save.level_sets.level_set_stats@));
    let ghost b = areas_view(sets_areas(save.level_set_recycle_bin.level_set_stats@));
    proof {
        lemma_match_for_concat(opt_text(*sid), v + a, b);
        lemma_match_for_concat(opt_text(*sid), v, a);
    }
    match match_in_areas(sid, &save.areas.areas) {
        Some(x) => Some(x),
        None => match match_in_sets(sid, &save.level_sets.level_set_stats) {
            Some(x) => Some(x),
            None => match_in_sets(sid, &save.level_set_recycle_bin.level_set_stats),
        },
    }
}

/// Each area of `list` merged with its match in `other`.
fn merged_areas(list: &Vec<AreaStats>, other: &SaveData) -> (r: Vec<AreaStats>)
    requires
        areas_mergeable(areas_view(list@), other.areas_in_order()),
    ensures
        areas_merged(areas_view(list@), other.areas_in_order(), areas_view(r@)),
{
    let ghost others = other.areas_in_order();
    let mut out: Vec<AreaStats> = Vec::new();
    for i in 0..list.len()
        invariant
            others == other.areas_in_order(),
            areas_mergeable(areas_view(list@), others),
            out@.len() == i,
            forall|j: int| 0 <= j < i ==> area_merged(
                list@[j]@,
                match_for(list@[j]@.def.sid, others),
                #[trigger] out@[j]@,
            ),
    {
        let a = &list[i];
        proof {
            assert(areas_view(list@)[i as int] == a@);
        }
        let merged = match match_in_save(&a.def.sid, other) {
            Some(o) => merged_area(a, o),
            None => a.duplicate(),
        };
        out.push(merged);
    }
    proof {
        assert forall|i: int| 0 <= i < list@.len() implies area_merged(
            areas_view(list@)[i],
            match_for(areas_view(list@)[i].def.sid, others),
            #[trigger] areas_view(out@)[i],
        ) by {
            assert(areas_view(list@)[i] == list@[i]@);
            assert(areas_view(out@)[i] == out@[i]@);
        }
    }
    out
}

/// The strawberries of a list of sides, modulo 2^16.
fn count_mode_berries(modes: &Vec<AreaMode>) -> (r: u32)
    ensures
        r == modes_berries(modes@.map_values(|m: AreaMode| m@)) % 0x10000,
{
    let ghost v = modes@.map_values(|m: AreaMode| m@);
    let mut total: u32 = 0;
    for i in 0..modes.len()
        invariant
            v == modes@.map_values(|m: AreaMode| m@),
            total == modes_berries(v.take(i as int)) % 0x10000,
    {
        let n = modes[i].strawberries.len();
        proof {
            assert(v.take(i + 1).drop_last() =~= v.take(i as int));
            assert(v.take(i + 1).last() == modes@[i as int]@);
            vstd::arithmetic::div_mod::lemma_add_mod_noop(
                modes_berries(v.take(i as int)) as int,
                n as int,
                0x10000,
            );
        }
        total = (total + (n % 0x10000) as u32) % 0x10000;
    }
    proof {
        assert(v.take(v.len() as int) =~= v);
    }
    total
}

/// The strawberries of all sides of a list of areas, modulo 2^16.
fn count_berries(areas: &Vec<AreaStats>) -> (r: u16)
    ensures
        r == areas_berries(areas_view(areas@)) % 0x10000,
{
    let ghost v = areas_view(areas@);
    let mut total: u32 = 0;
    for i in 0..areas.len()
        invariant
            v == areas_view(areas@),
            total == areas_berries(v.take(i as int)) % 0x10000,
    {
        let n = count_mode_berries(&areas[i].modes.modes);
        proof {
            assert(v.take(i + 1).drop_last() =~= v.take(i as int));
            assert(v.take(i + 1).last() == areas@[i as int]@);
            vstd::arithmetic::div_mod::lemma_add_mod_noop(
                areas_berries(v.take(i as int)) as int,
                modes_berries(areas@[i as int]@.modes) as int,
                0x10000,
            );
            vstd::arithmetic::div_mod::lemma_mod_twice(
                modes_berries(areas@[i as int]@.modes) as int,
                0x10000,
            );
        }
        total = (total + n) % 0x10000;
    }
    proof {
        assert(v.take(v.len() as int) =~= v);
    }
    total as u16
}

/// Searching two lists of level sets one after the other.
proof fn lemma_set_named_concat(a: Seq<LevelSetV>, b: Seq<LevelSetV>, name: Seq<char>)
    ensures
        set_named(a + b, name) == match set_named(a, name) {
            Some(x) => Some(x),
            None => set_named(b, name),
        },
    decreases a.len(),
{
    if a.len() > 0 {
        assert((a + b).drop_first() =~= a.drop_first() + b);
        lemma_set_named_concat(a.drop_first(), b, name);
    } else {
        assert(a + b =~= b);
    }
}

/// The first level set of `sets` named `name`.
fn set_in<'a>(sets: &'a Vec<LevelSetStats>, name: &str) -> (r: Option<&'a LevelSetStats>)
    ensures
        match set_named(sets_view(sets@), name@) {
            Some(x) => r matches Some(l) && l@ == x,
            None => r is None,
        },
{
    let ghost v = sets_view(sets@);
    let mut i: usize = 0;
    proof {
        assert(v.skip(0) =~= v);
    }
    while i < sets.len()
        invariant
            i <= sets@.len(),
            v == sets_view(sets@),
            set_named(v, name@) == set_named(v.skip(i as int), name@),
        decreases sets@.len() - i,
    {
        assert(v.skip(i as int).drop_first() =~= v.skip(i + 1));
        assert(v.skip(i as int)[0] == sets@[i as int]@);
        if str_eq(sets[i].name.as_str(), name) {
            return Some(&sets[i]);
        }
        i = i + 1;
    }
    None
}

/// Each level set of `sets` merged with `other`.
fn merged_sets(sets: &Vec<LevelSetStats>, other: &SaveData) -> (r: Vec<LevelSetStats>)
    requires
        sets_mergeable(sets_view(sets@), other.areas_in_order()),
    ensures
        sets_merged(sets_view(sets@), other.areas_in_order(), other.sets_in_order(), sets_view(r@)),
{
    let ghost others = other.areas_in_order();
    let ghost other_sets = other.sets_in_order();
    let mut out: Vec<LevelSetStats> = Vec::new();
    for i in 0..sets.len()
        invariant
            others == other.areas_in_order(),
            other_sets == other.sets_in_order(),
            sets_mergeable(sets_view(sets@), others),
            out@.len() == i,
            forall|j: int| 0 <= j < i ==> set_merged(sets@[j]@, others, other_sets, #[trigger] out@[j]@),
    {
        let set = &sets[i];
        proof {
            assert(sets_view(sets@)[i as int] == set@);
            assert(areas_mergeable(sets_view(sets@)[i as int].areas, others));
        }
        let areas = merged_areas(&set.areas.areas, other);
        let total = count_berries(&areas);
        let mut unlocked = set.unlocked_areas;
        proof {
            lemma_set_named_concat(
                sets_view(other.level_sets.level_set_stats@),
                sets_view(other.level_set_recycle_bin.level_set_stats@),
                set@.name,
            );
        }
        let found = match set_in(&other.level_sets.level_set_stats, set.name.as_str()) {
            Some(o) => Some(o),
            None => set_in(&other.level_set_recycle_bin.level_set_stats, set.name.as_str()),
        };
        if let Some(o) = found {
            if o.unlocked_areas > unlocked {
                unlocked = o.unlocked_areas;
            }
        }
        out.push(
            LevelSetStats {
                name: set.name.clone(),
                areas: Areas { areas },
                poem: crate::saves::Poem { string: duplicate_strings(&set.poem.string) },
                unlocked_areas: unlocked,
                total_strawberries: total,
            },
        );
    }
    proof {
        assert forall|i: int| 0 <= i < sets@.len() implies set_merged(
            sets_view(sets@)[i],
            others,
            other_sets,
            #[trigger] sets_view(out@)[i],
        ) by {
            assert(sets_view(sets@)[i] == sets@[i]@);
            assert(sets_view(out@)[i] == out@[i]@);
        }
    }
    out
}

/// The counts and flags of a save that merging combines.
pub struct Counts {
    pub time: u64,
    pub deaths: u64,
    pub dashes: u64,
    pub jumps: u64,
    pub wall_jumps: u64,
    pub revealed_farewell: bool,
    pub cheat_mode: bool,
    pub assist_mode: bool,
    pub variant_mode: bool,
    pub assists: Assists,
    pub unlocked_areas: AreaCount,
    pub golden: StrawberryCount,
}

/// The counts and flags of a save.
pub open spec fn counts(s: SaveData) -> Counts {
    Counts {
        time: s.time.0,
        deaths: s.total_deaths,
        dashes: s.total_dashes,
        jumps: s.total_jumps,
        wall_jumps: s.total_wall_jumps,
        revealed_farewell: s.revealed_farewell,
        cheat_mode: s.cheat_mode,
        assist_mode: s.assist_mode,
        variant_mode: s.variant_mode,
        assists: s.assists,
        unlocked_areas: s.unlocked_areas,
        golden: s.total_golden_strawberries,
    }
}

/// Two sets of assists, or-ed flag by flag (speed and dash mode kept from `a`).
pub open spec fn assists_or(a: Assists, b: Assists) -> Assists {
    Assists {
        game_speed: a.game_speed,
        dash_mode: a.dash_mode,
        badeline: a.badeline || b.badeline,
        dash_assist: a.dash_assist || b.dash_assist,
        full_dashing: a.full_dashing || b.full_dashing,
        hiccups: a.hiccups || b.hiccups,
        infinite_stamina: a.infinite_stamina || b.infinite_stamina,
        invincible: a.invincible || b.invincible,
        invisible_motion: a.invisible_motion || b.invisible_motion,
        low_friction: a.low_friction || b.low_friction,
        mirror_mode: a.mirror_mode || b.mirror_mode,
        no_grabbing: a.no_grabbing || b.no_grabbing,
        super_dash: a.super_dash || b.super_dash,
    }
}

/// The counts and flags of `s` combined with those of `o`: play time and
/// counts added, flags and assists or-ed, unlocked areas raised to `o`'s;
/// the golden strawberry count is left alone.
pub open spec fn merged_counts(s: SaveData, o: SaveData) -> Counts {
    Counts {
        time: (s.time.0 + o.time.0) as u64,
        deaths: (s.total_deaths + o.total_deaths) as u64,
        dashes: (s.total_dashes + o.total_dashes) as u64,
        jumps: (s.total_jumps + o.total_jumps) as u64,
        wall_jumps: (s.total_wall_jumps + o.total_wall_jumps) as u64,
        revealed_farewell: s.revealed_farewell || o.revealed_farewell,
        cheat_mode: s.cheat_mode || o.cheat_mode,
        assist_mode: s.assist_mode || o.assist_mode,
        variant_mode: s.variant_mode || o.variant_mode,
        assists: assists_or(s.assists, o.assists),
        unlocked_areas: if s.unlocked_areas >= o.unlocked_areas {
            s.unlocked_areas
        } else {
            o.unlocked_areas
        },
        golden: s.total_golden_strawberries,
    }
}

/// The parts of a save that merging leaves alone.
pub open spec fn untouched(s: SaveData) -> (
    String,
    String,
    String,
    String,
    chrono::NaiveDateTime,
    String,
    Flags,
    Poem,
    Option<SummitGems>,
    AreaRef,
    Option<SavedSession>,
    bool,
    Option<AreaRef>,
    Option<SavedSession>,
) {
    (
        s.xsi_url,
        s.xsd_url,
        s.version,
        s.name,
        s.last_save,
        s.theo_sister_name,
        s.flags,
        s.poem,
        s.summit_gems,
        s.last_area,
        s.current_session,
        s.has_modded_save_data,
        s.last_area_safe,
        s.current_session_safe,
    )
}

/// The area lists of a save.
pub open spec fn lists(s: SaveData) -> (Areas, LevelSets, LevelSets) {
    (s.areas, s.level_sets, s.level_set_recycle_bin)
}

/// Two sets of assists, or-ed flag by flag.
fn merge_assists(a: &Assists, b: &Assists) -> (r: Assists)
    ensures
        r == assists_or(*a, *b),
{
    Assists {
        game_speed: a.game_speed,
        dash_mode: a.dash_mode,
        badeline: a.badeline || b.badeline,
        dash_assist: a.dash_assist || b.dash_assist,
        full_dashing: a.full_dashing || b.full_dashing,
        hiccups: a.hiccups || b.hiccups,
        infinite_stamina: a.infinite_stamina || b.infinite_stamina,
        invincible: a.invincible || b.invincible,
        invisible_motion: a.invisible_motion || b.invisible_motion,
        low_friction: a.low_friction || b.low_friction,
        mirror_mode: a.mirror_mode || b.mirror_mode,
        no_grabbing: a.no_grabbing || b.no_grabbing,
        super_dash: a.super_dash || b.super_dash,
    }
}

/// Whether the area lists of `r` are those of `s` merged with `o`: each area
/// merged with its match in `o`, and each level set merged and recounted.
pub open spec fn lists_merged(s: SaveData, o: SaveData, r: SaveData) -> bool {
    let others = o.areas_in_order();
    &&& areas_merged(areas_view(s.areas.areas@), others, areas_view(r.areas.areas@))
    &&& sets_merged(
        sets_view(s.level_sets.level_set_stats@),
        others,
        o.sets_in_order(),
        sets_view(r.level_sets.level_set_stats@),
    )
    &&& sets_merged(
        sets_view(s.level_set_recycle_bin.level_set_stats@),
        others,
        o.sets_in_order(),
        sets_view(r.level_set_recycle_bin.level_set_stats@),
    )
}

/// Whether `r` is the save `s` with the progress of `o` merged in: counts and
/// flags combined, area lists merged, the vanilla strawberry count recounted,
/// and everything else (flags, summit gems, sessions, ...) left as it was.
pub open spec fn merged_save(s: SaveData, o: SaveData, r: SaveData) -> bool {
    &&& counts(r) == merged_counts(s, o)
    &&& lists_merged(s, o, r)
    &&& r.total_strawberries == (areas_berries(areas_view(r.areas.areas@)) % 0x10000) as u16
    &&& untouched(r) == untouched(s)
}

/// Whether the progress of `o` can be merged into `s`: the sums fit in 64
/// bits and every matched area can be merged.
pub open spec fn save_mergeable(s: SaveData, o: SaveData) -> bool {
    let others = o.areas_in_order();
    &&& s.time.0 + o.time.0 <= u64::MAX
    &&& s.total_deaths + o.total_deaths <= u64::MAX
    &&& s.total_dashes + o.total_dashes <= u64::MAX
    &&& s.total_jumps + o.total_jumps <= u64::MAX
    &&& s.total_wall_jumps + o.total_wall_jumps <= u64::MAX
    &&& areas_mergeable(areas_view(s.areas.areas@), others)
    &&& sets_mergeable(sets_view(s.level_sets.level_set_stats@), others)
    &&& sets_mergeable(sets_view(s.level_set_recycle_bin.level_set_stats@), others)
}

impl SaveData {
    /// Combines the counts and flags of `other` with this save's.
    fn merge_counts(&mut self, other: &SaveData)
        requires
            old(self).time.0 + other.time.0 <= u64::MAX,
            old(self).total_deaths + other.total_deaths <= u64::MAX,
            old(self).total_dashes + other.total_dashes <= u64::MAX,
            old(self).total_jumps + other.total_jumps <= u64::MAX,
            old(self).total_wall_jumps + other.total_wall_jumps <= u64::MAX,
        ensures
            counts(*final(self)) == merged_counts(*old(self), *other),
            lists(*final(self)) == lists(*old(self)),
            final(self).total_strawberries == old(self).total_strawberries,
            untouched(*final(self)) == untouched(*old(self)),
    {
        self.time = FileTime(self.time.0 + other.time.0);
        self.total_deaths = self.total_deaths + other.total_deaths;
        self.total_dashes = self.total_dashes + other.total_dashes;
        self.total_jumps = self.total_jumps + other.total_jumps;
        self.total_wall_jumps = self.total_wall_jumps + other.total_wall_jumps;
        self.revealed_farewell = self.revealed_farewell || other.revealed_farewell;
        self.cheat_mode = self.cheat_mode || other.cheat_mode;
        self.assist_mode = self.assist_mode || other.assist_mode;
        self.variant_mode = self.variant_mode || other.variant_mode;
        self.assists = merge_assists(&self.assists, &other.assists);
        if other.unlocked_areas > self.unlocked_areas {
            self.unlocked_areas = other.unlocked_areas;
        }
    }

    /// Merges the area lists of `other` into this save's and recounts the
    /// vanilla strawberries.
    fn merge_lists(&mut self, other: &SaveData)
        requires
            areas_mergeable(areas_view(old(self).areas.areas@), other.areas_in_order()),
            sets_mergeable(sets_view(old(self).level_sets.level_set_stats@), other.areas_in_order()),
            sets_mergeable(sets_view(old(self).level_set_recycle_bin.level_set_stats@), other.areas_in_order()),
        ensures
            lists_merged(*old(self), *other, *final(self)),
            final(self).total_strawberries == (areas_berries(areas_view(final(self).areas.areas@)) % 0x10000) as u16,
            counts(*final(self)) == counts(*old(self)),
            untouched(*final(self)) == untouched(*old(self)),
    {
        let areas = merged_areas(&self.areas.areas, other);
        let sets = merged_sets(&self.level_sets.level_set_stats, other);
        let bin = merged_sets(&self.level_set_recycle_bin.level_set_stats, other);
        self.areas = Areas { areas };
        self.level_sets = LevelSets { level_set_stats: sets };
        self.level_set_recycle_bin = LevelSets { level_set_stats: bin };
        self.total_strawberries = count_berries(&self.areas.areas);
    }

    /// Merges the applicable data from another [SaveData] into this one
    ///
    /// #### Unmerged Data
    /// These are the fields that are currently not merged that might be in a future version
    /// - [SaveData::total_golden_strawberries]
    /// - [SaveData::flags]
    /// - [SaveData::summit_gems]
    pub fn merge_data(&mut self, other: &SaveData)
        requires
            save_mergeable(*old(self), *other),
        ensures
            merged_save(*old(self), *other, *final(self)),
    {
        self.merge_counts(other);
        self.merge_lists(other);
    }
}


/// Whether the checkpoints of `o` can be merged into those of `s`.
fn checkpoints_mergeable(s: &Checkpoints, o: &Checkpoints) -> (r: bool)
    ensures
        r == cps_mergeable(s@, o@, o@.len()),
{
    let mut out = duplicate_strings(&s.checkpoints);
    let n = o.checkpoints.len();
    for idx in 0..n
        invariant
            n == o@.len(),
            cps_mergeable(s@, o@, idx as nat),
            string_views(out@) == cps_merged(s@, o@, idx as nat),
    {
        let cp = &o.checkpoints[idx];
        proof {
            assert(o@[idx as int] == cp@);
        }
        if !contains_string(&out, cp.as_str()) {
            if idx > out.len() {
                proof {
                    if cps_mergeable(s@, o@, o@.len()) {
                        lemma_cps_mergeable_prefix(s@, o@, o@.len(), (idx + 1) as nat);
                    }
                }
                return false;
            }
            let c = cp.clone();
            out.insert(idx, c);
            proof {
                assert(string_views(out@) =~= cps_merged(s@, o@, idx as nat).insert(idx as int, cp@));
            }
        }
    }
    true
}

/// Whether the side `o` can be merged into the side `s`.
fn mode_mergeable_check(s: &AreaMode, o: &AreaMode) -> (r: bool)
    ensures
        r == mode_mergeable(s@, o@),
{
    checkpoints_mergeable(&s.checkpoints, &o.checkpoints) && s.stats.deaths <= u64::MAX - o.stats.deaths
        && s.stats.time_played.0 <= u64::MAX - o.stats.time_played.0
}

/// Whether the area `s` can be merged with the area matched to it, if any.
fn area_mergeable_check(s: &AreaStats, o: Option<&AreaStats>) -> (r: bool)
    ensures
        r == area_mergeable(
            s@,
            match o {
                Some(x) => Some(x@),
                None => None,
            },
        ),
{
    match o {
        None => true,
        Some(x) => {
            let n = s.modes.modes.len();
            for i in 0..n
                invariant
                    n == s@.modes.len(),
                    o == Some(x),
                    forall|j: int| 0 <= j < i && j < x@.modes.len() ==> mode_mergeable(#[trigger] s@.modes[j], x@.modes[j]),
            {
                if i < x.modes.modes.len() {
                    proof {
                        assert(s@.modes[i as int] == s.modes.modes@[i as int]@);
                        assert(x@.modes[i as int] == x.modes.modes@[i as int]@);
                    }
                    if !mode_mergeable_check(&s.modes.modes[i], &x.modes.modes[i]) {
                        assert(!mode_mergeable(s@.modes[i as int], x@.modes[i as int]));
                        return false;
                    }
                }
            }
            true
        },
    }
}

/// Whether each area of `list` can be merged with its match in `other`.
fn areas_mergeable_check(list: &Vec<AreaStats>, other: &SaveData) -> (r: bool)
    ensures
        r == areas_mergeable(areas_view(list@), other.areas_in_order()),
{
    let ghost others = other.areas_in_order();
    for i in 0..list.len()
        invariant
            others == other.areas_in_order(),
            forall|j: int| 0 <= j < i ==> area_mergeable(#[trigger] areas_view(list@)[j], match_for(areas_view(list@)[j].def.sid, others)),
    {
        let a = &list[i];
        proof {
            assert(areas_view(list@)[i as int] == a@);
        }
        let found = match_in_save(&a.def.sid, other);
        if !area_mergeable_check(a, found) {
            return false;
        }
    }
    true
}

/// Whether the areas of each level set of `sets` can be merged with `other`.
fn sets_mergeable_check(sets: &Vec<LevelSetStats>, other: &SaveData) -> (r: bool)
    ensures
        r == sets_mergeable(sets_view(sets@), other.areas_in_order()),
{
    for i in 0..sets.len()
        invariant
            forall|j: int| 0 <= j < i ==> areas_mergeable(#[trigger] sets_view(sets@)[j].areas, other.areas_in_order()),
    {
        proof {
            assert(sets_view(sets@)[i as int] == sets@[i as int]@);
        }
        if !areas_mergeable_check(&sets[i].areas.areas, other) {
            assert(!areas_mergeable(sets_view(sets@)[i as int].areas, other.areas_in_order()));
            return false;
        }
    }
    true
}

impl SaveData {
    /// Whether `other` can be merged into this save: no count overflows, and
    /// each checkpoint missing from a side has a place to go.
    pub fn can_merge(&self, other: &SaveData) -> (r: bool)
        ensures
            r == save_mergeable(*self, *other),
    {
        self.time.0 <= u64::MAX - other.time.0 && self.total_deaths <= u64::MAX - other.total_deaths
            && self.total_dashes <= u64::MAX - other.total_dashes && self.total_jumps <= u64::MAX - other.total_jumps
            && self.total_wall_jumps <= u64::MAX - other.total_wall_jumps && areas_mergeable_check(&self.areas.areas, other)
            && sets_mergeable_check(&self.level_sets.level_set_stats, other) && sets_mergeable_check(
            &self.level_set_recycle_bin.level_set_stats,
            other,
        )
    }
}

/// Merging two sides keeps the better record of each: the best time, the
/// best full-clear time, the fewest dashes and the fewest deaths are each no
/// more than either side's and are one of the two sides'. A side is
/// completed, fully cleared, cleared in a single run or has its heart gem
/// when either side had it; deaths and play time are added; the merged side
/// holds each strawberry of either side once, and counts them.
pub proof fn lemma_merged_side_keeps_best(s: ModeV, o: ModeV, r: ModeV)
    requires
        mode_mergeable(s, o),
        mode_merged(s, o, r),
    ensures
        r.stats.best_time.0 <= s.stats.best_time.0,
        r.stats.best_time.0 <= o.stats.best_time.0,
        r.stats.best_time == s.stats.best_time || r.stats.best_time == o.stats.best_time,
        r.stats.best_full_clear_time.0 <= s.stats.best_full_clear_time.0,
        r.stats.best_full_clear_time.0 <= o.stats.best_full_clear_time.0,
        r.stats.best_full_clear_time == s.stats.best_full_clear_time || r.stats.best_full_clear_time
            == o.stats.best_full_clear_time,
        r.stats.best_dashes <= s.stats.best_dashes,
        r.stats.best_dashes <= o.stats.best_dashes,
        r.stats.best_dashes == s.stats.best_dashes || r.stats.best_dashes == o.stats.best_dashes,
        r.stats.best_deaths <= s.stats.best_deaths,
        r.stats.best_deaths <= o.stats.best_deaths,
        r.stats.best_deaths == s.stats.best_deaths || r.stats.best_deaths == o.stats.best_deaths,
        r.stats.completed == (s.stats.completed || o.stats.completed),
        r.stats.single_run_completed == (s.stats.single_run_completed || o.stats.single_run_completed),
        r.stats.full_clear == (s.stats.full_clear || o.stats.full_clear),
        r.stats.heart_gem == (s.stats.heart_gem || o.stats.heart_gem),
        r.stats.deaths == s.stats.deaths + o.stats.deaths,
        r.stats.time_played.0 == s.stats.time_played.0 + o.stats.time_played.0,
        forall|x: Seq<char>| #[trigger] r.strawberries.contains(x) <==> (s.strawberries.contains(x) || o.strawberries.contains(x)),
        r.strawberries.no_duplicates(),
        r.stats.total_strawberries == r.strawberries.len() % 0x10000,
{
}

/// Merging a save with another adds their play time, deaths, dashes, jumps
/// and wall jumps; farewell revealed, cheat, assist and variant mode, and
/// each assist flag, are set when either save has them (game speed and dash
/// mode stay this save's); the unlocked area count is the larger of the two;
/// the golden strawberry count is this save's.
pub proof fn lemma_merged_save_counts(s: SaveData, o: SaveData, r: SaveData)
    requires
        save_mergeable(s, o),
        merged_save(s, o, r),
    ensures
        r.time.0 == s.time.0 + o.time.0,
        r.total_deaths == s.total_deaths + o.total_deaths,
        r.total_dashes == s.total_dashes + o.total_dashes,
        r.total_jumps == s.total_jumps + o.total_jumps,
        r.total_wall_jumps == s.total_wall_jumps + o.total_wall_jumps,
        r.revealed_farewell == (s.revealed_farewell || o.revealed_farewell),
        r.cheat_mode == (s.cheat_mode || o.cheat_mode),
        r.assist_mode == (s.assist_mode || o.assist_mode),
        r.variant_mode == (s.variant_mode || o.variant_mode),
        r.assists.game_speed == s.assists.game_speed,
        r.assists.dash_mode == s.assists.dash_mode,
        r.assists.invincible == (s.assists.invincible || o.assists.invincible),
        r.assists.dash_assist == (s.assists.dash_assist || o.assists.dash_assist),
        r.assists.infinite_stamina == (s.assists.infinite_stamina || o.assists.infinite_stamina),
        r.assists.mirror_mode == (s.assists.mirror_mode || o.assists.mirror_mode),
        r.assists.full_dashing == (s.assists.full_dashing || o.assists.full_dashing),
        r.assists.invisible_motion == (s.assists.invisible_motion || o.assists.invisible_motion),
        r.assists.no_grabbing == (s.assists.no_grabbing || o.assists.no_grabbing),
        r.assists.low_friction == (s.assists.low_friction || o.assists.low_friction),
        r.assists.super_dash == (s.assists.super_dash || o.assists.super_dash),
        r.assists.hiccups == (s.assists.hiccups || o.assists.hiccups),
        r.assists.badeline == (s.assists.badeline || o.assists.badeline),
        r.unlocked_areas >= s.unlocked_areas,
        r.unlocked_areas >= o.unlocked_areas,
        r.unlocked_areas == s.unlocked_areas || r.unlocked_areas == o.unlocked_areas,
        r.total_golden_strawberries == s.total_golden_strawberries,
{
    assert(counts(r) == merged_counts(s, o));
}

/// After merging a save with another, each side of a vanilla area that the
/// other save also has holds the better of the two sides' best times: no
/// more than either, and one of them.
pub proof fn lemma_merged_save_keeps_best_times(s: SaveData, o: SaveData, r: SaveData, i: int, j: int)
    requires
        save_mergeable(s, o),
        merged_save(s, o, r),
        0 <= i < s.areas.areas@.len(),
        match_for(areas_view(s.areas.areas@)[i].def.sid, o.areas_in_order()) is Some,
        0 <= j < areas_view(s.areas.areas@)[i].modes.len(),
        j < match_for(areas_view(s.areas.areas@)[i].def.sid, o.areas_in_order())->Some_0.modes.len(),
    ensures
        ({
            let a = areas_view(s.areas.areas@)[i].modes[j].stats;
            let b = match_for(areas_view(s.areas.areas@)[i].def.sid, o.areas_in_order())->Some_0.modes[j].stats;
            let m = areas_view(r.areas.areas@)[i].modes[j].stats;
            &&& m.best_time.0 <= a.best_time.0
            &&& m.best_time.0 <= b.best_time.0
            &&& (m.best_time == a.best_time || m.best_time == b.best_time)
            &&& m.best_full_clear_time.0 <= a.best_full_clear_time.0
            &&& m.best_full_clear_time.0 <= b.best_full_clear_time.0
            &&& (m.best_full_clear_time == a.best_full_clear_time || m.best_full_clear_time == b.best_full_clear_time)
        }),
{
    let sa = areas_view(s.areas.areas@);
    let others = o.areas_in_order();
    let mo = match_for(sa[i].def.sid, others)->Some_0;
    assert(area_mergeable(sa[i], match_for(sa[i].def.sid, others)));
    assert(area_merged(sa[i], match_for(sa[i].def.sid, others), areas_view(r.areas.areas@)[i]));
    assert(mode_mergeable(sa[i].modes[j], mo.modes[j]));
    lemma_merged_side_keeps_best(sa[i].modes[j], mo.modes[j], areas_view(r.areas.areas@)[i].modes[j]);
}

} // verus!
