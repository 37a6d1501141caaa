//! Mutable access to the areas and level sets of a save.
use vstd::prelude::*;

use super::everest::LevelSetStats;
use super::vanilla::AreaStats;
use super::{
    area_sid_matches, find_in_sets, first_with_sid, lemma_first_with_sid_concat, marked, sets_areas, sid_matches, tagged, AreaSource,
    ModSaveData, SaveData,
};
use crate::utils::text::str_starts_with;

verus! {

// ---------------------------------------------------------------------------
// The laws of `sets_areas` that the proofs below use
// ---------------------------------------------------------------------------

/// The areas of two runs of level sets, one after the other.
pub broadcast proof fn lemma_sets_areas_concat(a: Seq<LevelSetStats>, b: Seq<LevelSetStats>)
    ensures
        #[trigger] sets_areas(a + b) == sets_areas(a) + sets_areas(b),
    decreases a.len(),
{
    if a.len() == 0 {
        assert(a + b =~= b);
        assert(Seq::<AreaStats>::empty() + sets_areas(b) =~= sets_areas(b));
    } else {
        assert((a + b).drop_first() =~= a.drop_first() + b);
        lemma_sets_areas_concat(a.drop_first(), b);
        assert(a[0].areas.areas@ + (sets_areas(a.drop_first()) + sets_areas(b)) =~= (a[0].areas.areas@
            + sets_areas(a.drop_first())) + sets_areas(b));
    }
}

/// The areas of a single level set.
pub broadcast proof fn lemma_sets_areas_one(s: Seq<LevelSetStats>)
    requires
        s.len() == 1,
    ensures
        #[trigger] sets_areas(s) == s[0].areas.areas@,
{
    assert(sets_areas(s.drop_first()) == Seq::<AreaStats>::empty());
    assert(s[0].areas.areas@ + Seq::<AreaStats>::empty() =~= s[0].areas.areas@);
}

// ---------------------------------------------------------------------------
// What the mutable accessors promise
// ---------------------------------------------------------------------------

/// `b` is the level set `a` with, at most, other values in its areas: its
/// name, poem and counts are kept and it has as many areas.
pub open spec fn set_kept(a: LevelSetStats, b: LevelSetStats) -> bool {
    &&& b == LevelSetStats { areas: b.areas, ..a }
    &&& b.areas.areas@.len() == a.areas.areas@.len()
}

/// Each level set of `b` is the one of `a` at its place with, at most,
/// other values in its areas.
pub open spec fn sets_kept(a: Seq<LevelSetStats>, b: Seq<LevelSetStats>) -> bool {
    &&& b.len() == a.len()
    &&& forall|j: int| #![trigger a[j]] #![trigger b[j]] 0 <= j < a.len() ==> set_kept(a[j], b[j])
}

/// Whether the `k`th area of `s` is the first with the sid `sid`.
pub open spec fn is_first_sid(s: Seq<AreaStats>, sid: Seq<char>, k: int) -> bool {
    &&& 0 <= k < s.len()
    &&& sid_matches(s[k], sid)
    &&& forall|j: int| 0 <= j < k ==> !sid_matches(#[trigger] s[j], sid)
}

/// What a search that hands out the first area of `before` with the sid `sid`
/// for writing leaves behind: where there is one, `found` holds its value and
/// the value written to it, and `after` is `before` with that one area
/// replaced; where there is none, `found` is `None` and `after` is `before`.
pub open spec fn first_sid_replaced(
    before: Seq<AreaStats>,
    after: Seq<AreaStats>,
    sid: Seq<char>,
    found: Option<(AreaStats, AreaStats)>,
) -> bool {
    match found {
        Some((was, now)) => exists|k: int| #[trigger]
            is_first_sid(before, sid, k) && before[k] == was && after =~= before.update(k, now),
        None => first_with_sid(before, sid) is None && after =~= before,
    }
}

/// The first area of `s` with the sid `sid` is its `k`th.
proof fn lemma_first_with_sid_at(s: Seq<AreaStats>, sid: Seq<char>, k: int)
    requires
        is_first_sid(s, sid, k),
    ensures
        first_with_sid(s, sid) == Some(s[k]),
    decreases s.len(),
{
    if k > 0 {
        assert(!sid_matches(s[0], sid));
        assert forall|j: int| 0 <= j < k - 1 implies !sid_matches(#[trigger] s.drop_first()[j], sid) by {
            assert(s.drop_first()[j] == s[j + 1]);
        }
        lemma_first_with_sid_at(s.drop_first(), sid, k - 1);
    }
}

/// Where a search finds nothing, no area has the sid.
proof fn lemma_no_sid_in(s: Seq<AreaStats>, sid: Seq<char>)
    requires
        first_with_sid(s, sid) is None,
    ensures
        forall|j: int| 0 <= j < s.len() ==> !sid_matches(#[trigger] s[j], sid),
    decreases s.len(),
{
    if s.len() > 0 {
        lemma_no_sid_in(s.drop_first(), sid);
        assert forall|j: int| 0 <= j < s.len() implies !sid_matches(#[trigger] s[j], sid) by {
            if j > 0 {
                assert(s[j] == s.drop_first()[j - 1]);
            }
        }
    }
}

/// A search that finds nothing in `s` finds no area with the sid.
proof fn lemma_none_with_sid(s: Seq<AreaStats>, sid: Seq<char>)
    requires
        forall|j: int| 0 <= j < s.len() ==> !sid_matches(#[trigger] s[j], sid),
    ensures
        first_with_sid(s, sid) is None,
    decreases s.len(),
{
    if s.len() > 0 {
        assert forall|j: int| 0 <= j < s.len() - 1 implies !sid_matches(#[trigger] s.drop_first()[j], sid) by {
            assert(s.drop_first()[j] == s[j + 1]);
        }
        lemma_none_with_sid(s.drop_first(), sid);
    }
}

// ---------------------------------------------------------------------------
// Handing out every area or level set
// ---------------------------------------------------------------------------

/// Appends a reference to each item of `s`, with the tag `tag`.
fn push_tagged_mut<'a, T, G: Copy>(out: &mut Vec<(&'a mut T, G)>, s: &'a mut [T], tag: G)
    ensures
        final(out)@.map_values(|p: (&mut T, G)| (*p.0, p.1)) == old(out)@.map_values(|p: (&mut T, G)| (*p.0, p.1))
            + old(s)@.map_values(|x: T| (x, tag)),
        final(out)@.map_values(|p: (&mut T, G)| (*final(p.0), p.1)) == old(out)@.map_values(
            |p: (&mut T, G)| (*final(p.0), p.1),
        ) + final(s)@.map_values(|x: T| (x, tag)),
        final(s)@.len() == old(s)@.len(),
    decreases old(s)@.len(),
{
    if s.len() > 0 {
        let (first, rest) = s.split_at_mut(1);
        out.push((&mut first[0], tag));
        push_tagged_mut(out, rest, tag);
    }
}

/// Appends a reference to each area of each level set of `s`, with the
/// source `tag`.
fn push_set_areas_mut<'a>(out: &mut Vec<(&'a mut AreaStats, AreaSource)>, s: &'a mut [LevelSetStats], tag: AreaSource)
    ensures
        final(out)@.map_values(|p: (&mut AreaStats, AreaSource)| (*p.0, p.1)) == old(out)@.map_values(
            |p: (&mut AreaStats, AreaSource)| (*p.0, p.1),
        ) + tagged(sets_areas(old(s)@), tag),
        final(out)@.map_values(|p: (&mut AreaStats, AreaSource)| (*final(p.0), p.1)) == old(out)@.map_values(
            |p: (&mut AreaStats, AreaSource)| (*final(p.0), p.1),
        ) + tagged(sets_areas(final(s)@), tag),
        sets_kept(old(s)@, final(s)@),
    decreases old(s)@.len(),
{
    if s.len() > 0 {
        let (first, rest) = s.split_at_mut(1);
        push_tagged_mut(out, first[0].areas.areas.as_mut_slice(), tag);
        push_set_areas_mut(out, rest, tag);
        proof {
            broadcast use lemma_sets_areas_concat, lemma_sets_areas_one;
        }
    }
}

// ---------------------------------------------------------------------------
// Finding one area for writing
// ---------------------------------------------------------------------------

/// Hands out the first area of `s` with the sid `sid`.
fn find_in_slice_mut<'a>(s: &'a mut [AreaStats], sid: &str) -> (r: Option<&'a mut AreaStats>)
    ensures
        first_sid_replaced(
            old(s)@,
            final(s)@,
            sid@,
            match r {
                Some(a) => Some((*a, *final(a))),
                None => None,
            },
        ),
    decreases old(s)@.len(),
{
    if s.len() == 0 {
        proof {
            lemma_none_with_sid(old(s)@, sid@);
        }
        return None;
    }
    let ghost before = s@;
    let (first, rest) = s.split_at_mut(1);
    if area_sid_matches(&first[0], sid) {
        proof {
            assert(is_first_sid(before, sid@, 0));
        }
        Some(&mut first[0])
    } else {
        let ghost rest_v = rest@;
        let found = find_in_slice_mut(rest, sid);
        proof {
            assert(before.drop_first() =~= rest_v);
            if found is Some {
                let k1 = choose|k: int| is_first_sid(rest_v, sid@, k);
                assert(is_first_sid(before, sid@, k1 + 1)) by {
                    assert forall|j: int| 0 <= j < k1 + 1 implies !sid_matches(#[trigger] before[j], sid@) by {
                        if j > 0 {
                            assert(before[j] == rest_v[j - 1]);
                        }
                    }
                }
            }
        }
        found
    }
}

/// Hands out the first area with the sid `sid` among the areas of the level
/// sets of `s`.
fn find_in_sets_mut<'a>(s: &'a mut [LevelSetStats], sid: &str) -> (r: Option<&'a mut AreaStats>)
    ensures
        first_sid_replaced(
            sets_areas(old(s)@),
            sets_areas(final(s)@),
            sid@,
            match r {
                Some(a) => Some((*a, *final(a))),
                None => None,
            },
        ),
        sets_kept(old(s)@, final(s)@),
    decreases old(s)@.len(),
{
    broadcast use lemma_sets_areas_concat, lemma_sets_areas_one;

    if s.len() == 0 {
        return None;
    }
    let ghost before = s@;
    let (first, rest) = s.split_at_mut(1);
    let ghost first_areas = first@[0].areas.areas@;
    let ghost rest_v = rest@;
    proof {
        assert(before =~= first@ + rest_v);
        assert(sets_areas(before) == first_areas + sets_areas(rest_v));
    }
    let found = find_in_slice_mut(first[0].areas.areas.as_mut_slice(), sid);
    if found.is_some() {
        proof {
            let k1 = choose|k: int| is_first_sid(first_areas, sid@, k);
            assert(is_first_sid(sets_areas(before), sid@, k1)) by {
                assert forall|j: int| 0 <= j < k1 implies !sid_matches(#[trigger] sets_areas(before)[j], sid@) by {
                    assert(sets_areas(before)[j] == first_areas[j]);
                }
            }
        }
        found
    } else {
        let found_rest = find_in_sets_mut(rest, sid);
        proof {
            lemma_no_sid_in(first_areas, sid@);
            lemma_first_with_sid_concat(first_areas, sets_areas(rest_v), sid@);
            if found_rest is Some {
                let k1 = choose|k: int| is_first_sid(sets_areas(rest_v), sid@, k);
                let k = first_areas.len() + k1;
                assert(is_first_sid(sets_areas(before), sid@, k)) by {
                    assert forall|j: int| 0 <= j < k implies !sid_matches(#[trigger] sets_areas(before)[j], sid@) by {
                        if j < first_areas.len() {
                            assert(sets_areas(before)[j] == first_areas[j]);
                        } else {
                            assert(sets_areas(before)[j] == sets_areas(rest_v)[j - first_areas.len()]);
                        }
                    }
                }
            }
        }
        found_rest
    }
}


impl SaveData {
    /// Combines all the [LevelSetStats] into one vec for editing, with a
    /// boolean indicating whether they are in the recycle bin or not
    pub fn all_level_sets_mut(&mut self) -> (r: Vec<(&mut LevelSetStats, bool)>)
        ensures
            r@.map_values(|p: (&mut LevelSetStats, bool)| (*p.0, p.1)) == marked(
                old(self).level_sets.level_set_stats@,
                false,
            ) + marked(old(self).level_set_recycle_bin.level_set_stats@, true),
            r@.map_values(|p: (&mut LevelSetStats, bool)| (*final(p.0), p.1)) == marked(
                final(self).level_sets.level_set_stats@,
                false,
            ) + marked(final(self).level_set_recycle_bin.level_set_stats@, true),
            *final(self) == (SaveData {
                level_sets: final(self).level_sets,
                level_set_recycle_bin: final(self).level_set_recycle_bin,
                ..*old(self)
            }),
    {
        let mut out: Vec<(&mut LevelSetStats, bool)> = Vec::new();
        push_tagged_mut(&mut out, self.level_sets.level_set_stats.as_mut_slice(), false);
        push_tagged_mut(&mut out, self.level_set_recycle_bin.level_set_stats.as_mut_slice(), true);
        out
    }

    /// Combines all the areas into one list for editing, adding a tag that
    /// denotes what group the area is in
    pub fn all_areas_mut(&mut self) -> (r: Vec<(&mut AreaStats, AreaSource)>)
        ensures
            r@.map_values(|p: (&mut AreaStats, AreaSource)| (*p.0, p.1)) == old(self).all_areas_spec(),
            r@.map_values(|p: (&mut AreaStats, AreaSource)| (*final(p.0), p.1)) == final(self).all_areas_spec(),
            *final(self) == (SaveData {
                areas: final(self).areas,
                level_sets: final(self).level_sets,
                level_set_recycle_bin: final(self).level_set_recycle_bin,
                ..*old(self)
            }),
            final(self).areas.areas@.len() == old(self).areas.areas@.len(),
            sets_kept(old(self).level_sets.level_set_stats@, final(self).level_sets.level_set_stats@),
            sets_kept(
                old(self).level_set_recycle_bin.level_set_stats@,
                final(self).level_set_recycle_bin.level_set_stats@,
            ),
    {
        let mut out: Vec<(&mut AreaStats, AreaSource)> = Vec::new();
        push_tagged_mut(&mut out, self.areas.areas.as_mut_slice(), AreaSource::Vanilla);
        push_set_areas_mut(&mut out, self.level_sets.level_set_stats.as_mut_slice(), AreaSource::LevelSets);
        push_set_areas_mut(
            &mut out,
            self.level_set_recycle_bin.level_set_stats.as_mut_slice(),
            AreaSource::LevelSetRecycleBin,
        );
        out
    }

    /// Returns a mutable reference to an [AreaStats] given the area's sid
    ///
    /// Vanilla sids (those that start with "Celeste") are looked up among the
    /// vanilla areas, others among the level sets and then the recycle bin.
    /// Returns `None` if no area with the given sid is found.
    pub fn find_area_by_sid_mut<'a>(&'a mut self, sid: &str) -> (r: Option<&'a mut AreaStats>)
        ensures
            if "Celeste"@.is_prefix_of(sid@) {
                &&& first_sid_replaced(
                    old(self).areas.areas@,
                    final(self).areas.areas@,
                    sid@,
                    match r {
                        Some(a) => Some((*a, *final(a))),
                        None => None,
                    },
                )
                &&& *final(self) == (SaveData { areas: final(self).areas, ..*old(self) })
            } else if first_with_sid(sets_areas(old(self).level_sets.level_set_stats@), sid@) is Some {
                &&& first_sid_replaced(
                    sets_areas(old(self).level_sets.level_set_stats@),
                    sets_areas(final(self).level_sets.level_set_stats@),
                    sid@,
                    match r {
                        Some(a) => Some((*a, *final(a))),
                        None => None,
                    },
                )
                &&& sets_kept(old(self).level_sets.level_set_stats@, final(self).level_sets.level_set_stats@)
                &&& *final(self) == (SaveData { level_sets: final(self).level_sets, ..*old(self) })
            } else {
                &&& first_sid_replaced(
                    sets_areas(old(self).level_set_recycle_bin.level_set_stats@),
                    sets_areas(final(self).level_set_recycle_bin.level_set_stats@),
                    sid@,
                    match r {
                        Some(a) => Some((*a, *final(a))),
                        None => None,
                    },
                )
                &&& sets_kept(
                    old(self).level_set_recycle_bin.level_set_stats@,
                    final(self).level_set_recycle_bin.level_set_stats@,
                )
                &&& *final(self) == (SaveData { level_set_recycle_bin: final(self).level_set_recycle_bin, ..*old(self) })
            },
    {
        proof {
            reveal_strlit("Celeste");
        }
        if str_starts_with(sid, "Celeste") {
            find_in_slice_mut(self.areas.areas.as_mut_slice(), sid)
        } else if find_in_sets(&self.level_sets.level_set_stats, sid).is_some() {
            find_in_sets_mut(self.level_sets.level_set_stats.as_mut_slice(), sid)
        } else {
            find_in_sets_mut(self.level_set_recycle_bin.level_set_stats.as_mut_slice(), sid)
        }
    }

    /// Returns a mutable reference to an [AreaStats] given the area's sid and
    /// [AreaSource]
    ///
    /// Returns `None` if no area with the given sid is found in the list
    /// indicated by the source.
    pub fn find_area_by_sid_and_source_mut<'a>(&'a mut self, sid: &str, source: AreaSource) -> (r: Option<
        &'a mut AreaStats,
    >)
        ensures
            match source {
                AreaSource::Vanilla => {
                    &&& first_sid_replaced(
                        old(self).areas.areas@,
                        final(self).areas.areas@,
                        sid@,
                        match r {
                            Some(a) => Some((*a, *final(a))),
                            None => None,
                        },
                    )
                    &&& *final(self) == (SaveData { areas: final(self).areas, ..*old(self) })
                },
                AreaSource::LevelSets => {
                    &&& first_sid_replaced(
                        sets_areas(old(self).level_sets.level_set_stats@),
                        sets_areas(final(self).level_sets.level_set_stats@),
                        sid@,
                        match r {
                            Some(a) => Some((*a, *final(a))),
                            None => None,
                        },
                    )
                    &&& sets_kept(old(self).level_sets.level_set_stats@, final(self).level_sets.level_set_stats@)
                    &&& *final(self) == (SaveData { level_sets: final(self).level_sets, ..*old(self) })
                },
                AreaSource::LevelSetRecycleBin => {
                    &&& first_sid_replaced(
                        sets_areas(old(self).level_set_recycle_bin.level_set_stats@),
                        sets_areas(final(self).level_set_recycle_bin.level_set_stats@),
                        sid@,
                        match r {
                            Some(a) => Some((*a, *final(a))),
                            None => None,
                        },
                    )
                    &&& sets_kept(
                        old(self).level_set_recycle_bin.level_set_stats@,
                        final(self).level_set_recycle_bin.level_set_stats@,
                    )
                    &&& *final(self) == (SaveData {
                        level_set_recycle_bin: final(self).level_set_recycle_bin,
                        ..*old(self)
                    })
                },
            },
    {
        match source {
            AreaSource::Vanilla => find_in_slice_mut(self.areas.areas.as_mut_slice(), sid),
            AreaSource::LevelSets => find_in_sets_mut(self.level_sets.level_set_stats.as_mut_slice(), sid),
            AreaSource::LevelSetRecycleBin => find_in_sets_mut(
                self.level_set_recycle_bin.level_set_stats.as_mut_slice(),
                sid,
            ),
        }
    }
}


impl ModSaveData {
    /// Combines all the [LevelSetStats] into one vec for editing, with a
    /// boolean indicating whether they are in the recycle bin or not
    pub fn all_level_sets_mut(&mut self) -> (r: Vec<(&mut LevelSetStats, bool)>)
        ensures
            r@.map_values(|p: (&mut LevelSetStats, bool)| (*p.0, p.1)) == marked(
                old(self).level_sets.level_set_stats@,
                false,
            ) + marked(old(self).level_set_recycle_bin.level_set_stats@, true),
            r@.map_values(|p: (&mut LevelSetStats, bool)| (*final(p.0), p.1)) == marked(
                final(self).level_sets.level_set_stats@,
                false,
            ) + marked(final(self).level_set_recycle_bin.level_set_stats@, true),
            *final(self) == (ModSaveData {
                level_sets: final(self).level_sets,
                level_set_recycle_bin: final(self).level_set_recycle_bin,
                ..*old(self)
            }),
    {
        let mut out: Vec<(&mut LevelSetStats, bool)> = Vec::new();
        push_tagged_mut(&mut out, self.level_sets.level_set_stats.as_mut_slice(), false);
        push_tagged_mut(&mut out, self.level_set_recycle_bin.level_set_stats.as_mut_slice(), true);
        out
    }

    /// Combines all the areas into one list for editing, adding a tag that
    /// denotes what group the area is in
    pub fn all_areas_mut(&mut self) -> (r: Vec<(&mut AreaStats, AreaSource)>)
        ensures
            r@.map_values(|p: (&mut AreaStats, AreaSource)| (*p.0, p.1)) == tagged(
                sets_areas(old(self).level_sets.level_set_stats@),
                AreaSource::LevelSets,
            ) + tagged(sets_areas(old(self).level_set_recycle_bin.level_set_stats@), AreaSource::LevelSetRecycleBin),
            r@.map_values(|p: (&mut AreaStats, AreaSource)| (*final(p.0), p.1)) == tagged(
                sets_areas(final(self).level_sets.level_set_stats@),
                AreaSource::LevelSets,
            ) + tagged(
                sets_areas(final(self).level_set_recycle_bin.level_set_stats@),
                AreaSource::LevelSetRecycleBin,
            ),
            *final(self) == (ModSaveData {
                level_sets: final(self).level_sets,
                level_set_recycle_bin: final(self).level_set_recycle_bin,
                ..*old(self)
            }),
            sets_kept(old(self).level_sets.level_set_stats@, final(self).level_sets.level_set_stats@),
            sets_kept(
                old(self).level_set_recycle_bin.level_set_stats@,
                final(self).level_set_recycle_bin.level_set_stats@,
            ),
    {
        let mut out: Vec<(&mut AreaStats, AreaSource)> = Vec::new();
        push_set_areas_mut(&mut out, self.level_sets.level_set_stats.as_mut_slice(), AreaSource::LevelSets);
        push_set_areas_mut(
            &mut out,
            self.level_set_recycle_bin.level_set_stats.as_mut_slice(),
            AreaSource::LevelSetRecycleBin,
        );
        out
    }

    /// Returns a mutable reference to an [AreaStats] given the area's sid
    ///
    /// Returns `None` if no area with the given sid is found: the first match
    /// in the level sets, otherwise the first in the recycle bin.
    pub fn find_area_by_sid_mut<'a>(&'a mut self, sid: &str) -> (r: Option<&'a mut AreaStats>)
        ensures
            if first_with_sid(sets_areas(old(self).level_sets.level_set_stats@), sid@) is Some {
                &&& first_sid_replaced(
                    sets_areas(old(self).level_sets.level_set_stats@),
                    sets_areas(final(self).level_sets.level_set_stats@),
                    sid@,
                    match r {
                        Some(a) => Some((*a, *final(a))),
                        None => None,
                    },
                )
                &&& sets_kept(old(self).level_sets.level_set_stats@, final(self).level_sets.level_set_stats@)
                &&& *final(self) == (ModSaveData { level_sets: final(self).level_sets, ..*old(self) })
            } else {
                &&& first_sid_replaced(
                    sets_areas(old(self).level_set_recycle_bin.level_set_stats@),
                    sets_areas(final(self).level_set_recycle_bin.level_set_stats@),
                    sid@,
                    match r {
                        Some(a) => Some((*a, *final(a))),
                        None => None,
                    },
                )
                &&& sets_kept(
                    old(self).level_set_recycle_bin.level_set_stats@,
                    final(self).level_set_recycle_bin.level_set_stats@,
                )
                &&& *final(self) == (ModSaveData {
                    level_set_recycle_bin: final(self).level_set_recycle_bin,
                    ..*old(self)
                })
            },
    {
        if find_in_sets(&self.level_sets.level_set_stats, sid).is_some() {
            find_in_sets_mut(self.level_sets.level_set_stats.as_mut_slice(), sid)
        } else {
            find_in_sets_mut(self.level_set_recycle_bin.level_set_stats.as_mut_slice(), sid)
        }
    }

    /// Returns a mutable reference to an [AreaStats] given the area's sid and
    /// [AreaSource]
    ///
    /// Returns `None` if no area with the given sid is found in the list
    /// indicated by the source (always, for the vanilla source).
    pub fn find_area_by_sid_and_source_mut<'a>(&'a mut self, sid: &str, source: AreaSource) -> (r: Option<
        &'a mut AreaStats,
    >)
        ensures
            match source {
                AreaSource::Vanilla => r is None && *final(self) == *old(self),
                AreaSource::LevelSets => {
                    &&& first_sid_replaced(
                        sets_areas(old(self).level_sets.level_set_stats@),
                        sets_areas(final(self).level_sets.level_set_stats@),
                        sid@,
                        match r {
                        Some(a) => Some((*a, *final(a))),
                        None => None,
                    },
                    )
                    &&& sets_kept(old(self).level_sets.level_set_stats@, final(self).level_sets.level_set_stats@)
                    &&& *final(self) == (ModSaveData { level_sets: final(self).level_sets, ..*old(self) })
                },
                AreaSource::LevelSetRecycleBin => {
                    &&& first_sid_replaced(
                        sets_areas(old(self).level_set_recycle_bin.level_set_stats@),
                        sets_areas(final(self).level_set_recycle_bin.level_set_stats@),
                        sid@,
                        match r {
                        Some(a) => Some((*a, *final(a))),
                        None => None,
                    },
                    )
                    &&& sets_kept(
                        old(self).level_set_recycle_bin.level_set_stats@,
                        final(self).level_set_recycle_bin.level_set_stats@,
                    )
                    &&& *final(self) == (ModSaveData {
                        level_set_recycle_bin: final(self).level_set_recycle_bin,
                        ..*old(self)
                    })
                },
            },
    {
        match source {
            AreaSource::Vanilla => None,
            AreaSource::LevelSets => find_in_sets_mut(self.level_sets.level_set_stats.as_mut_slice(), sid),
            AreaSource::LevelSetRecycleBin => find_in_sets_mut(
                self.level_set_recycle_bin.level_set_stats.as_mut_slice(),
                sid,
            ),
        }
    }
}

} // verus!
