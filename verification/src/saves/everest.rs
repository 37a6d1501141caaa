//! Statistics that Everest keeps per level set.
use vstd::prelude::*;

use crate::maps::lookup::string_views;
use crate::saves::vanilla::{areas_view, duplicate_strings, AreaV, Areas};
use crate::saves::{AreaCount, Poem, StrawberryCount};

verus! {

#[derive(Debug, Clone)]
pub struct LevelSetStats {
    pub name: String,
    pub areas: Areas,
    pub poem: Poem,
    pub unlocked_areas: AreaCount,
    pub total_strawberries: StrawberryCount,
}

#[derive(Debug, Clone)]
pub struct LevelSets {
    pub level_set_stats: Vec<LevelSetStats>,
}

impl Default for LevelSets {
    fn default() -> (r: Self)
        ensures
            r.level_set_stats@.len() == 0,
    {
        LevelSets { level_set_stats: Vec::new() }
    }
}

impl LevelSets {
    /// Whether there are no level sets.
    pub(crate) fn is_inner_empty(&self) -> (r: bool)
        ensures
            r == (self.level_set_stats@.len() == 0),
    {
        self.level_set_stats.len() == 0
    }
}

/// The mathematical value of a [LevelSetStats].
pub struct LevelSetV {
    pub name: Seq<char>,
    pub areas: Seq<AreaV>,
    pub poem: Seq<Seq<char>>,
    pub unlocked_areas: AreaCount,
    pub total_strawberries: StrawberryCount,
}

impl View for LevelSetStats {
    type V = LevelSetV;

    open spec fn view(&self) -> LevelSetV {
        LevelSetV {
            name: self.name@,
            areas: areas_view(self.areas.areas@),
            poem: string_views(self.poem.string@),
            unlocked_areas: self.unlocked_areas,
            total_strawberries: self.total_strawberries,
        }
    }
}

/// The values of a list of level sets.
pub open spec fn sets_view(s: Seq<LevelSetStats>) -> Seq<LevelSetV> {
    s.map_values(|l: LevelSetStats| l@)
}

impl LevelSetStats {
    /// A copy of the level set's statistics.
    pub fn duplicate(&self) -> (r: Self)
        ensures
            r@ == self@,
    {
        LevelSetStats {
            name: self.name.clone(),
            areas: self.areas.duplicate(),
            poem: Poem { string: duplicate_strings(&self.poem.string) },
            unlocked_areas: self.unlocked_areas,
            total_strawberries: self.total_strawberries,
        }
    }
}

} // verus!
