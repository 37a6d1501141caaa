//! Metadata of Everest mods, and how the files of a mod are sorted.
use vstd::prelude::*;

pub mod maps;
pub mod meta;

use crate::mods::meta::ModMeta;
use crate::utils::text::str_eq;

verus! {

/// An error of the source that a mod's files are read from.
#[derive(Clone, Copy, Debug, Default)]
pub struct FileProviderError<T>(pub T);

impl<T> FileProviderError<T> {
    /// The source's own error.
    pub fn into_inner(self) -> (r: T)
        ensures
            r == self.0,
    {
        self.0
    }
}

/// Whether the mod `i` depends on every other mod of the list by name.
pub open spec fn depends_on_all(metas: Seq<ModMeta>, i: int) -> bool {
    forall|j: int|
        0 <= j < metas.len() ==> metas[i].name@ == #[trigger] metas[j].name@ || exists|d: int|
            0 <= d < metas[i].dependencies@.len() && #[trigger] metas[i].dependencies@[d].0@ == metas[j].name@
}

/// Whether `dep` is the name of one of the dependencies of `meta`.
fn has_dependency(meta: &ModMeta, dep: &str) -> (r: bool)
    ensures
        r == exists|d: int| 0 <= d < meta.dependencies@.len() && #[trigger] meta.dependencies@[d].0@ == dep@,
{
    for d in 0..meta.dependencies.len()
        invariant
            forall|e: int| 0 <= e < d ==> #[trigger] meta.dependencies@[e].0@ != dep@,
    {
        if str_eq(meta.dependencies[d].0.as_str(), dep) {
            return true;
        }
    }
    false
}

/// The mod of an `everest.yaml` that the files which belong to no single
/// mod go with: the first one that depends on all the others.
pub fn root_mod_index(metas: &Vec<ModMeta>) -> (r: Option<usize>)
    ensures
        match r {
            Some(i) => i < metas@.len() && depends_on_all(metas@, i as int) && forall|k: int|
                0 <= k < i ==> !depends_on_all(metas@, k),
            None => forall|k: int| 0 <= k < metas@.len() ==> !depends_on_all(metas@, k),
        },
{
    for i in 0..metas.len()
        invariant
            forall|k: int| 0 <= k < i ==> !depends_on_all(metas@, k),
    {
        let mut all = true;
        let mut j: usize = 0;
        while j < metas.len()
            invariant
                i < metas@.len(),
                j <= metas@.len(),
                all == forall|q: int|
                    0 <= q < j ==> metas@[i as int].name@ == #[trigger] metas@[q].name@ || exists|d: int|
                        0 <= d < metas@[i as int].dependencies@.len() && #[trigger] metas@[i as int].dependencies@[d].0@
                            == metas@[q].name@,
            decreases metas@.len() - j,
        {
            if !str_eq(metas[i].name.as_str(), metas[j].name.as_str()) && !has_dependency(&metas[i], metas[j].name.as_str()) {
                all = false;
            }
            j = j + 1;
        }
        if all {
            return Some(i);
        }
    }
    None
}

/// A component of a path inside a mod.
pub enum PathPart {
    /// A prefix, the root, `.` or `..`.
    Special,
    /// A name, and whether it has an extension.
    Normal { name: String, has_extension: bool },
}

/// The directory at the top of a path: the first name, unless the first
/// name among the first two components has an extension, which puts the
/// file at the mod's root (`/`). A path with no name has none.
pub open spec fn top_level_dir_of(parts: Seq<PathPart>) -> Option<Seq<char>> {
    top_level_from(parts, 0)
}

/// The top directory of the path from component `i` on.
pub open spec fn top_level_from(parts: Seq<PathPart>, i: int) -> Option<Seq<char>>
    decreases parts.len() - i,
{
    if i < 0 || i >= parts.len() {
        None
    } else {
        match parts[i] {
            PathPart::Special => top_level_from(parts, i + 1),
            PathPart::Normal { name, has_extension } => if i < 2 && has_extension {
                Some("/"@)
            } else {
                Some(name@)
            },
        }
    }
}

/// The directory at the top of a path inside a mod, such as `Maps` or
/// `Tutorials`, or `/` for a file at the mod's root.
pub fn top_level_dir(parts: &Vec<PathPart>) -> (r: Option<String>)
    ensures
        match top_level_dir_of(parts@) {
            Some(d) => r matches Some(x) && x@ == d,
            None => r is None,
        },
{
    let mut i: usize = 0;
    while i < parts.len()
        invariant
            i <= parts@.len(),
            top_level_dir_of(parts@) == top_level_from(parts@, i as int),
        decreases parts@.len() - i,
    {
        match &parts[i] {
            PathPart::Special => {},
            PathPart::Normal { name, has_extension } => {
                if i < 2 && *has_extension {
                    return Some("/".to_owned());
                } else {
                    return Some(name.clone());
                }
            },
        }
        i = i + 1;
    }
    None
}

} // verus!
