//! Edits to a save that an editor makes on a user's request, each keeping the
//! save's totals in step with the parts they count.
use vstd::prelude::*;

use super::util::EntityID;
use super::{StrawberryCount, VanillaFlags, VanillaFlagsWrapper};

verus! {

/// A total after one of the values it sums changed from `before` to `after`.
pub fn total_after_change(total: u64, before: u64, after: u64) -> (r: u64)
    requires
        before > after ==> total >= before - after,
        after > before ==> total + (after - before) <= u64::MAX,
    ensures
        r == total - before + after,
{
    if before > after {
        total - (before - after)
    } else {
        total + (after - before)
    }
}

/// A count of the items of a list after the list went from `before` items to
/// `after`: one less where it shrank, one more where it grew.
pub fn count_after_list_change(count: StrawberryCount, before: usize, after: usize) -> (r: StrawberryCount)
    requires
        after < before ==> count >= 1,
        after > before ==> count < StrawberryCount::MAX,
    ensures
        r == if after < before {
            count - 1
        } else if after > before {
            count + 1
        } else {
            count as int
        },
{
    if after < before {
        count - 1
    } else if after > before {
        count + 1
    } else {
        count
    }
}

/// The position of the first `flag` in `flags`.
fn flag_position(flags: &Vec<VanillaFlagsWrapper>, flag: VanillaFlags) -> (r: Option<usize>)
    ensures
        match r {
            Some(i) => i < flags@.len() && flags@[i as int].flag == flag && forall|j: int|
                0 <= j < i ==> #[trigger] flags@[j].flag != flag,
            None => forall|j: int| 0 <= j < flags@.len() ==> #[trigger] flags@[j].flag != flag,
        },
{
    for i in 0..flags.len()
        invariant
            forall|j: int| 0 <= j < i ==> #[trigger] flags@[j].flag != flag,
    {
        if flags[i].flag == flag {
            return Some(i);
        }
    }
    None
}

/// Whether `flag` is among `flags`.
pub open spec fn has_flag(flags: Seq<VanillaFlagsWrapper>, flag: VanillaFlags) -> bool {
    exists|j: int| 0 <= j < flags.len() && #[trigger] flags[j].flag == flag
}

/// Whether the first `flag` among `flags` is at `i`.
pub open spec fn first_flag_at(flags: Seq<VanillaFlagsWrapper>, flag: VanillaFlags, i: int) -> bool {
    &&& 0 <= i < flags.len()
    &&& flags[i].flag == flag
    &&& forall|j: int| 0 <= j < i ==> #[trigger] flags[j].flag != flag
}

/// Turns a story flag on or off: turning on adds the flag where the list
/// lacks it, turning off removes its first occurrence; otherwise the list stays.
pub fn set_vanilla_flag(flags: &mut Vec<VanillaFlagsWrapper>, flag: VanillaFlags, on: bool)
    ensures
        (has_flag(old(flags)@, flag) == on) ==> final(flags)@ == old(flags)@,
        (on && !has_flag(old(flags)@, flag)) ==> final(flags)@ == old(flags)@.push(VanillaFlagsWrapper { flag }),
        (!on && has_flag(old(flags)@, flag)) ==> exists|i: int|
            first_flag_at(old(flags)@, flag, i) && final(flags)@ == old(flags)@.remove(i),
{
    match flag_position(flags, flag) {
        Some(i) => {
            if !on {
                flags.remove(i);
            }
        },
        None => {
            if on {
                flags.push(VanillaFlagsWrapper { flag });
            }
        },
    }
}

/// The poem with the line at `from` moved to `to`, or to the end where `to`
/// lies past the other lines.
pub fn move_poem_line(poem: &mut Vec<String>, from: usize, to: usize)
    requires
        from < old(poem)@.len(),
    ensures
        final(poem)@ == old(poem)@.remove(from as int).insert(
            if to < old(poem)@.len() - 1 {
                to as int
            } else {
                old(poem)@.len() - 1
            },
            old(poem)@[from as int],
        ),
{
    let item = poem.remove(from);
    let to = if to < poem.len() {
        to
    } else {
        poem.len()
    };
    poem.insert(to, item);
}

/// Removes the entity at `index` from a list whose count is kept in `counter`.
pub fn remove_counted_entity(entities: &mut Vec<EntityID>, index: usize, counter: &mut StrawberryCount)
    requires
        index < old(entities)@.len(),
        *old(counter) >= 1,
    ensures
        final(entities)@ == old(entities)@.remove(index as int),
        *final(counter) == *old(counter) - 1,
{
    entities.remove(index);
    *counter = *counter - 1;
}

} // verus!
