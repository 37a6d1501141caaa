//! Names and string values of map elements: resolving lookup indices to
//! text, and turning text back into indices before writing.
use vstd::prelude::*;

use crate::maps::format::{attrs_bytes, element_bytes, elements_bytes};
use crate::maps::lookup::{first_position, lemma_first_position, sorted, LookupTable, NameV, ResolvableString};
use crate::maps::var_types::{EncodedVar, VarValue};
use crate::maps::{attrs_view, element_view, elements_view, lemma_attrs_view_push, lemma_elements_view, AttrV, ElementV, MapAttribute, RawMapElement};

verus! {

/// The text a name stands for, looking indices up in `table`.
pub open spec fn name_text(n: NameV, table: Seq<Seq<char>>) -> Seq<char> {
    match n {
        NameV::Index(i) => table[i as int],
        NameV::Text(t) => t,
    }
}

/// Whether a name that is an index points into a table of `n` strings.
pub open spec fn name_valid(n: NameV, count: nat) -> bool {
    match n {
        NameV::Index(i) => (i as nat) < count,
        NameV::Text(_) => true,
    }
}

/// Whether every index in the element and its descendants, in names and in
/// lookup-index values, points into a table of `count` strings.
pub open spec fn indices_valid(e: ElementV, count: nat) -> bool
    decreases e,
{
    &&& name_valid(e.name, count)
    &&& forall|i: int| 0 <= i < e.attributes.len() ==> {
        &&& name_valid((#[trigger] e.attributes[i]).name, count)
        &&& e.attributes[i].value matches VarValue::LookupIndex(k) ==> (k as nat) < count
    }
    &&& forall|i: int| 0 <= i < e.children.len() ==> indices_valid(#[trigger] e.children[i], count)
}

/// An attribute with its name and any lookup-index value replaced by their text.
pub open spec fn resolved_attr(a: AttrV, table: Seq<Seq<char>>) -> AttrV {
    AttrV {
        name: NameV::Text(name_text(a.name, table)),
        value: match a.value {
            VarValue::LookupIndex(k) => VarValue::String(table[k as int]),
            v => v,
        },
    }
}

/// An element with every name, in it and its descendants, replaced by its
/// text, and every lookup-index value by the string it points to.
pub open spec fn resolved(e: ElementV, table: Seq<Seq<char>>) -> ElementV
    decreases e, 0int,
{
    ElementV {
        name: NameV::Text(name_text(e.name, table)),
        attributes: e.attributes.map_values(|a: AttrV| resolved_attr(a, table)),
        children: resolved_all(e.children, table),
    }
}

/// Every element of a list resolved.
pub open spec fn resolved_all(s: Seq<ElementV>, table: Seq<Seq<char>>) -> Seq<ElementV>
    decreases s, 1int,
{
    if s.len() == 0 {
        Seq::empty()
    } else {
        resolved_all(s.drop_last(), table).push(resolved(s.last(), table))
    }
}

/// Resolving a list resolves each element in place.
pub proof fn lemma_resolved_all(s: Seq<ElementV>, table: Seq<Seq<char>>)
    ensures
        resolved_all(s, table).len() == s.len(),
        forall|i: int| 0 <= i < s.len() ==> #[trigger] resolved_all(s, table)[i] == resolved(s[i], table),
    decreases s.len(),
{
    if s.len() > 0 {
        lemma_resolved_all(s.drop_last(), table);
    }
}

impl RawMapElement {
    /// The element with every name and lookup-index value resolved through `lookup_table`.
    fn resolved_copy(&self, lookup_table: &LookupTable) -> (r: Self)
        requires
            indices_valid(element_view(*self), lookup_table.strings().len()),
        ensures
            element_view(r) == resolved(element_view(*self), lookup_table.strings()),
        decreases self,
    {
        let ghost table = lookup_table.strings();
        let ghost ev = element_view(*self);
        let mut name = self.name.duplicate();
        name.resolve(lookup_table);
        let mut attributes: Vec<MapAttribute> = Vec::new();
        for i in 0..self.attributes.len()
            invariant
                ev == element_view(*self),
                table == lookup_table.strings(),
                indices_valid(ev, table.len()),
                attrs_view(attributes@) == attrs_view(self.attributes@).take(i as int).map_values(
                    |a: AttrV| resolved_attr(a, table),
                ),
        {
            let a = &self.attributes[i];
            proof {
                assert(ev.attributes[i as int] == a@);
            }
            let mut n = a.name.duplicate();
            n.resolve(lookup_table);
            let value = match &a.value {
                EncodedVar::LookupIndex(k) => EncodedVar::String(lookup_table.entry(*k).clone()),
                v => v.duplicate(),
            };
            let na = MapAttribute { name: n, value };
            proof {
                assert(na@ == resolved_attr(a@, table));
                lemma_attrs_view_push(attributes@, na);
                let f = |a: AttrV| resolved_attr(a, table);
                let t = attrs_view(self.attributes@);
                assert(t.take(i + 1) =~= t.take(i as int).push(a@));
                assert(t.take(i as int).push(a@).map_values(f) =~= t.take(i as int).map_values(f).push(f(a@)));
            }
            attributes.push(na);
        }
        let mut children: Vec<RawMapElement> = Vec::new();
        proof {
            lemma_elements_view(self.children@);
            lemma_resolved_all(ev.children, table);
        }
        for i in 0..self.children.len()
            invariant
                ev == element_view(*self),
                table == lookup_table.strings(),
                indices_valid(ev, table.len()),
                ev.children == elements_view(self.children@),
                elements_view(self.children@).len() == self.children@.len(),
                forall|j: int| 0 <= j < self.children@.len() ==> #[trigger] elements_view(self.children@)[j]
                    == element_view(self.children@[j]),
                resolved_all(ev.children, table).len() == ev.children.len(),
                forall|j: int| 0 <= j < ev.children.len() ==> #[trigger] resolved_all(ev.children, table)[j]
                    == resolved(ev.children[j], table),
                elements_view(children@) == resolved_all(ev.children, table).take(i as int),
        {
            let child = &self.children[i];
            proof {
                assert(ev.children[i as int] == element_view(*child));
            }
            let c = child.resolved_copy(lookup_table);
            proof {
                assert(children@.push(c).drop_last() =~= children@);
                assert(elements_view(children@.push(c)) =~= resolved_all(ev.children, table).take(i + 1));
            }
            children.push(c);
        }
        proof {
            assert(attrs_view(self.attributes@).take(self.attributes@.len() as int) =~= attrs_view(self.attributes@));
            assert(resolved_all(ev.children, table).take(self.children@.len() as int) =~= resolved_all(ev.children, table));
        }
        RawMapElement { name, attributes, children }
    }

    /// Replaces every name, here and in all descendants, by its text, and every
    /// lookup-index value by the string it points to.
    pub fn resolve_strings(&mut self, lookup_table: &LookupTable)
        requires
            indices_valid(element_view(*old(self)), lookup_table.strings().len()),
        ensures
            element_view(*final(self)) == resolved(element_view(*old(self)), lookup_table.strings()),
    {
        *self = self.resolved_copy(lookup_table);
    }
}

/// What turning a name into an index may do with `table`: an index stays; a
/// text becomes the 16-bit index of its first occurrence, or stays as it is
/// (which, on a sorted table, it does exactly when the table lacks it).
pub open spec fn name_unresolved(before: NameV, after: NameV, table: Seq<Seq<char>>) -> bool {
    match before {
        NameV::Index(_) => after == before,
        NameV::Text(t) => match after {
            NameV::Text(u) => u == t && !(sorted(table) && table.contains(t)),
            NameV::Index(i) => first_position(table, t) matches Some(k) && i == k as u16,
        },
    }
}

/// What turning a string value into an index may do with `table`: as for
/// names; values of other kinds stay as they are.
pub open spec fn value_unresolved(before: VarValue, after: VarValue, table: Seq<Seq<char>>) -> bool {
    match before {
        VarValue::String(t) => match after {
            VarValue::LookupIndex(i) => first_position(table, t) matches Some(k) && i == k as u16,
            _ => after == before && !(sorted(table) && table.contains(t)),
        },
        _ => after == before,
    }
}

/// `after` is `before` with its names and string values, and those of all its
/// descendants, turned into indices into `table` where the table has them.
pub open spec fn unresolved_rel(before: ElementV, after: ElementV, table: Seq<Seq<char>>) -> bool
    decreases before,
{
    &&& name_unresolved(before.name, after.name, table)
    &&& after.attributes.len() == before.attributes.len()
    &&& forall|i: int| 0 <= i < before.attributes.len() ==> {
        &&& name_unresolved((#[trigger] before.attributes[i]).name, after.attributes[i].name, table)
        &&& value_unresolved(before.attributes[i].value, after.attributes[i].value, table)
    }
    &&& after.children.len() == before.children.len()
    &&& forall|i: int| 0 <= i < before.children.len() ==> unresolved_rel(
        #[trigger] before.children[i],
        after.children[i],
        table,
    )
}

/// Whether every textual name in the element and its descendants is a string of `table`.
pub open spec fn names_in(e: ElementV, table: Seq<Seq<char>>) -> bool
    decreases e,
{
    &&& e.name matches NameV::Text(t) ==> table.contains(t)
    &&& forall|i: int| 0 <= i < e.attributes.len() ==> ((#[trigger] e.attributes[i]).name matches NameV::Text(t)
        ==> table.contains(t))
    &&& forall|i: int| 0 <= i < e.children.len() ==> names_in(#[trigger] e.children[i], table)
}

/// Whether every name in the element and its descendants is a lookup index.
pub open spec fn names_indexed(e: ElementV) -> bool
    decreases e,
{
    &&& e.name is Index
    &&& forall|i: int| 0 <= i < e.attributes.len() ==> (#[trigger] e.attributes[i]).name is Index
    &&& forall|i: int| 0 <= i < e.children.len() ==> names_indexed(#[trigger] e.children[i])
}

/// Whether every name in the element and its descendants is text and no value is a lookup index.
pub open spec fn fully_resolved(e: ElementV) -> bool
    decreases e,
{
    &&& e.name is Text
    &&& forall|i: int| 0 <= i < e.attributes.len() ==> {
        &&& (#[trigger] e.attributes[i]).name is Text
        &&& !(e.attributes[i].value is LookupIndex)
    }
    &&& forall|i: int| 0 <= i < e.children.len() ==> fully_resolved(#[trigger] e.children[i])
}

/// Every string of `a` is a string of `b`.
pub open spec fn keeps_strings(a: Seq<Seq<char>>, b: Seq<Seq<char>>) -> bool {
    forall|x: Seq<char>| a.contains(x) ==> #[trigger] b.contains(x)
}

/// Names found in a table are still found once it holds more strings.
pub proof fn lemma_names_in_grow(e: ElementV, a: Seq<Seq<char>>, b: Seq<Seq<char>>)
    requires
        names_in(e, a),
        keeps_strings(a, b),
    ensures
        names_in(e, b),
    decreases e,
{
    assert forall|i: int| 0 <= i < e.children.len() implies names_in(#[trigger] e.children[i], b) by {
        lemma_names_in_grow(e.children[i], a, b);
    }
}

/// Inserting a string keeps every string that was there.
proof fn lemma_insert_keeps(s: Seq<Seq<char>>, i: int, x: Seq<char>)
    requires
        0 <= i <= s.len(),
    ensures
        keeps_strings(s, s.insert(i, x)),
        s.insert(i, x).contains(x),
{
    assert forall|y: Seq<char>| s.contains(y) implies #[trigger] s.insert(i, x).contains(y) by {
        let j = choose|j: int| 0 <= j < s.len() && s[j] == y;
        if j < i {
            assert(s.insert(i, x)[j] == y);
        } else {
            assert(s.insert(i, x)[j + 1] == y);
        }
    }
    assert(s.insert(i, x)[i] == x);
}

/// Storing a string keeps every string that was there.
proof fn lemma_indexed_keeps(before: LookupTable, after: LookupTable, x: Seq<char>)
    requires
        LookupTable::indexed(before, after, x),
    ensures
        keeps_strings(before.strings(), after.strings()),
        after.strings().contains(x),
{
    if after.strings() != before.strings() {
        let i = choose|i: int| 0 <= i <= before.strings().len() && after.strings() == before.strings().insert(i, x);
        lemma_insert_keeps(before.strings(), i, x);
    }
}

/// Registering a string keeps every string that was there.
proof fn lemma_added_keeps(before: LookupTable, after: LookupTable, x: Seq<char>)
    requires
        LookupTable::added(before, after, x),
    ensures
        keeps_strings(before.strings(), after.strings()),
{
    if after.strings() != before.strings() {
        let i = choose|i: int| 0 <= i <= before.strings().len() && after.strings() == before.strings().insert(i, x);
        lemma_insert_keeps(before.strings(), i, x);
    }
}

impl RawMapElement {
    /// Puts every textual name of the element and its descendants into the
    /// lookup table, and registers every string value with it.
    pub fn add_attr_value_strs(&self, lookup_table: &mut LookupTable)
        ensures
            keeps_strings(old(lookup_table).strings(), final(lookup_table).strings()),
            sorted(old(lookup_table).strings()) ==> sorted(final(lookup_table).strings()),
            names_in(element_view(*self), final(lookup_table).strings()),
        decreases self,
    {
        let ghost ev = element_view(*self);
        if let ResolvableString::String(s) = &self.name {
            let _ = lookup_table.index_string(s.as_str());
            proof {
                lemma_indexed_keeps(*old(lookup_table), *lookup_table, s@);
            }
        }
        let ghost start = lookup_table.strings();
        proof {
            assert(keeps_strings(old(lookup_table).strings(), start));
            assert(ev.name matches NameV::Text(t) ==> start.contains(t));
        }
        for i in 0..self.attributes.len()
            invariant
                ev == element_view(*self),
                keeps_strings(old(lookup_table).strings(), lookup_table.strings()),
                sorted(old(lookup_table).strings()) ==> sorted(lookup_table.strings()),
                ev.name matches NameV::Text(t) ==> lookup_table.strings().contains(t),
                forall|j: int| 0 <= j < i ==> ((#[trigger] ev.attributes[j]).name matches NameV::Text(t)
                    ==> lookup_table.strings().contains(t)),
        {
            let ghost before = *lookup_table;
            let attr = &self.attributes[i];
            proof {
                assert(ev.attributes[i as int] == attr@);
            }
            if let ResolvableString::String(s) = &attr.name {
                let _ = lookup_table.index_string(s.as_str());
                proof {
                    lemma_indexed_keeps(before, *lookup_table, s@);
                }
            }
            let ghost mid = *lookup_table;
            if let EncodedVar::String(v) = &attr.value {
                let _ = lookup_table.add_string(v.as_str());
                proof {
                    lemma_added_keeps(mid, *lookup_table, v@);
                }
            }
            proof {
                assert(keeps_strings(before.strings(), lookup_table.strings()));
            }
        }
        proof {
            lemma_elements_view(self.children@);
        }
        for i in 0..self.children.len()
            invariant
                ev == element_view(*self),
                ev.children == elements_view(self.children@),
                forall|j: int| 0 <= j < self.children@.len() ==> #[trigger] elements_view(self.children@)[j]
                    == element_view(self.children@[j]),
                keeps_strings(old(lookup_table).strings(), lookup_table.strings()),
                sorted(old(lookup_table).strings()) ==> sorted(lookup_table.strings()),
                ev.name matches NameV::Text(t) ==> lookup_table.strings().contains(t),
                forall|j: int| 0 <= j < ev.attributes.len() ==> ((#[trigger] ev.attributes[j]).name matches NameV::Text(
                    t,
                ) ==> lookup_table.strings().contains(t)),
                forall|j: int| 0 <= j < i ==> names_in(#[trigger] ev.children[j], lookup_table.strings()),
        {
            let ghost before = lookup_table.strings();
            let child = &self.children[i];
            proof {
                assert(ev.children[i as int] == element_view(*child));
            }
            child.add_attr_value_strs(lookup_table);
            proof {
                assert forall|j: int| 0 <= j < i + 1 implies names_in(
                    #[trigger] ev.children[j],
                    lookup_table.strings(),
                ) by {
                    if j < i {
                        lemma_names_in_grow(ev.children[j], before, lookup_table.strings());
                    }
                }
            }
        }
    }

    /// The element with its names and string values, and those of all its
    /// descendants, turned into indices where `lookup_table` has them.
    fn unresolved_copy(&self, lookup_table: &LookupTable) -> (r: Self)
        ensures
            unresolved_rel(element_view(*self), element_view(r), lookup_table.strings()),
        decreases self,
    {
        let ghost table = lookup_table.strings();
        let ghost ev = element_view(*self);
        let mut name = self.name.duplicate();
        name.to_index(lookup_table);
        let mut attributes: Vec<MapAttribute> = Vec::new();
        for i in 0..self.attributes.len()
            invariant
                ev == element_view(*self),
                table == lookup_table.strings(),
                attributes@.len() == i,
                forall|j: int| 0 <= j < i ==> {
                    &&& name_unresolved((#[trigger] ev.attributes[j]).name, attributes@[j]@.name, table)
                    &&& value_unresolved(ev.attributes[j].value, attributes@[j]@.value, table)
                },
        {
            let a = &self.attributes[i];
            proof {
                assert(ev.attributes[i as int] == a@);
            }
            let mut n = a.name.duplicate();
            n.to_index(lookup_table);
            let value = match &a.value {
                EncodedVar::String(s) => match lookup_table.lookup_string(s.as_str()) {
                    Some(idx) => EncodedVar::LookupIndex(idx),
                    None => EncodedVar::String(s.clone()),
                },
                v => v.duplicate(),
            };
            attributes.push(MapAttribute { name: n, value });
        }
        let mut children: Vec<RawMapElement> = Vec::new();
        proof {
            lemma_elements_view(self.children@);
        }
        for i in 0..self.children.len()
            invariant
                ev == element_view(*self),
                table == lookup_table.strings(),
                ev.children == elements_view(self.children@),
                elements_view(self.children@).len() == self.children@.len(),
                forall|j: int| 0 <= j < self.children@.len() ==> #[trigger] elements_view(self.children@)[j]
                    == element_view(self.children@[j]),
                children@.len() == i,
                forall|j: int| 0 <= j < i ==> unresolved_rel(
                    #[trigger] ev.children[j],
                    element_view(children@[j]),
                    table,
                ),
        {
            let child = &self.children[i];
            proof {
                assert(ev.children[i as int] == element_view(*child));
            }
            let c = child.unresolved_copy(lookup_table);
            children.push(c);
        }
        let r = RawMapElement { name, attributes, children };
        proof {
            lemma_elements_view(r.children@);
            assert forall|j: int| 0 <= j < ev.attributes.len() implies {
                &&& name_unresolved((#[trigger] ev.attributes[j]).name, element_view(r).attributes[j].name, table)
                &&& value_unresolved(ev.attributes[j].value, element_view(r).attributes[j].value, table)
            } by {
                assert(element_view(r).attributes[j] == r.attributes@[j]@);
            }
        }
        r
    }

    /// Turns the names and string values of the element and its descendants
    /// into indices where the lookup table has them.
    pub fn unresolve_strings(&mut self, lookup_table: &LookupTable)
        ensures
            unresolved_rel(element_view(*old(self)), element_view(*final(self)), lookup_table.strings()),
    {
        *self = self.unresolved_copy(lookup_table);
    }
}

/// Resolving leaves no index behind.
pub proof fn lemma_resolved_is_resolved(e: ElementV, table: Seq<Seq<char>>)
    ensures
        fully_resolved(resolved(e, table)),
    decreases e,
{
    let r = resolved(e, table);
    lemma_resolved_all(e.children, table);
    assert forall|i: int| 0 <= i < r.children.len() implies fully_resolved(#[trigger] r.children[i]) by {
        lemma_resolved_is_resolved(e.children[i], table);
    }
}

/// Resolving an element that holds no index changes nothing.
pub proof fn lemma_resolve_fixed(e: ElementV, table: Seq<Seq<char>>)
    requires
        fully_resolved(e),
    ensures
        resolved(e, table) == e,
    decreases e,
{
    let r = resolved(e, table);
    lemma_resolved_all(e.children, table);
    assert forall|i: int| 0 <= i < e.children.len() implies #[trigger] r.children[i] == e.children[i] by {
        lemma_resolve_fixed(e.children[i], table);
    }
    assert(r.children =~= e.children);
    assert forall|i: int| 0 <= i < e.attributes.len() implies #[trigger] r.attributes[i] == e.attributes[i] by {
        let a = e.attributes[i];
        assert(a.name is Text);
    }
    assert(r.attributes =~= e.attributes);
}

/// An element that holds no index has only valid indices, for any table.
pub proof fn lemma_resolved_valid(e: ElementV, count: nat)
    requires
        fully_resolved(e),
    ensures
        indices_valid(e, count),
    decreases e,
{
    assert forall|i: int| 0 <= i < e.children.len() implies indices_valid(#[trigger] e.children[i], count) by {
        lemma_resolved_valid(e.children[i], count);
    }
}

/// Turning text into indices of a table of at most 65536 strings changes
/// nothing that resolving through that table shows.
pub proof fn lemma_unresolve_then_resolve(before: ElementV, after: ElementV, table: Seq<Seq<char>>)
    requires
        unresolved_rel(before, after, table),
        table.len() <= 0x10000,
    ensures
        resolved(after, table) == resolved(before, table),
    decreases before,
{
    let rb = resolved(before, table);
    let ra = resolved(after, table);
    if let NameV::Text(t) = before.name {
        if let NameV::Index(i) = after.name {
            lemma_first_position(table, t);
        }
    }
    assert forall|i: int| 0 <= i < before.attributes.len() implies #[trigger] ra.attributes[i] == rb.attributes[i] by {
        let b = before.attributes[i];
        let a = after.attributes[i];
        if let NameV::Text(t) = b.name {
            lemma_first_position(table, t);
        }
        if let VarValue::String(t) = b.value {
            lemma_first_position(table, t);
        }
    }
    assert(ra.attributes =~= rb.attributes);
    lemma_resolved_all(before.children, table);
    lemma_resolved_all(after.children, table);
    assert forall|i: int| 0 <= i < before.children.len() implies #[trigger] ra.children[i] == rb.children[i] by {
        lemma_unresolve_then_resolve(before.children[i], after.children[i], table);
    }
    assert(ra.children =~= rb.children);
}

/// Turning text into indices of a table of at most 65536 strings keeps every
/// index valid.
pub proof fn lemma_unresolve_valid(before: ElementV, after: ElementV, table: Seq<Seq<char>>)
    requires
        unresolved_rel(before, after, table),
        indices_valid(before, table.len()),
        table.len() <= 0x10000,
    ensures
        indices_valid(after, table.len()),
    decreases before,
{
    if let NameV::Text(t) = before.name {
        lemma_first_position(table, t);
    }
    assert forall|i: int| 0 <= i < after.attributes.len() implies {
        &&& name_valid((#[trigger] after.attributes[i]).name, table.len())
        &&& after.attributes[i].value matches VarValue::LookupIndex(k) ==> (k as nat) < table.len()
    } by {
        let b = before.attributes[i];
        if let NameV::Text(t) = b.name {
            lemma_first_position(table, t);
        }
        if let VarValue::String(t) = b.value {
            lemma_first_position(table, t);
        }
    }
    assert forall|i: int| 0 <= i < after.children.len() implies indices_valid(
        #[trigger] after.children[i],
        table.len(),
    ) by {
        lemma_unresolve_valid(before.children[i], after.children[i], table);
    }
}

/// On a sorted table that holds every textual name, turning text into indices
/// leaves every name an index.
pub proof fn lemma_unresolve_indexes_names(before: ElementV, after: ElementV, table: Seq<Seq<char>>)
    requires
        unresolved_rel(before, after, table),
        sorted(table),
        names_in(before, table),
    ensures
        names_indexed(after),
    decreases before,
{
    assert forall|i: int| 0 <= i < after.attributes.len() implies (#[trigger] after.attributes[i]).name is Index by {
        assert(name_unresolved(before.attributes[i].name, after.attributes[i].name, table));
    }
    assert forall|i: int| 0 <= i < after.children.len() implies names_indexed(#[trigger] after.children[i]) by {
        lemma_unresolve_indexes_names(before.children[i], after.children[i], table);
    }
}

/// Attributes named by indices are written in full.
proof fn lemma_attrs_indexed_write(s: Seq<AttrV>)
    requires
        forall|i: int| 0 <= i < s.len() ==> (#[trigger] s[i]).name is Index,
    ensures
        attrs_bytes(s).1 is None,
    decreases s.len(),
{
    if s.len() > 0 {
        assert(s[0].name is Index);
        let t = s.drop_first();
        assert forall|i: int| 0 <= i < t.len() implies (#[trigger] t[i]).name is Index by {
            assert(t[i] == s[i + 1]);
        }
        lemma_attrs_indexed_write(t);
    }
}

/// An element whose names are all indices is written without stopping at a name.
pub proof fn lemma_indexed_writes(e: ElementV)
    requires
        names_indexed(e),
    ensures
        element_bytes(e).1 is None,
    decreases e, 0int,
{
    lemma_attrs_indexed_write(e.attributes);
    lemma_all_indexed_write(e.children);
}

/// Elements whose names are all indices are written without stopping at a name.
proof fn lemma_all_indexed_write(s: Seq<ElementV>)
    requires
        forall|i: int| 0 <= i < s.len() ==> names_indexed(#[trigger] s[i]),
    ensures
        elements_bytes(s).1 is None,
    decreases s, 1int,
{
    if s.len() > 0 {
        lemma_indexed_writes(s[0]);
        let t = s.drop_first();
        assert forall|i: int| 0 <= i < t.len() implies names_indexed(#[trigger] t[i]) by {
            assert(t[i] == s[i + 1]);
        }
        lemma_all_indexed_write(t);
    }
}

} // verus!
