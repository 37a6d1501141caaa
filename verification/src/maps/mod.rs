//! Reading and writing of Celeste's binary map format.
use vstd::prelude::*;

pub mod elements;
pub mod encoder;
pub mod format;
pub mod lookup;
pub mod manager;
pub mod names;
pub mod parser;
pub mod reader;
pub mod writer;
pub mod var_types;

pub use lookup::{LookupIndex, LookupTable, NameV, ResolvableString};
pub use manager::MapManager;
use format::{
    element_bytes,
    element_read,
    element_roundtrips,
    element_writable,
    lemma_element_roundtrip,
    lemma_table_roundtrip,
    string_bytes,
    strings_roundtrip,
    table_bytes,
    table_read,
    ReadFailure,
};
use names::{
    fully_resolved,
    indices_valid,
    keeps_strings,
    lemma_indexed_writes,
    lemma_resolve_fixed,
    lemma_unresolve_indexes_names,
    lemma_unresolve_then_resolve,
    lemma_unresolve_valid,
    lemma_resolved_valid,
    names_in,
    resolved,
    unresolved_rel,
};
use lookup::sorted;
use reader::{agrees, MapReadError, MapReader};
use var_types::{EncodedVar, VarValue};
use writer::{write_outcome, MapWriteError, MapWriter};
use crate::utils::binary::{lemma_string_roundtrip, string_read, BinReadError};
use crate::utils::text::{all_ascii, str_eq};

verus! {

#[derive(Debug)]
/// The raw structure of an element in the map binary
///
/// All elements get parsed to this before being parsed into proper structs.
pub struct RawMapElement {
    pub name: ResolvableString,
    pub attributes: Vec<MapAttribute>,
    pub children: Vec<RawMapElement>,
}

#[derive(Debug, Clone)]
/// An attribute attached to a map element
pub struct MapAttribute {
    pub name: ResolvableString,
    pub value: EncodedVar,
}

/// The mathematical value of a [MapAttribute].
pub struct AttrV {
    pub name: NameV,
    pub value: VarValue,
}

/// The mathematical value of a [RawMapElement].
pub struct ElementV {
    pub name: NameV,
    pub attributes: Seq<AttrV>,
    pub children: Seq<ElementV>,
}

impl View for MapAttribute {
    type V = AttrV;

    open spec fn view(&self) -> AttrV {
        AttrV { name: self.name@, value: self.value@ }
    }
}

/// The values of a list of attributes.
pub open spec fn attrs_view(s: Seq<MapAttribute>) -> Seq<AttrV> {
    s.map_values(|a: MapAttribute| a@)
}

/// Adding an attribute to a list adds its value to the list's values.
pub proof fn lemma_attrs_view_push(s: Seq<MapAttribute>, a: MapAttribute)
    ensures
        attrs_view(s.push(a)) == attrs_view(s).push(a@),
{
    assert(attrs_view(s.push(a)) =~= attrs_view(s).push(a@));
}

/// The value of an element.
pub open spec fn element_view(e: RawMapElement) -> ElementV
    decreases e, 0int,
{
    ElementV {
        name: e.name@,
        attributes: attrs_view(e.attributes@),
        children: elements_view(e.children@),
    }
}

/// The values of a list of elements.
pub open spec fn elements_view(s: Seq<RawMapElement>) -> Seq<ElementV>
    decreases s, 1int,
{
    if s.len() == 0 {
        Seq::empty()
    } else {
        elements_view(s.drop_last()).push(element_view(s.last()))
    }
}

/// The value of each element of a list, in order.
pub proof fn lemma_elements_view(s: Seq<RawMapElement>)
    ensures
        elements_view(s).len() == s.len(),
        forall|i: int| 0 <= i < s.len() ==> #[trigger] elements_view(s)[i] == element_view(s[i]),
    decreases s.len(),
{
    if s.len() > 0 {
        lemma_elements_view(s.drop_last());
    }
}

impl MapAttribute {
    pub fn new(name: ResolvableString, value: EncodedVar) -> (r: Self)
        ensures
            r@ == (AttrV { name: name@, value: value@ }),
    {
        MapAttribute { name, value }
    }

    /// A copy of the attribute.
    pub fn duplicate(&self) -> (r: Self)
        ensures
            r@ == self@,
    {
        MapAttribute { name: self.name.duplicate(), value: self.value.duplicate() }
    }
}

impl RawMapElement {
    /// A copy of the element and all its descendants.
    pub fn duplicate(&self) -> (r: Self)
        ensures
            element_view(r) == element_view(*self),
        decreases self,
    {
        let mut attributes: Vec<MapAttribute> = Vec::new();
        for i in 0..self.attributes.len()
            invariant
                attrs_view(attributes@) == attrs_view(self.attributes@).take(i as int),
        {
            let a = self.attributes[i].duplicate();
            proof {
                lemma_attrs_view_push(attributes@, a);
                assert(attrs_view(self.attributes@).take(i + 1) =~= attrs_view(self.attributes@).take(
                    i as int,
                ).push(a@));
            }
            attributes.push(a);
        }
        let mut children: Vec<RawMapElement> = Vec::new();
        proof {
            lemma_elements_view(self.children@);
        }
        for i in 0..self.children.len()
            invariant
                elements_view(children@) == elements_view(self.children@).take(i as int),
                elements_view(self.children@).len() == self.children@.len(),
                forall|j: int| 0 <= j < self.children@.len() ==> #[trigger] elements_view(self.children@)[j]
                    == element_view(self.children@[j]),
        {
            let c = self.children[i].duplicate();
            proof {
                assert(children@.push(c).drop_last() =~= children@);
                assert(elements_view(children@.push(c)) =~= elements_view(self.children@).take(i + 1));
            }
            children.push(c);
        }
        proof {
            assert(attrs_view(self.attributes@).take(self.attributes@.len() as int) =~= attrs_view(self.attributes@));
            assert(elements_view(self.children@).take(self.children@.len() as int) =~= elements_view(self.children@));
        }
        RawMapElement { name: self.name.duplicate(), attributes, children }
    }

}

/// The mathematical value of a [RawMap].
pub struct MapV {
    pub name: Seq<char>,
    pub table: Seq<Seq<char>>,
    pub root: ElementV,
}

/// The string every map file starts with.
pub open spec fn map_header() -> Seq<char> {
    seq!['C', 'E', 'L', 'E', 'S', 'T', 'E', ' ', 'M', 'A', 'P']
}

/// Reading what follows a map's header: its name, the lookup table and the root element.
#[verifier::opaque]
pub open spec fn map_body_read(r: Seq<u8>) -> Result<MapV, ReadFailure> {
    let (nr, nn) = string_read(r);
    match nr {
        Err(e) => Err(ReadFailure::Bin(e)),
        Ok(name) => {
            let r2 = format::drop(r, nn);
            let (tr, tn) = table_read(r2);
            match tr {
                Err(e) => Err(e),
                Ok(table) => match element_read(format::drop(r2, tn)).0 {
                    Err(e) => Err(e),
                    Ok(root) => Ok(MapV { name, table, root }),
                },
            }
        },
    }
}

/// Reading a whole map: the header string, then the map's name, the lookup
/// table and the root element.
pub open spec fn map_read(r: Seq<u8>) -> Result<MapV, ReadFailure> {
    let (hr, hn) = string_read(r);
    match hr {
        Err(e) => Err(ReadFailure::Bin(e)),
        Ok(h) => if h != map_header() {
            Err(ReadFailure::InvalidHeader(h))
        } else {
            map_body_read(format::drop(r, hn))
        },
    }
}

/// Writing a whole map; the second part is the resolved name that stopped the writer, if any.
pub open spec fn map_bytes(m: MapV) -> (Seq<u8>, Option<Seq<char>>) {
    let (eb, stop) = element_bytes(m.root);
    (string_bytes(map_header()) + string_bytes(m.name) + table_bytes(m.table) + eb, stop)
}

/// Whether a map can be written: its name, table strings and string values are ASCII.
pub open spec fn map_writable(m: MapV) -> bool {
    &&& all_ascii(m.name)
    &&& forall|i: int| 0 <= i < m.table.len() ==> all_ascii(#[trigger] m.table[i])
    &&& element_writable(m.root)
}

/// Whether a map reads back as written.
pub open spec fn map_roundtrips(m: MapV) -> bool {
    &&& all_ascii(m.name)
    &&& m.name.len() <= u32::MAX
    &&& m.table.len() < 0x8000
    &&& strings_roundtrip(m.table)
    &&& element_roundtrips(m.root)
}

#[derive(Debug)]
/// The raw format of the map binary
pub struct RawMap {
    pub name: String,
    pub lookup_table: LookupTable,
    pub root_element: RawMapElement,
}

impl View for RawMap {
    type V = MapV;

    open spec fn view(&self) -> MapV {
        MapV {
            name: self.name@,
            table: self.lookup_table.strings(),
            root: element_view(self.root_element),
        }
    }
}

impl RawMap {
    #[verifier::rlimit(60)]
    pub fn from_bytes(bytes: &[u8]) -> (res: Result<Self, MapReadError>)
        requires
            bytes@.len() > 0,
        ensures
            agrees(res, map_read(bytes@), |m: RawMap, v: MapV| m@ == v && m.lookup_table.pending().len() == 0),
    {
        let mut reader = MapReader::new(bytes);
        proof {
            assert(reader.rest() =~= bytes@);
            reveal(map_body_read);
            reveal_strlit("CELESTE MAP");
            assert("CELESTE MAP"@ =~= map_header());
        }
        let ghost r0 = reader.rest();
        let check_string = reader.read_string()?;
        let ghost p1 = reader.pos();
        if !str_eq(check_string.as_str(), "CELESTE MAP") {
            return Err(MapReadError::InvalidHeader(check_string));
        }
        proof {
            assert(reader.rest() =~= format::drop(r0, string_read(r0).1));
        }
        let ghost r1 = reader.rest();
        let name = reader.read_string()?;
        proof {
            assert(reader.rest() =~= format::drop(r1, string_read(r1).1));
        }
        let ghost r2 = reader.rest();
        let lookup_table = reader.read_lookup_table()?;
        proof {
            assert(reader.rest() =~= format::drop(r2, table_read(r2).1));
        }
        let root_element = reader.read_element()?;
        Ok(RawMap { name, lookup_table, root_element })
    }

    /// Writes the map into `writer`.
    pub fn write(&self, writer: &mut MapWriter) -> (res: Result<(), MapWriteError>)
        requires
            map_writable(self@),
        ensures
            final(writer)@ == old(writer)@ + map_bytes(self@).0,
            write_outcome(res, map_bytes(self@).1),
    {
        let header = "CELESTE MAP";
        proof {
            reveal_strlit("CELESTE MAP");
            assert(header@ =~= map_header());
            assert(all_ascii(header@));
            assert(self@.table == self.lookup_table.strings());
            assert forall|i: int| 0 <= i < self.lookup_table.strings().len() implies all_ascii(
                #[trigger] self.lookup_table.strings()[i],
            ) by {
                assert(all_ascii(self@.table[i]));
            }
        }
        writer.write_string(header);
        writer.write_string(self.name.as_str());
        writer.write_lookup_table(&self.lookup_table)?;
        let res = writer.write_element(&self.root_element);
        proof {
            assert(writer@ =~= old(writer)@ + map_bytes(self@).0);
        }
        res
    }

    /// The map written as bytes.
    pub fn to_bytes(&self) -> (res: Result<Vec<u8>, MapWriteError>)
        requires
            map_writable(self@),
        ensures
            match map_bytes(self@).1 {
                None => res matches Ok(b) && b@ == map_bytes(self@).0,
                Some(t) => res matches Err(MapWriteError::ResolvedString(s)) && s@ == t,
            },
    {
        let mut writer = MapWriter::new();
        self.write(&mut writer)?;
        Ok(writer.finish())
    }

    /// Resolve all the [ResolvableString]s stored in the map
    ///
    /// This should be called directly after reading in the map file,
    /// as modifications can change the lookup table without updating the indicies.
    pub fn resolve_strings(&mut self)
        requires
            indices_valid(old(self)@.root, old(self)@.table.len()),
        ensures
            final(self)@ == (MapV { root: resolved(old(self)@.root, old(self)@.table), ..old(self)@ }),
            final(self).lookup_table.pending() == old(self).lookup_table.pending(),
    {
        self.root_element.resolve_strings(&self.lookup_table);
    }

    /// Converts all the [ResolvableString]s to indicies in the lookup table.
    ///
    /// This should be done only right before you serialize.
    /// The indicies change on pretty much any change to the map data.
    pub fn unresolve_strings(&mut self)
        ensures
            unresolved_map(old(self)@, final(self)@),
    {
        self.root_element.add_attr_value_strs(&mut self.lookup_table);
        self.root_element.unresolve_strings(&self.lookup_table);
    }
}

/// What unresolving does to a map: every textual name goes into the table,
/// which keeps its strings (and its order, if sorted), and names and string
/// values are turned into indices where the grown table has them.
pub open spec fn unresolved_map(before: MapV, after: MapV) -> bool {
    &&& after.name == before.name
    &&& keeps_strings(before.table, after.table)
    &&& sorted(before.table) ==> sorted(after.table)
    &&& names_in(before.root, after.table)
    &&& unresolved_rel(before.root, after.root, after.table)
}

/// Unresolving a resolved map whose table is sorted and ends up with at most
/// 65536 strings leaves every name an index, so the map can be written, and
/// resolving it again gives back the same root element.
pub proof fn lemma_unresolve_resolve(before: MapV, after: MapV)
    requires
        unresolved_map(before, after),
        fully_resolved(before.root),
        sorted(before.table),
        after.table.len() <= 0x10000,
    ensures
        map_bytes(after).1 is None,
        indices_valid(after.root, after.table.len()),
        resolved(after.root, after.table) == before.root,
{
    lemma_unresolve_indexes_names(before.root, after.root, after.table);
    lemma_indexed_writes(after.root);
    lemma_resolved_valid(before.root, after.table.len());
    lemma_unresolve_valid(before.root, after.root, after.table);
    lemma_unresolve_then_resolve(before.root, after.root, after.table);
    lemma_resolve_fixed(before.root, after.table);
}

/// The body of a map reads as its three parts read one after another.
proof fn lemma_map_body_steps(m: MapV, r1: Seq<u8>, n1: nat, r2: Seq<u8>, n2: nat, r3: Seq<u8>)
    requires
        string_read(r1) == (Ok::<Seq<char>, BinReadError>(m.name), n1),
        format::drop(r1, n1) == r2,
        table_read(r2) == (Ok::<Seq<Seq<char>>, ReadFailure>(m.table), n2),
        format::drop(r2, n2) == r3,
        element_read(r3).0 == Ok::<ElementV, ReadFailure>(m.root),
    ensures
        map_body_read(r1) == Ok::<MapV, ReadFailure>(m),
{
    reveal(map_body_read);
}

/// Dropping the front part of a concatenation leaves the back part.
proof fn lemma_drop_front(a: Seq<u8>, b: Seq<u8>)
    ensures
        format::drop(a + b, a.len()) == b,
{
    assert(format::drop(a + b, a.len()) =~= b);
}

/// Concatenation regrouped to the right.
proof fn lemma_regroup(a: Seq<u8>, b: Seq<u8>, c: Seq<u8>, d: Seq<u8>)
    ensures
        a + b + c + d == a + (b + (c + d)),
{
    assert(a + b + c + d =~= a + (b + (c + d)));
}

/// A string written in front of anything reads back.
proof fn lemma_string_front(x: Seq<char>, r: Seq<u8>)
    requires
        all_ascii(x),
        x.len() <= u32::MAX,
    ensures
        string_read(string_bytes(x) + r) == (Ok::<Seq<char>, BinReadError>(x), string_bytes(x).len()),
        format::drop(string_bytes(x) + r, string_bytes(x).len()) == r,
{
    lemma_string_roundtrip(x, r);
    assert(string_bytes(x) + r =~= crate::utils::binary::varint_bytes(x.len() as u32)
        + crate::utils::binary::chars_as_bytes(x) + r);
    lemma_drop_front(string_bytes(x), r);
}

/// What follows the header of a written map reads back as the map.
proof fn lemma_map_body_roundtrip(m: MapV, rest: Seq<u8>)
    requires
        map_roundtrips(m),
    ensures
        map_body_read(string_bytes(m.name) + table_bytes(m.table) + element_bytes(m.root).0 + rest)
            == Ok::<MapV, ReadFailure>(m),
{
    let eb = element_bytes(m.root).0;
    let tb = table_bytes(m.table);
    let nb = string_bytes(m.name);
    let r3 = eb + rest;
    let r2 = tb + r3;
    let r1 = nb + r2;
    lemma_regroup(nb, tb, eb, rest);
    lemma_element_roundtrip(m.root, rest);
    lemma_table_roundtrip(m.table, r3);
    lemma_drop_front(tb, r3);
    lemma_string_front(m.name, r2);
    lemma_map_body_steps(m, r1, nb.len(), r2, tb.len(), r3);
}

/// A map that can be written reads back as the same map, whatever bytes follow it.
pub proof fn lemma_map_roundtrip(m: MapV, rest: Seq<u8>)
    requires
        map_roundtrips(m),
    ensures
        map_bytes(m).1 is None,
        map_read(map_bytes(m).0 + rest) == Ok::<MapV, ReadFailure>(m),
{
    let h = map_header();
    assert(all_ascii(h));
    let hb = string_bytes(h);
    let nb = string_bytes(m.name);
    let tb = table_bytes(m.table);
    let eb = element_bytes(m.root).0;
    let r1 = nb + tb + eb + rest;
    lemma_element_roundtrip(m.root, rest);
    lemma_map_body_roundtrip(m, rest);
    assert(map_bytes(m).0 + rest =~= hb + r1);
    lemma_string_front(h, r1);
}

} // verus!
