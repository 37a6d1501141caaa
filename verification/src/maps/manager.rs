//! Reading a map into its typed elements, and writing typed elements back.
use vstd::prelude::*;

use crate::maps::elements::{Entity, MapEntity, MapRoot, MapTrigger, Trigger};
use crate::maps::encoder::MapEncoder;
use crate::maps::lookup::LookupTable;
use crate::maps::names::{indices_valid, lemma_resolved_is_resolved, lemma_resolved_valid, resolved};
use crate::maps::parser::{names_valid, MapElement, MapElementParsingError, MapParser};
use crate::maps::reader::{agrees, MapReadError};
use crate::maps::writer::{write_outcome, MapWriteError, MapWriter};
use crate::maps::{map_bytes, map_read, map_writable, ElementV, MapV, RawMap};
use crate::utils::text::str_eq;

verus! {

/// Every index among the names of an element that the lookup table has is
/// also a valid name.
proof fn lemma_indices_names_valid(e: ElementV, count: nat)
    requires
        indices_valid(e, count),
    ensures
        names_valid(e, count),
    decreases e,
{
    assert forall|i: int| 0 <= i < e.children.len() implies names_valid(#[trigger] e.children[i], count) by {
        lemma_indices_names_valid(e.children[i], count);
    }
}

/// A manager struct that can read and write celeste maps.
pub struct MapManager {
    map: RawMap,
    parsers: Vec<String>,
}

impl MapManager {
    /// The map the manager holds.
    pub closed spec fn raw_map(&self) -> MapV {
        self.map@
    }

    /// Whether elements named `name` are parsed into their types by
    /// [MapParser::parse_any_element] while the map is parsed.
    pub closed spec fn registers(&self, name: Seq<char>) -> bool {
        exists|j: int| 0 <= j < self.parsers@.len() && #[trigger] self.parsers@[j]@ == name
    }

    /// Whether every name in the map points into its lookup table, which
    /// parsing the map needs.
    pub closed spec fn valid(&self) -> bool {
        names_valid(self.map@.root, self.map@.table.len())
    }

    /// Creates a new `MapManager` from the bytes of a celeste map, with every
    /// name of the map resolved and no parser registered.
    pub fn new(bytes: &[u8]) -> (r: Result<MapManager, MapReadError>)
        requires
            bytes@.len() > 0,
            map_read(bytes@) matches Ok(m) ==> indices_valid(m.root, m.table.len()),
        ensures
            agrees(
                r,
                map_read(bytes@),
                |mm: MapManager, m: MapV|
                    mm.raw_map() == (MapV { root: resolved(m.root, m.table), ..m }) && mm.valid() && forall|
                        n: Seq<char>,
                    | !#[trigger] mm.registers(n),
            ),
    {
        let mut raw = RawMap::from_bytes(bytes)?;
        raw.resolve_strings();
        let mm = MapManager { map: raw, parsers: Vec::new() };
        proof {
            let m = map_read(bytes@)->Ok_0;
            lemma_resolved_is_resolved(m.root, m.table);
            lemma_resolved_valid(resolved(m.root, m.table), m.table.len());
            lemma_indices_names_valid(resolved(m.root, m.table), m.table.len());
        }
        Ok(mm)
    }

    /// Whether `name` is registered.
    fn has_parser(&self, name: &str) -> (r: bool)
        ensures
            r == self.registers(name@),
    {
        for j in 0..self.parsers.len()
            invariant
                forall|k: int| 0 <= k < j ==> #[trigger] self.parsers@[k]@ != name@,
        {
            if str_eq(self.parsers[j].as_str(), name) {
                return true;
            }
        }
        false
    }

    /// The parser of the map's root element.
    fn root_parser(&self, verbose_debug: bool) -> (r: MapParser)
        requires
            self.valid(),
        ensures
            r.valid(),
            r.raw == &self.map.root_element,
            r.parsers == &self.parsers,
    {
        MapParser {
            verbose_debug,
            lookup: &self.map.lookup_table,
            raw: &self.map.root_element,
            parsers: &self.parsers,
        }
    }

    /// Parse the map passed in the constructor using any registered parsers when needed
    pub fn parse_map(&self) -> (r: Result<MapRoot, MapElementParsingError>)
        requires
            self.valid(),
    {
        MapRoot::from_raw(self.root_parser(false))
    }

    /// Same as [parse_map](Self::parse_map), with the parser's debugging flag set
    pub fn verbose_parse(&self) -> (r: Result<MapRoot, MapElementParsingError>)
        requires
            self.valid(),
    {
        MapRoot::from_raw(self.root_parser(true))
    }

    /// Encode the map data back into a [RawMap], stored in the manager itself,
    /// under the name `name`.
    pub fn encode_map(&mut self, name: &str, root: &MapRoot)
        ensures
            final(self).raw_map().name == name@,
            forall|n: Seq<char>| #[trigger] final(self).registers(n) == old(self).registers(n),
    {
        let mut lookup = LookupTable::new();
        let root_name = lookup.index_string(MapRoot::name());
        let mut encoder = MapEncoder::new(&mut lookup, root_name);
        root.to_raw(&mut encoder);
        let built = encoder.resolve();
        self.map.root_element = built;
        self.map.name = name.to_owned();
        self.map.lookup_table = lookup;
        self.map.unresolve_strings();
        assert(self.parsers == old(self).parsers);
    }

    /// Allows the `MapManager` to parse a new type of [MapElement].
    ///
    /// All [MapElement] implementations in this crate can be added via [MapManager::default_parsers].
    ///
    /// This is used exclusively for parsing [DynMapElement](crate::maps::elements::dynamic::DynMapElement)s
    /// during calls to [MapParser::parse_any_element]; an element is parsed
    /// into its type where its name is registered and is the name of one of the
    /// element types this library knows.
    pub fn add_parser<T: MapElement>(&mut self)
        ensures
            final(self).raw_map() == old(self).raw_map(),
            final(self).valid() == old(self).valid(),
            forall|n: Seq<char>|
                #[trigger] final(self).registers(n) == (old(self).registers(n) || n == T::element_name()),
    {
        let name = T::name();
        if !self.has_parser(name) {
            let ghost before = self.parsers@;
            self.parsers.push(name.to_owned());
            proof {
                assert forall|n: Seq<char>| #[trigger]
                    self.registers(n) == (old(self).registers(n) || n == T::element_name()) by {
                    if old(self).registers(n) {
                        let j = choose|j: int| 0 <= j < before.len() && #[trigger] before[j]@ == n;
                        assert(self.parsers@[j] == before[j]);
                    }
                    if n == T::element_name() {
                        assert(self.parsers@[before.len() as int]@ == n);
                    }
                    if self.registers(n) {
                        let j = choose|j: int| 0 <= j < self.parsers@.len() && #[trigger] self.parsers@[j]@ == n;
                        if j < before.len() {
                            assert(before[j] == self.parsers@[j]);
                        }
                    }
                }
            }
        }
    }

    /// Allows the `MapManager` to parse a new type of [Entity]
    ///
    /// Acts the same as [add_parser](MapManager::add_parser) but for entities
    pub fn add_entity_parser<T: Entity>(&mut self)
        ensures
            final(self).raw_map() == old(self).raw_map(),
            final(self).valid() == old(self).valid(),
            forall|n: Seq<char>|
                #[trigger] final(self).registers(n) == (old(self).registers(n) || n == T::entity_name()),
    {
        self.add_parser::<MapEntity<T>>();
    }

    /// Allows the `MapManager` to parse a new type of [Trigger]
    ///
    /// Acts the same as [add_parser](MapManager::add_parser) but for triggers
    pub fn add_trigger_parser<T: Trigger>(&mut self)
        ensures
            final(self).raw_map() == old(self).raw_map(),
            final(self).valid() == old(self).valid(),
            forall|n: Seq<char>|
                #[trigger] final(self).registers(n) == (old(self).registers(n) || n == T::trigger_name()),
    {
        self.add_parser::<MapTrigger<T>>();
    }

    /// Gets a reference to the [RawMap] stored in the manager.
    ///
    /// This is initialized in the constructor and modified in [encode_map](Self::encode_map)
    pub fn map(&self) -> (r: &RawMap)
        ensures
            r@ == self.raw_map(),
    {
        &self.map
    }

    /// Writes the stored map data as binary into the provided writer
    pub fn write_map(&self, writer: &mut MapWriter) -> (res: Result<(), MapWriteError>)
        requires
            map_writable(self.raw_map()),
        ensures
            final(writer)@ == old(writer)@ + map_bytes(self.raw_map()).0,
            write_outcome(res, map_bytes(self.raw_map()).1),
    {
        self.map.write(writer)
    }

    /// Writes the stored map to binary and returns the bytes
    pub fn map_bytes(&self) -> (res: Result<Vec<u8>, MapWriteError>)
        requires
            map_writable(self.raw_map()),
        ensures
            match map_bytes(self.raw_map()).1 {
                None => res matches Ok(b) && b@ == map_bytes(self.raw_map()).0,
                Some(t) => res matches Err(MapWriteError::ResolvedString(s)) && s@ == t,
            },
    {
        self.map.to_bytes()
    }
}

} // verus!
