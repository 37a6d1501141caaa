//! Reading typed map elements out of raw elements.
use vstd::prelude::*;

use std::marker::PhantomData;

use crate::maps::encoder::MapEncoder;
use crate::maps::lookup::{LookupIndex, LookupTable, NameV, ResolvableString};
use crate::maps::var_types::{typed, Character, EncodedVar, EncodedVarError, VarValue};
use crate::maps::{attrs_view, element_view, elements_view, AttrV, RawMapElement};
use crate::utils::num::{Float, Integer};
use crate::utils::text::str_eq;

verus! {

/// A type that an attribute value can be read as.
pub trait FromEncodedVar: Sized {
    /// Whether a value of this kind can be read as the type.
    spec fn accepts(v: VarValue) -> bool;

    /// Whether `x` is what the value reads as.
    spec fn decodes(v: VarValue, x: Self) -> bool;

    /// The name of the type in errors.
    spec fn expected() -> Seq<char>;

    /// Reads the value as the type, or says which kind was found instead.
    fn from_encoded(v: &EncodedVar) -> (r: Result<Self, EncodedVarError>)
        ensures
            typed(r, v@, Self::accepts(v@), Self::expected()),
            r matches Ok(x) ==> Self::decodes(v@, x),
    ;
}

impl FromEncodedVar for bool {
    open spec fn accepts(v: VarValue) -> bool {
        v is Bool
    }

    open spec fn decodes(v: VarValue, x: bool) -> bool {
        v == VarValue::Bool(x)
    }

    open spec fn expected() -> Seq<char> {
        "bool"@
    }

    fn from_encoded(v: &EncodedVar) -> (r: Result<bool, EncodedVarError>) {
        v.bool()
    }
}

impl FromEncodedVar for u8 {
    open spec fn accepts(v: VarValue) -> bool {
        v is Byte
    }

    open spec fn decodes(v: VarValue, x: u8) -> bool {
        v == VarValue::Byte(x)
    }

    open spec fn expected() -> Seq<char> {
        "u8"@
    }

    fn from_encoded(v: &EncodedVar) -> (r: Result<u8, EncodedVarError>) {
        v.u8()
    }
}

impl FromEncodedVar for i16 {
    open spec fn accepts(v: VarValue) -> bool {
        v is Short
    }

    open spec fn decodes(v: VarValue, x: i16) -> bool {
        v == VarValue::Short(x)
    }

    open spec fn expected() -> Seq<char> {
        "i16"@
    }

    fn from_encoded(v: &EncodedVar) -> (r: Result<i16, EncodedVarError>) {
        v.i16()
    }
}

impl FromEncodedVar for i32 {
    open spec fn accepts(v: VarValue) -> bool {
        v is Int
    }

    open spec fn decodes(v: VarValue, x: i32) -> bool {
        v == VarValue::Int(x)
    }

    open spec fn expected() -> Seq<char> {
        "i32"@
    }

    fn from_encoded(v: &EncodedVar) -> (r: Result<i32, EncodedVarError>) {
        v.i32()
    }
}

impl FromEncodedVar for Integer {
    open spec fn accepts(v: VarValue) -> bool {
        v is Byte || v is Short || v is Int
    }

    open spec fn decodes(v: VarValue, x: Integer) -> bool {
        v == crate::maps::var_types::var_of_integer(x)
    }

    open spec fn expected() -> Seq<char> {
        "integer"@
    }

    fn from_encoded(v: &EncodedVar) -> (r: Result<Integer, EncodedVarError>) {
        v.integer()
    }
}

impl FromEncodedVar for String {
    open spec fn accepts(v: VarValue) -> bool {
        v is String || v is LengthEncodedString
    }

    open spec fn decodes(v: VarValue, x: String) -> bool {
        v == VarValue::String(x@) || v == VarValue::LengthEncodedString(x@)
    }

    open spec fn expected() -> Seq<char> {
        "string"@
    }

    fn from_encoded(v: &EncodedVar) -> (r: Result<String, EncodedVarError>) {
        v.string()
    }
}

impl FromEncodedVar for ResolvableString {
    open spec fn accepts(v: VarValue) -> bool {
        v is String || v is LookupIndex
    }

    open spec fn decodes(v: VarValue, x: ResolvableString) -> bool {
        v == crate::maps::var_types::var_of_resolvable(x)
    }

    open spec fn expected() -> Seq<char> {
        "indexed string"@
    }

    fn from_encoded(v: &EncodedVar) -> (r: Result<ResolvableString, EncodedVarError>) {
        v.index_string()
    }
}

impl FromEncodedVar for Character {
    open spec fn accepts(v: VarValue) -> bool {
        v is Byte || v is String || v is LookupIndex
    }

    open spec fn decodes(v: VarValue, x: Character) -> bool {
        v == crate::maps::var_types::var_of_character(x)
    }

    open spec fn expected() -> Seq<char> {
        "character"@
    }

    fn from_encoded(v: &EncodedVar) -> (r: Result<Character, EncodedVarError>) {
        v.char()
    }
}

impl FromEncodedVar for LookupIndex {
    open spec fn accepts(v: VarValue) -> bool {
        v is LookupIndex
    }

    open spec fn decodes(v: VarValue, x: LookupIndex) -> bool {
        v == VarValue::LookupIndex(x.0)
    }

    open spec fn expected() -> Seq<char> {
        "lookup index"@
    }

    fn from_encoded(v: &EncodedVar) -> (r: Result<LookupIndex, EncodedVarError>) {
        v.lookup_index()
    }
}

impl FromEncodedVar for Float {
    open spec fn accepts(v: VarValue) -> bool {
        v is Byte || v is Short || v is Int || v is Float
    }

    open spec fn decodes(v: VarValue, x: Float) -> bool {
        v == crate::maps::var_types::var_of_float(x)
    }

    open spec fn expected() -> Seq<char> {
        "float"@
    }

    fn from_encoded(v: &EncodedVar) -> (r: Result<Float, EncodedVarError>) {
        v.float()
    }
}

/// A type that can be stored as an attribute value.
pub trait ToEncodedVar {
    /// The value it is stored as.
    spec fn encoded(&self) -> VarValue;

    fn to_encoded(&self) -> (r: EncodedVar)
        ensures
            r@ == self.encoded(),
    ;
}

impl ToEncodedVar for bool {
    open spec fn encoded(&self) -> VarValue {
        VarValue::Bool(*self)
    }

    fn to_encoded(&self) -> (r: EncodedVar) {
        assert(self.encoded() == VarValue::Bool(*self));
        EncodedVar::Bool(*self)
    }
}

impl ToEncodedVar for u8 {
    open spec fn encoded(&self) -> VarValue {
        VarValue::Byte(*self)
    }

    fn to_encoded(&self) -> (r: EncodedVar) {
        assert(self.encoded() == VarValue::Byte(*self));
        EncodedVar::Byte(*self)
    }
}

impl ToEncodedVar for i16 {
    open spec fn encoded(&self) -> VarValue {
        VarValue::Short(*self)
    }

    fn to_encoded(&self) -> (r: EncodedVar) {
        assert(self.encoded() == VarValue::Short(*self));
        EncodedVar::Short(*self)
    }
}

impl ToEncodedVar for i32 {
    open spec fn encoded(&self) -> VarValue {
        VarValue::Int(*self)
    }

    fn to_encoded(&self) -> (r: EncodedVar) {
        assert(self.encoded() == VarValue::Int(*self));
        EncodedVar::Int(*self)
    }
}

impl ToEncodedVar for Integer {
    open spec fn encoded(&self) -> VarValue {
        crate::maps::var_types::var_of_integer(*self)
    }

    fn to_encoded(&self) -> (r: EncodedVar) {
        assert(self.encoded() == crate::maps::var_types::var_of_integer(*self));
        EncodedVar::from_integer(*self)
    }
}

impl ToEncodedVar for Float {
    open spec fn encoded(&self) -> VarValue {
        crate::maps::var_types::var_of_float(*self)
    }

    fn to_encoded(&self) -> (r: EncodedVar) {
        assert(self.encoded() == crate::maps::var_types::var_of_float(*self));
        EncodedVar::from_float(*self)
    }
}

impl ToEncodedVar for String {
    open spec fn encoded(&self) -> VarValue {
        VarValue::String(self@)
    }

    fn to_encoded(&self) -> (r: EncodedVar) {
        assert(self.encoded() == VarValue::String(self@));
        EncodedVar::String(self.clone())
    }
}

impl ToEncodedVar for ResolvableString {
    open spec fn encoded(&self) -> VarValue {
        crate::maps::var_types::var_of_resolvable(*self)
    }

    fn to_encoded(&self) -> (r: EncodedVar) {
        assert(self.encoded() == crate::maps::var_types::var_of_resolvable(*self));
        EncodedVar::from_resolvable(self.duplicate())
    }
}

impl ToEncodedVar for Character {
    open spec fn encoded(&self) -> VarValue {
        crate::maps::var_types::var_of_character(*self)
    }

    fn to_encoded(&self) -> (r: EncodedVar) {
        assert(self.encoded() == crate::maps::var_types::var_of_character(*self));
        EncodedVar::from_character(
            match self {
                Character::String(s) => Character::String(s.duplicate()),
                Character::Byte(b) => Character::Byte(*b),
            },
        )
    }
}

/// The value of the attribute named `name` of the element `p` reads.
pub open spec fn attr_of(p: MapParser, name: Seq<char>) -> Option<VarValue> {
    attr_named(attrs_view(p.raw.attributes@), p.lookup.strings(), name)
}

/// Whether `x` is the required attribute `name` of `p`, decoded.
pub open spec fn attr_read<T: FromEncodedVar>(p: MapParser, name: Seq<char>, x: T) -> bool {
    match attr_of(p, name) {
        Some(v) => T::decodes(v, x),
        None => false,
    }
}

/// Whether the required attribute `name` of `p` is there, of a kind `T` accepts.
pub open spec fn attr_ok<T: FromEncodedVar>(p: MapParser, name: Seq<char>) -> bool {
    match attr_of(p, name) {
        Some(v) => T::accepts(v),
        None => false,
    }
}

/// Whether `x` is the optional attribute `name` of `p`, decoded, or `None`
/// where `p` lacks it.
pub open spec fn opt_attr_read<T: FromEncodedVar>(p: MapParser, name: Seq<char>, x: Option<T>) -> bool {
    match attr_of(p, name) {
        Some(v) => x matches Some(y) && T::decodes(v, y),
        None => x is None,
    }
}

/// Whether the optional attribute `name` of `p` is absent or of a kind `T` accepts.
pub open spec fn opt_attr_ok<T: FromEncodedVar>(p: MapParser, name: Seq<char>) -> bool {
    match attr_of(p, name) {
        Some(v) => T::accepts(v),
        None => true,
    }
}

/// The attribute `name` written with the value `x`.
pub open spec fn attr_written<T: ToEncodedVar>(name: Seq<char>, x: T) -> Seq<AttrV> {
    seq![AttrV { name: NameV::Text(name), value: x.encoded() }]
}

/// The attribute `name` written with the value of `x`, where there is one.
pub open spec fn opt_attr_written<T: ToEncodedVar>(name: Seq<char>, x: Option<T>) -> Seq<AttrV> {
    match x {
        Some(y) => attr_written(name, y),
        None => Seq::empty(),
    }
}

/// The attribute `name` written as run-length encoded text, where there is one.
pub open spec fn opt_rle_written(name: Seq<char>, x: Option<String>) -> Seq<AttrV> {
    match x {
        Some(y) => seq![AttrV { name: NameV::Text(name), value: VarValue::LengthEncodedString(y@) }],
        None => Seq::empty(),
    }
}

/// One where there is a value, none where there is not.
pub open spec fn opt_count<T>(x: Option<T>) -> nat {
    if x is Some {
        1
    } else {
        0
    }
}

/// Whether `x` is the first child of `p` of the kind `T`, read.
pub open spec fn child_read<T: MapElement>(p: MapParser, x: T) -> bool {
    &&& !p.no_child_named(T::element_name())
    &&& forall|i: int| #[trigger] p.is_first_named(i, T::element_name()) ==> T::fields_read(p.child_at(i), x)
}

/// Whether `p` has a child of the kind `T`, and its first one reads.
pub open spec fn child_ok<T: MapElement>(p: MapParser) -> bool {
    &&& !p.no_child_named(T::element_name())
    &&& forall|i: int| #[trigger] p.is_first_named(i, T::element_name()) ==> T::fields_ok(p.child_at(i))
}

/// Whether `x` is the first child of `p` of the kind `T`, read, or `None`
/// where `p` has no such child.
pub open spec fn opt_child_read<T: MapElement>(p: MapParser, x: Option<T>) -> bool {
    match x {
        Some(y) => child_read(p, y),
        None => p.no_child_named(T::element_name()),
    }
}

/// Whether the first child of `p` of the kind `T`, if any, reads.
pub open spec fn opt_child_ok<T: MapElement>(p: MapParser) -> bool {
    forall|i: int| #[trigger] p.is_first_named(i, T::element_name()) ==> T::fields_ok(p.child_at(i))
}

/// Whether `xs` are the children of `p` of the kind `T`, read, in order.
pub open spec fn children_read<T: MapElement>(p: MapParser, xs: Seq<T>) -> bool {
    &&& xs.len() == named_count(elements_view(p.raw.children@), p.lookup.strings(), T::element_name())
    &&& forall|k: int| 0 <= k < xs.len() ==> read_from_nth_child(p, k, #[trigger] xs[k])
}

/// Whether `x` is what the child of `p` of the kind `T` that has `k` such
/// children before it reads as.
pub open spec fn read_from_nth_child<T: MapElement>(p: MapParser, k: int, x: T) -> bool {
    exists|i: int|
        0 <= i < p.raw.children@.len() && #[trigger] p.child_name(i) == T::element_name() && named_count(
            elements_view(p.raw.children@).take(i),
            p.lookup.strings(),
            T::element_name(),
        ) == k && T::fields_read(p.child_at(i), x)
}

/// Whether every child of `p` of the kind `T` reads.
pub open spec fn children_ok<T: MapElement>(p: MapParser) -> bool {
    forall|i: int|
        0 <= i < p.raw.children@.len() && #[trigger] p.child_name(i) == T::element_name() ==> T::fields_ok(
            p.child_at(i),
        )
}

/// Whether the first child of `p` of the kind `T`, if any, needs nothing
/// beyond what its fields need.
pub open spec fn child_exact<T: MapElement>(p: MapParser) -> bool {
    forall|i: int| #[trigger] p.is_first_named(i, T::element_name()) ==> T::exact(p.child_at(i))
}

/// Whether every child of `p` of the kind `T` needs nothing beyond what its
/// fields need.
pub open spec fn children_exact<T: MapElement>(p: MapParser) -> bool {
    forall|i: int|
        0 <= i < p.raw.children@.len() && #[trigger] p.child_name(i) == T::element_name() ==> T::exact(p.child_at(i))
}

/// What reading the child of `p` at `i` as `T` gives `r`.
pub open spec fn child_outcome<T: MapElement>(p: MapParser, i: int, r: Result<T, MapElementParsingError>) -> bool {
    &&& r matches Ok(x) ==> T::fields_read(p.child_at(i), x)
    &&& !T::fields_ok(p.child_at(i)) ==> r is Err
    &&& T::exact(p.child_at(i)) && T::fields_ok(p.child_at(i)) ==> r is Ok
}

/// What reading the child of `p` at `i`, which exists, as `T` gives `r`.
pub open spec fn opt_child_outcome<T: MapElement>(
    p: MapParser,
    i: int,
    r: Result<Option<T>, MapElementParsingError>,
) -> bool {
    &&& match r {
        Ok(Some(x)) => T::fields_read(p.child_at(i), x),
        Ok(None) => false,
        Err(_) => true,
    }
    &&& !T::fields_ok(p.child_at(i)) ==> r is Err
    &&& T::exact(p.child_at(i)) && T::fields_ok(p.child_at(i)) ==> r is Ok
}

/// What [MapParser::parse_element] promises of its result `r` on `p`.
pub open spec fn required_outcome<T: MapElement>(p: MapParser, r: Result<T, MapElementParsingError>) -> bool {
    &&& p.no_child_named(T::element_name()) ==> (r matches Err(
        MapElementParsingError::NoMatchingElementFound { expected, found },
    ) && expected@ == T::element_name() && found@ == p.own_name())
    &&& forall|i: int| #[trigger] p.is_first_named(i, T::element_name()) ==> child_outcome(p, i, r)
}

/// What [MapParser::parse_optional_element] promises of its result `r` on `p`.
pub open spec fn optional_outcome<T: MapElement>(p: MapParser, r: Result<Option<T>, MapElementParsingError>) -> bool {
    &&& p.no_child_named(T::element_name()) ==> (r matches Ok(None))
    &&& forall|i: int| #[trigger] p.is_first_named(i, T::element_name()) ==> opt_child_outcome(p, i, r)
}

/// A result with its value wrapped in `Some`, its error unchanged.
pub open spec fn wrapped_in_some<T>(r: Result<T, MapElementParsingError>) -> Result<Option<T>, MapElementParsingError> {
    match r {
        Ok(x) => Ok(Some(x)),
        Err(e) => Err(e),
    }
}

/// Where the element has a child of the kind `T`, reading the optional child
/// is reading the required one with its value wrapped in `Some` and its error
/// passed on unchanged; where it has none, the required read fails with
/// [MapElementParsingError::NoMatchingElementFound] and the optional one gives
/// `Ok(None)`.
pub proof fn lemma_optional_wraps_required<T: MapElement>(p: MapParser, r: Result<T, MapElementParsingError>)
    requires
        p.valid(),
        required_outcome(p, r),
    ensures
        !p.no_child_named(T::element_name()) ==> optional_outcome(p, wrapped_in_some(r)),
        p.no_child_named(T::element_name()) ==> r is Err && optional_outcome(p, Ok::<Option<T>, MapElementParsingError>(None)),
{
    if !p.no_child_named(T::element_name()) {
        assert forall|i: int| #[trigger] p.is_first_named(i, T::element_name()) implies opt_child_outcome(
            p,
            i,
            wrapped_in_some(r),
        ) by {
            assert(child_outcome(p, i, r));
        }
    } else {
        assert forall|i: int| #[trigger] p.is_first_named(i, T::element_name()) implies opt_child_outcome(
            p,
            i,
            Ok::<Option<T>, MapElementParsingError>(None),
        ) by {
            assert(p.child_name(i) == T::element_name());
            assert(false);
        }
    }
}

/// A trait to represent an element of a map.
pub trait MapElement: Sized {
    /// The name of the element in the map binary.
    spec fn element_name() -> Seq<char>;

    /// The name of the element in the map binary
    fn name() -> (r: &'static str)
        ensures
            r@ == Self::element_name(),
    ;

    /// Whether `x` holds what the element `p` reads gives: each attribute
    /// decoded, each child as that child's kind reads it.
    spec fn fields_read(p: MapParser, x: Self) -> bool;

    /// What reading the element `p` needs: each required attribute present and
    /// of a kind its field accepts, each optional one absent or of such a kind,
    /// each required child present, and each child read as its kind needs.
    spec fn fields_ok(p: MapParser) -> bool;

    /// What reading the element `p` needs beyond [MapElement::fields_ok]:
    /// that nothing it hands on to parsers of other kinds can fail.
    spec fn exact(p: MapParser) -> bool;

    /// The attributes that [MapElement::to_raw] writes, in order.
    spec fn written_attrs(&self) -> Seq<AttrV>;

    /// How many children [MapElement::to_raw] writes.
    spec fn written_children(&self) -> nat;

    fn from_raw(parser: MapParser) -> (r: Result<Self, MapElementParsingError>)
        requires
            parser.valid(),
        ensures
            r matches Ok(x) ==> Self::fields_read(parser, x),
            !Self::fields_ok(parser) ==> r is Err,
            Self::exact(parser) && Self::fields_ok(parser) ==> r is Ok,
    ;

    fn to_raw(&self, encoder: &mut MapEncoder)
        ensures
            final(encoder).built().name == old(encoder).built().name,
            final(encoder).built().attributes == old(encoder).built().attributes + self.written_attrs(),
            final(encoder).built().children.len() == old(encoder).built().children.len() + self.written_children(),
            final(encoder).built().children.take(old(encoder).built().children.len() as int) == old(
                encoder,
            ).built().children,
    ;
}

/// Whether every name in the element and its descendants points into a table of `count` strings.
pub open spec fn names_valid(e: crate::maps::ElementV, count: nat) -> bool
    decreases e,
{
    &&& crate::maps::names::name_valid(e.name, count)
    &&& forall|i: int| 0 <= i < e.attributes.len() ==> crate::maps::names::name_valid(#[trigger] e.attributes[i].name, count)
    &&& forall|i: int| 0 <= i < e.children.len() ==> names_valid(#[trigger] e.children[i], count)
}

/// The number of elements of `s` whose name, looked up in `table`, is `name`.
pub open spec fn named_count(s: Seq<crate::maps::ElementV>, table: Seq<Seq<char>>, name: Seq<char>) -> nat
    decreases s.len(),
{
    if s.len() == 0 {
        0
    } else {
        named_count(s.drop_last(), table, name) + if crate::maps::names::name_text(s.last().name, table) == name {
            1nat
        } else {
            0nat
        }
    }
}

#[derive(Debug)]
pub enum MapElementParsingError {
    AttributeMissing { name: &'static str },
    NoMatchingElementFound { expected: &'static str, found: String },
    NameMismatch { expected: &'static str, found: String },
    EncodedVarError(EncodedVarError),
    MultiError { errors: Vec<(String, MapElementParsingError)> },
    /// Any other error, by its message.
    Custom(String),
}

impl MapElementParsingError {
    pub fn attribute_missing(name: &'static str) -> (r: MapElementParsingError)
        ensures
            r matches MapElementParsingError::AttributeMissing { name: n } && n == name,
    {
        MapElementParsingError::AttributeMissing { name }
    }

    pub fn name_mismatch(expected: &'static str, name: LookupIndex, lookup_table: &LookupTable) -> (r: Self)
        requires
            (name.0 as nat) < lookup_table.strings().len(),
        ensures
            r matches MapElementParsingError::NameMismatch { expected: e, found } && e == expected && found@
                == lookup_table.strings()[name.0 as int],
    {
        MapElementParsingError::NameMismatch { expected, found: lookup_table.entry(name).clone() }
    }

    pub fn custom(err: String) -> (r: Self)
        ensures
            r matches MapElementParsingError::Custom(m) && m@ == err@,
    {
        MapElementParsingError::Custom(err)
    }
}

/// The value of the first attribute whose name, looked up in `table`, is `name`.
pub open spec fn attr_named(attrs: Seq<AttrV>, table: Seq<Seq<char>>, name: Seq<char>) -> Option<VarValue>
    decreases attrs.len(),
{
    if attrs.len() == 0 {
        None
    } else if crate::maps::names::name_text(attrs[0].name, table) == name {
        Some(attrs[0].value)
    } else {
        attr_named(attrs.drop_first(), table, name)
    }
}

/// Whether the names met while searching `attrs` for `name` all point into
/// `table` (looking up a name that does not panics).
pub open spec fn attrs_searchable(attrs: Seq<AttrV>, table: Seq<Seq<char>>, name: Seq<char>) -> bool
    decreases attrs.len(),
{
    attrs.len() == 0 || (crate::maps::names::name_valid(attrs[0].name, table.len()) && (
    crate::maps::names::name_text(attrs[0].name, table) == name || attrs_searchable(
        attrs.drop_first(),
        table,
        name,
    )))
}

/// The first element of `s` whose name, looked up in `table`, is `name`.
pub open spec fn child_named(s: Seq<crate::maps::ElementV>, table: Seq<Seq<char>>, name: Seq<char>) -> Option<int>
    decreases s.len(),
{
    if s.len() == 0 {
        None
    } else if crate::maps::names::name_text(s[0].name, table) == name {
        Some(0)
    } else {
        match child_named(s.drop_first(), table, name) {
            Some(i) => Some(i + 1),
            None => None,
        }
    }
}

/// Helper to parse [MapElement] implementors from [RawMapElement]s
#[derive(Clone, Copy)]
pub struct MapParser<'a> {
    pub verbose_debug: bool,
    pub lookup: &'a LookupTable,
    pub raw: &'a RawMapElement,
    /// The names of the elements that [MapParser::parse_any_element] parses
    /// into their types.
    pub parsers: &'a Vec<String>,
}

impl<'a> MapParser<'a> {
    /// Whether every name in the element being parsed, and in its
    /// descendants, points into the lookup table.
    pub open spec fn valid(self) -> bool {
        names_valid(element_view(*self.raw), self.lookup.strings().len())
    }

    /// In an element whose names are all valid, any attribute name can be searched for.
    pub proof fn lemma_searchable(self)
        requires
            self.valid(),
        ensures
            forall|name: Seq<char>| #[trigger] attrs_searchable(attrs_view(self.raw.attributes@), self.lookup.strings(), name),
    {
        let attrs = attrs_view(self.raw.attributes@);
        let table = self.lookup.strings();
        assert forall|name: Seq<char>| #[trigger] attrs_searchable(attrs, table, name) by {
            lemma_valid_searchable(attrs, table, name);
        }
    }

    /// A parser for a child of the element being parsed.
    fn for_child(&self, child: &'a RawMapElement) -> (r: MapParser<'a>)
        ensures
            r.raw == child,
            r.lookup == self.lookup,
            r.verbose_debug == self.verbose_debug,
            r.parsers == self.parsers,
            r == (MapParser { raw: child, ..*self }),
    {
        MapParser { verbose_debug: self.verbose_debug, lookup: self.lookup, raw: child, parsers: self.parsers }
    }

    /// Whether the child at `i` is the first named `name`.
    pub open spec fn is_first_named(self, i: int, name: Seq<char>) -> bool {
        &&& 0 <= i < self.raw.children@.len()
        &&& self.child_name(i) == name
        &&& forall|j: int| 0 <= j < i ==> #[trigger] self.child_name(j) != name
    }

    /// The parser of the child at `i`.
    pub open spec fn child_at(self, i: int) -> MapParser<'a> {
        MapParser { raw: &self.raw.children@[i], ..self }
    }

    /// Whether no child of the element is named `name`.
    pub open spec fn no_child_named(self, name: Seq<char>) -> bool {
        forall|j: int|
            0 <= j < self.raw.children@.len() ==> crate::maps::names::name_text(
                #[trigger] self.raw.children@[j].name@,
                self.lookup.strings(),
            ) != name
    }

    /// The text of the element's own name.
    pub open spec fn own_name(self) -> Seq<char> {
        crate::maps::names::name_text(self.raw.name@, self.lookup.strings())
    }

    /// A child of a valid element has valid names.
    pub(crate) proof fn lemma_child_valid(self, i: int)
        requires
            self.valid(),
            0 <= i < self.raw.children@.len(),
        ensures
            names_valid(element_view(self.raw.children@[i]), self.lookup.strings().len()),
            crate::maps::names::name_valid(self.raw.children@[i].name@, self.lookup.strings().len()),
    {
        crate::maps::lemma_elements_view(self.raw.children@);
        assert(element_view(*self.raw).children[i] == element_view(self.raw.children@[i]));
    }

    /// The position of the first child named `name`.
    pub(crate) fn child_index(&self, name: &str) -> (r: Option<usize>)
        requires
            self.valid(),
        ensures
            match r {
                Some(i) => i < self.raw.children@.len() && crate::maps::names::name_text(
                    self.raw.children@[i as int].name@,
                    self.lookup.strings(),
                ) == name@ && self.is_first_named(i as int, name@),
                None => self.no_child_named(name@),
            },
    {
        let children = &self.raw.children;
        for i in 0..children.len()
            invariant
                children == &self.raw.children,
                self.valid(),
                forall|j: int|
                    0 <= j < i ==> crate::maps::names::name_text(
                        #[trigger] self.raw.children@[j].name@,
                        self.lookup.strings(),
                    ) != name@,
        {
            proof {
                self.lemma_child_valid(i as int);
            }
            if str_eq(children[i].name.to_string(self.lookup), name) {
                return Some(i);
            }
        }
        None
    }

    /// Whether the child at `i` is named `name`.
    pub(crate) fn child_named(&self, i: usize, name: &str) -> (r: bool)
        requires
            self.valid(),
            i < self.raw.children@.len(),
        ensures
            r == (crate::maps::names::name_text(self.raw.children@[i as int].name@, self.lookup.strings()) == name@),
    {
        proof {
            self.lemma_child_valid(i as int);
        }
        str_eq(self.raw.children[i].name.to_string(self.lookup), name)
    }

    /// A parser for the child at `i`.
    pub(crate) fn child_parser(&self, i: usize) -> (r: MapParser<'a>)
        requires
            self.valid(),
            i < self.raw.children@.len(),
        ensures
            r.raw == &self.raw.children@[i as int],
            r.lookup == self.lookup,
            r.parsers == self.parsers,
            r.valid(),
            r == self.child_at(i as int),
    {
        proof {
            self.lemma_child_valid(i as int);
        }
        self.for_child(&self.raw.children[i])
    }

    /// The text of the name of the child at `i`.
    pub open spec fn child_name(self, i: int) -> Seq<char> {
        crate::maps::names::name_text(self.raw.children@[i].name@, self.lookup.strings())
    }

    /// Whether elements named `name` are parsed into their types by
    /// [MapParser::parse_any_element].
    pub open spec fn registers(self, name: Seq<char>) -> bool {
        exists|j: int| 0 <= j < self.parsers@.len() && #[trigger] self.parsers@[j]@ == name
    }

    /// Whether `name` is registered.
    pub(crate) fn is_registered(&self, name: &str) -> (r: bool)
        ensures
            r == self.registers(name@),
    {
        for j in 0..self.parsers.len()
            invariant
                forall|k: int| 0 <= k < j ==> #[trigger] self.parsers@[k]@ != name@,
        {
            if str_eq(self.parsers[j].as_str(), name) {
                return true;
            }
        }
        false
    }

    /// Attempts to parse a child element `T` from the current element: the
    /// first child of its name, or an error where there is none
    pub fn parse_element<T: MapElement>(&self) -> (r: Result<T, MapElementParsingError>)
        requires
            self.valid(),
        ensures
            self.no_child_named(T::element_name()) ==> (r matches Err(
                MapElementParsingError::NoMatchingElementFound { expected, found },
            ) && expected@ == T::element_name() && found@ == self.own_name()),
            forall|i: int| #[trigger] self.is_first_named(i, T::element_name()) ==> child_outcome(*self, i, r),
            !self.no_child_named(T::element_name()) ==> exists|i: int| self.is_first_named(i, T::element_name()),
            required_outcome(*self, r),
    {
        let children = &self.raw.children;
        for i in 0..children.len()
            invariant
                children == &self.raw.children,
                self.valid(),
                forall|j: int|
                    0 <= j < i ==> crate::maps::names::name_text(
                        #[trigger] self.raw.children@[j].name@,
                        self.lookup.strings(),
                    ) != T::element_name(),
        {
            let child = &children[i];
            proof {
                self.lemma_child_valid(i as int);
            }
            if str_eq(child.name.to_string(self.lookup), T::name()) {
                let r = T::from_raw(self.for_child(child));
                proof {
                    assert(self.is_first_named(i as int, T::element_name()));
                    assert forall|k: int| #[trigger] self.is_first_named(k, T::element_name()) implies k == i by {
                        if k < i {
                            assert(self.child_name(k) != T::element_name());
                        } else if k > i {
                            assert(self.child_name(i as int) != T::element_name());
                        }
                    }
                }
                return r;
            }
        }
        Err(
            MapElementParsingError::NoMatchingElementFound {
                expected: T::name(),
                found: self.raw.name.to_string(self.lookup).to_owned(),
            },
        )
    }

    /// Attempts to parse a child with type `T`, if there is not one, returns `None`.
    ///
    /// Where there is one, this is [MapParser::parse_element] with its value
    /// wrapped in `Some` and its error passed on unchanged.
    pub fn parse_optional_element<T: MapElement>(&self) -> (r: Result<Option<T>, MapElementParsingError>)
        requires
            self.valid(),
        ensures
            self.no_child_named(T::element_name()) ==> r matches Ok(None),
            forall|i: int| #[trigger] self.is_first_named(i, T::element_name()) ==> opt_child_outcome(*self, i, r),
            !self.no_child_named(T::element_name()) ==> exists|i: int| self.is_first_named(i, T::element_name()),
            optional_outcome(*self, r),
    {
        match self.child_index(T::name()) {
            None => Ok(None),
            Some(_) => {
                let req = self.parse_element::<T>();
                proof {
                    assert(!self.no_child_named(T::element_name()));
                    lemma_optional_wraps_required(*self, req);
                }
                match req {
                    Ok(t) => Ok(Some(t)),
                    Err(e) => Err(e),
                }
            },
        }
    }

    /// Attempts to parse every child element of type `T`, stopping at the first error
    pub fn parse_all_elements<T: MapElement>(&self) -> (r: Result<Vec<T>, MapElementParsingError>)
        requires
            self.valid(),
        ensures
            r matches Ok(v) ==> children_read(*self, v@),
            !children_ok::<T>(*self) ==> r is Err,
            children_exact::<T>(*self) && children_ok::<T>(*self) ==> r is Ok,
    {
        let ghost kids = elements_view(self.raw.children@);
        let ghost table = self.lookup.strings();
        proof {
            crate::maps::lemma_elements_view(self.raw.children@);
            assert(kids.take(0) =~= Seq::<crate::maps::ElementV>::empty());
        }
        let children = &self.raw.children;
        let mut out: Vec<T> = Vec::new();
        for i in 0..children.len()
            invariant
                children == &self.raw.children,
                self.valid(),
                kids == elements_view(self.raw.children@),
                table == self.lookup.strings(),
                kids.len() == self.raw.children@.len(),
                forall|j: int| 0 <= j < kids.len() ==> #[trigger] kids[j] == element_view(self.raw.children@[j]),
                out@.len() == named_count(kids.take(i as int), table, T::element_name()),
                forall|k: int| 0 <= k < out@.len() ==> read_from_nth_child(*self, k, #[trigger] out@[k]),
                forall|j: int|
                    0 <= j < i && #[trigger] self.child_name(j) == T::element_name() ==> T::fields_ok(
                        self.child_at(j),
                    ),
        {
            let child = &children[i];
            proof {
                self.lemma_child_valid(i as int);
                assert(kids.take(i + 1).drop_last() =~= kids.take(i as int));
                assert(kids.take(i + 1).last() == element_view(*child));
            }
            if str_eq(child.name.to_string(self.lookup), T::name()) {
                let ghost before = out@;
                let cp = self.for_child(child);
                proof {
                    assert(cp == self.child_at(i as int));
                    assert(self.child_name(i as int) == T::element_name());
                }
                let res = T::from_raw(cp);
                match res {
                    Ok(t) => {
                        out.push(t);
                        proof {
                            assert(T::fields_read(self.child_at(i as int), out@[before.len() as int]));
                            assert(read_from_nth_child(*self, before.len() as int, out@[before.len() as int]));
                            assert forall|k: int| 0 <= k < out@.len() implies read_from_nth_child(
                                *self,
                                k,
                                #[trigger] out@[k],
                            ) by {
                                if k < before.len() {
                                    assert(out@[k] == before[k]);
                                }
                            }
                        }
                    },
                    Err(e) => {
                        proof {
                            assert(!children_ok::<T>(*self) || !children_exact::<T>(*self));
                        }
                        return Err(e);
                    },
                }
            } else {
                proof {
                    assert(self.child_name(i as int) != T::element_name());
                }
            }
        }
        proof {
            assert(kids.take(kids.len() as int) =~= kids);
        }
        Ok(out)
    }

    fn find_attribute(&self, str: &str) -> (r: Option<&'a EncodedVar>)
        requires
            attrs_searchable(attrs_view(self.raw.attributes@), self.lookup.strings(), str@),
        ensures
            match attr_named(attrs_view(self.raw.attributes@), self.lookup.strings(), str@) {
                Some(v) => r matches Some(x) && x@ == v,
                None => r is None,
            },
    {
        let ghost table = self.lookup.strings();
        let ghost attrs = attrs_view(self.raw.attributes@);
        let attributes: &'a Vec<crate::maps::MapAttribute> = &self.raw.attributes;
        let mut i: usize = 0;
        proof {
            assert(attrs.skip(0) =~= attrs);
        }
        while i < attributes.len()
            invariant
                i <= attributes@.len(),
                attributes@ == self.raw.attributes@,
                table == self.lookup.strings(),
                attrs == attrs_view(attributes@),
                attrs_searchable(attrs.skip(i as int), table, str@),
                attr_named(attrs, table, str@) == attr_named(attrs.skip(i as int), table, str@),
            decreases attributes@.len() - i,
        {
            let a = &attributes[i];
            proof {
                assert(attrs.skip(i as int)[0] == a@);
                assert(attrs.skip(i as int).drop_first() =~= attrs.skip(i + 1));
            }
            if str_eq(a.name.to_string(self.lookup), str) {
                return Some(&a.value);
            }
            i = i + 1;
        }
        None
    }

    /// Gets the [EncodedVar] of an attribute with name `str` on the current element.
    pub fn get_attribute_raw(&self, str: &'static str) -> (r: Result<&'a EncodedVar, MapElementParsingError>)
        requires
            attrs_searchable(attrs_view(self.raw.attributes@), self.lookup.strings(), str@),
        ensures
            match attr_named(attrs_view(self.raw.attributes@), self.lookup.strings(), str@) {
                Some(v) => r matches Ok(x) && x@ == v,
                None => r matches Err(MapElementParsingError::AttributeMissing { name }) && name == str,
            },
    {
        match self.find_attribute(str) {
            Some(v) => Ok(v),
            None => Err(MapElementParsingError::attribute_missing(str)),
        }
    }

    /// Get an attribute of type `T` with name `str`.
    pub fn get_attribute<T: FromEncodedVar>(&self, str: &'static str) -> (r: Result<T, MapElementParsingError>)
        requires
            attrs_searchable(attrs_view(self.raw.attributes@), self.lookup.strings(), str@),
        ensures
            match attr_named(attrs_view(self.raw.attributes@), self.lookup.strings(), str@) {
                Some(v) => if T::accepts(v) {
                    r matches Ok(x) && T::decodes(v, x)
                } else {
                    r matches Err(MapElementParsingError::EncodedVarError(e)) && e.expected() == T::expected()
                        && e.found() == crate::maps::var_types::kind_name(v)
                },
                None => r matches Err(MapElementParsingError::AttributeMissing { name }) && name == str,
            },
    {
        match self.find_attribute(str) {
            Some(v) => match T::from_encoded(v) {
                Ok(x) => Ok(x),
                Err(e) => Err(MapElementParsingError::EncodedVarError(e)),
            },
            None => Err(MapElementParsingError::attribute_missing(str)),
        }
    }

    /// Returns the value attached to the attribute with name `str` if it is there, otherwise returns `None`
    pub fn get_optional_attribute<T: FromEncodedVar>(&self, str: &'static str) -> (r: Result<
        Option<T>,
        MapElementParsingError,
    >)
        requires
            attrs_searchable(attrs_view(self.raw.attributes@), self.lookup.strings(), str@),
        ensures
            match attr_named(attrs_view(self.raw.attributes@), self.lookup.strings(), str@) {
                Some(v) => if T::accepts(v) {
                    r matches Ok(Some(x)) && T::decodes(v, x)
                } else {
                    r matches Err(MapElementParsingError::EncodedVarError(e)) && e.expected() == T::expected()
                        && e.found() == crate::maps::var_types::kind_name(v)
                },
                None => r matches Ok(None),
            },
    {
        match self.find_attribute(str) {
            Some(v) => match T::from_encoded(v) {
                Ok(x) => Ok(Some(x)),
                Err(e) => Err(MapElementParsingError::EncodedVarError(e)),
            },
            None => Ok(None),
        }
    }
}

/// Searching attributes whose names are all valid never meets an invalid name.
proof fn lemma_valid_searchable(attrs: Seq<AttrV>, table: Seq<Seq<char>>, name: Seq<char>)
    requires
        forall|i: int| 0 <= i < attrs.len() ==> crate::maps::names::name_valid(#[trigger] attrs[i].name, table.len()),
    ensures
        attrs_searchable(attrs, table, name),
    decreases attrs.len(),
{
    if attrs.len() > 0 {
        let t = attrs.drop_first();
        assert forall|i: int| 0 <= i < t.len() implies crate::maps::names::name_valid(#[trigger] t[i].name, table.len()) by {
            assert(t[i] == attrs[i + 1]);
        }
        assert(crate::maps::names::name_valid(attrs[0].name, table.len()));
        lemma_valid_searchable(t, table, name);
    }
}

/// A parser of [MapElement]s
pub struct ElementParser<T>(PhantomData<T>);

impl<T> ElementParser<T> {
    pub fn new() -> Self {
        ElementParser(PhantomData)
    }
}

} // verus!
