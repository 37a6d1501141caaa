//! The typed elements of a map: entities, triggers, styles and the pieces they share.
use vstd::prelude::*;

pub mod dynamic;
pub mod entities;
pub mod level;
pub mod style;
pub mod triggers;

use crate::maps::elements::level::{encode_levels, levels_child_exact, levels_child_ok, levels_child_read, levels_of, levels_outcome, Levels};
use crate::maps::elements::style::Styles;
use crate::maps::encoder::MapEncoder;
use crate::maps::parser::{
    attr_ok, attr_read, attr_written, child_exact, child_ok, children_exact, child_outcome, child_read, children_ok, children_read, opt_attr_ok, opt_attr_read,
    opt_attr_written, attr_named, attr_of, MapElement, MapElementParsingError, MapParser, ToEncodedVar,
};
use crate::maps::lookup::NameV;
use crate::maps::var_types::{var_of_float, var_of_integer, VarValue};
use crate::maps::{attrs_view, AttrV};
use crate::utils::num::{Float, Integer};

verus! {

/// An entity of a level: its attributes apart from the position and size
/// that every entity has.
pub trait Entity: Sized {
    /// The name of the entity in the map binary.
    spec fn entity_name() -> Seq<char>;

    fn name() -> (r: &'static str)
        ensures
            r@ == Self::entity_name(),
    ;

    /// Whether `x` holds what the element `p` reads gives (see [MapElement::fields_read]).
    spec fn fields_read(p: MapParser, x: Self) -> bool;

    /// What reading the element `p` needs (see [MapElement::fields_ok]).
    spec fn fields_ok(p: MapParser) -> bool;

    /// What reading the element `p` needs beyond [Self::fields_ok]: that
    /// nothing it hands on to parsers of other kinds can fail.
    spec fn exact(p: MapParser) -> bool;

    /// The attributes that `to_raw` writes, in order.
    spec fn written_attrs(&self) -> Seq<AttrV>;

    /// How many children `to_raw` writes.
    spec fn written_children(&self) -> nat;

    fn from_raw(parser: MapParser) -> (r: Result<Self, MapElementParsingError>)
        requires
            parser.valid(),
        ensures
            r matches Ok(x) ==> Self::fields_read(parser, x),
            !Self::fields_ok(parser) ==> r is Err,
            Self::exact(parser) && Self::fields_ok(parser) ==> r is Ok,
    ;

    fn to_raw(&self, encoder: &mut MapEncoder)
        ensures
            final(encoder).built().name == old(encoder).built().name,
            final(encoder).built().attributes == old(encoder).built().attributes + self.written_attrs(),
            final(encoder).built().children.len() == old(encoder).built().children.len() + self.written_children(),
            final(encoder).built().children.take(old(encoder).built().children.len() as int) == old(
                encoder,
            ).built().children,
    ;
}

/// A trigger of a level: its attributes apart from the position and size
/// that every trigger has.
pub trait Trigger: Sized {
    /// The name of the trigger in the map binary.
    spec fn trigger_name() -> Seq<char>;

    fn name() -> (r: &'static str)
        ensures
            r@ == Self::trigger_name(),
    ;

    /// Whether `x` holds what the element `p` reads gives (see [MapElement::fields_read]).
    spec fn fields_read(p: MapParser, x: Self) -> bool;

    /// What reading the element `p` needs (see [MapElement::fields_ok]).
    spec fn fields_ok(p: MapParser) -> bool;

    /// What reading the element `p` needs beyond [Self::fields_ok]: that
    /// nothing it hands on to parsers of other kinds can fail.
    spec fn exact(p: MapParser) -> bool;

    /// The attributes that `to_raw` writes, in order.
    spec fn written_attrs(&self) -> Seq<AttrV>;

    /// How many children `to_raw` writes.
    spec fn written_children(&self) -> nat;

    fn from_raw(parser: MapParser) -> (r: Result<Self, MapElementParsingError>)
        requires
            parser.valid(),
        ensures
            r matches Ok(x) ==> Self::fields_read(parser, x),
            !Self::fields_ok(parser) ==> r is Err,
            Self::exact(parser) && Self::fields_ok(parser) ==> r is Ok,
    ;

    fn to_raw(&self, encoder: &mut MapEncoder)
        ensures
            final(encoder).built().name == old(encoder).built().name,
            final(encoder).built().attributes == old(encoder).built().attributes + self.written_attrs(),
            final(encoder).built().children.len() == old(encoder).built().children.len() + self.written_children(),
            final(encoder).built().children.take(old(encoder).built().children.len() as int) == old(
                encoder,
            ).built().children,
    ;
}

/// The metadata related to all entities
#[derive(Debug)]
pub struct MapEntity<T: Entity> {
    pub id: Integer,
    pub x: Float,
    pub y: Float,
    pub width: Option<Integer>,
    pub height: Option<Integer>,
    pub origin_x: Float,
    pub origin_y: Float,
    pub entity: T,
}

impl<T: Entity> MapElement for MapEntity<T> {
    open spec fn element_name() -> Seq<char> {
        T::entity_name()
    }

    fn name() -> (r: &'static str) {
        T::name()
    }

    open spec fn fields_read(p: MapParser, x: Self) -> bool {
        &&& attr_read::<Integer>(p, "id"@, x.id)
        &&& attr_read::<Float>(p, "x"@, x.x)
        &&& attr_read::<Float>(p, "y"@, x.y)
        &&& opt_attr_read::<Integer>(p, "width"@, x.width)
        &&& opt_attr_read::<Integer>(p, "height"@, x.height)
        &&& attr_read::<Float>(p, "originX"@, x.origin_x)
        &&& attr_read::<Float>(p, "originY"@, x.origin_y)
        &&& T::fields_read(p, x.entity)
    }

    open spec fn fields_ok(p: MapParser) -> bool {
        &&& attr_ok::<Integer>(p, "id"@)
        &&& attr_ok::<Float>(p, "x"@)
        &&& attr_ok::<Float>(p, "y"@)
        &&& opt_attr_ok::<Integer>(p, "width"@)
        &&& opt_attr_ok::<Integer>(p, "height"@)
        &&& attr_ok::<Float>(p, "originX"@)
        &&& attr_ok::<Float>(p, "originY"@)
        &&& T::fields_ok(p)
    }

    open spec fn exact(p: MapParser) -> bool {
        T::exact(p)
    }

    open spec fn written_attrs(&self) -> Seq<AttrV> {
        attr_written("id"@, self.id) + attr_written("x"@, self.x) + attr_written("y"@, self.y) + opt_attr_written(
            "width"@,
            self.width,
        ) + opt_attr_written("height"@, self.height) + attr_written("originX"@, self.origin_x) + attr_written("originY"@, self.origin_y) + self.entity.written_attrs()
    }

    open spec fn written_children(&self) -> nat {
        self.entity.written_children()
    }

    fn from_raw(parser: MapParser) -> (r: Result<Self, MapElementParsingError>) {
        proof {
            let ghost ok = Self::fields_ok(parser);
            let ghost ex = Self::exact(parser);
        }
        proof {
            parser.lemma_searchable();
        }
        let res = MapEntity {
            id: parser.get_attribute("id")?,
            x: parser.get_attribute("x")?,
            y: parser.get_attribute("y")?,
            width: parser.get_optional_attribute("width")?,
            height: parser.get_optional_attribute("height")?,
            origin_x: parser.get_attribute("originX")?,
            origin_y: parser.get_attribute("originY")?,
            entity: T::from_raw(parser)?,
        };
        proof {
            let ghost rd = Self::fields_read(parser, res);
        }
        Ok(res)
    }

    fn to_raw(&self, encoder: &mut MapEncoder) {
        encoder.attribute("id", self.id.to_encoded());
        encoder.attribute("x", self.x.to_encoded());
        encoder.attribute("y", self.y.to_encoded());
        if let Some(v) = &self.width {
            encoder.attribute("width", v.to_encoded());
        }
        if let Some(v) = &self.height {
            encoder.attribute("height", v.to_encoded());
        }
        encoder.attribute("originX", self.origin_x.to_encoded());
        encoder.attribute("originY", self.origin_y.to_encoded());
        self.entity.to_raw(encoder);
    }
}

/// The metadata related to all triggers
#[derive(Debug)]
pub struct MapTrigger<T: Trigger> {
    pub id: Integer,
    pub x: Float,
    pub y: Float,
    pub width: Option<Integer>,
    pub height: Option<Integer>,
    pub origin_x: Option<Float>,
    pub origin_y: Option<Float>,
    pub entity: T,
}

impl<T: Trigger> MapElement for MapTrigger<T> {
    open spec fn element_name() -> Seq<char> {
        T::trigger_name()
    }

    fn name() -> (r: &'static str) {
        T::name()
    }

    open spec fn fields_read(p: MapParser, x: Self) -> bool {
        &&& attr_read::<Integer>(p, "id"@, x.id)
        &&& attr_read::<Float>(p, "x"@, x.x)
        &&& attr_read::<Float>(p, "y"@, x.y)
        &&& opt_attr_read::<Integer>(p, "width"@, x.width)
        &&& opt_attr_read::<Integer>(p, "height"@, x.height)
        &&& opt_attr_read::<Float>(p, "originX"@, x.origin_x)
        &&& opt_attr_read::<Float>(p, "originY"@, x.origin_y)
        &&& T::fields_read(p, x.entity)
    }

    open spec fn fields_ok(p: MapParser) -> bool {
        &&& attr_ok::<Integer>(p, "id"@)
        &&& attr_ok::<Float>(p, "x"@)
        &&& attr_ok::<Float>(p, "y"@)
        &&& opt_attr_ok::<Integer>(p, "width"@)
        &&& opt_attr_ok::<Integer>(p, "height"@)
        &&& opt_attr_ok::<Float>(p, "originX"@)
        &&& opt_attr_ok::<Float>(p, "originY"@)
        &&& T::fields_ok(p)
    }

    open spec fn exact(p: MapParser) -> bool {
        T::exact(p)
    }

    open spec fn written_attrs(&self) -> Seq<AttrV> {
        attr_written("id"@, self.id) + attr_written("x"@, self.x) + attr_written("y"@, self.y) + opt_attr_written(
            "width"@,
            self.width,
        ) + opt_attr_written("height"@, self.height) + opt_attr_written("originX"@, self.origin_x) + opt_attr_written("originY"@, self.origin_y) + self.entity.written_attrs()
    }

    open spec fn written_children(&self) -> nat {
        self.entity.written_children()
    }

    fn from_raw(parser: MapParser) -> (r: Result<Self, MapElementParsingError>) {
        proof {
            let ghost ok = Self::fields_ok(parser);
            let ghost ex = Self::exact(parser);
        }
        proof {
            parser.lemma_searchable();
        }
        let res = MapTrigger {
            id: parser.get_attribute("id")?,
            x: parser.get_attribute("x")?,
            y: parser.get_attribute("y")?,
            width: parser.get_optional_attribute("width")?,
            height: parser.get_optional_attribute("height")?,
            origin_x: parser.get_optional_attribute("originX")?,
            origin_y: parser.get_optional_attribute("originY")?,
            entity: T::from_raw(parser)?,
        };
        proof {
            let ghost rd = Self::fields_read(parser, res);
        }
        Ok(res)
    }

    fn to_raw(&self, encoder: &mut MapEncoder) {
        encoder.attribute("id", self.id.to_encoded());
        encoder.attribute("x", self.x.to_encoded());
        encoder.attribute("y", self.y.to_encoded());
        if let Some(v) = &self.width {
            encoder.attribute("width", v.to_encoded());
        }
        if let Some(v) = &self.height {
            encoder.attribute("height", v.to_encoded());
        }
        if let Some(v) = &self.origin_x {
            encoder.attribute("originX", v.to_encoded());
        }
        if let Some(v) = &self.origin_y {
            encoder.attribute("originY", v.to_encoded());
        }
        self.entity.to_raw(encoder);
    }
}

/// A point that an entity refers to.
#[derive(Debug)]
pub struct Node {
    pub x: Float,
    pub y: Float,
}

impl MapElement for Node {
    open spec fn element_name() -> Seq<char> {
        "node"@
    }

    fn name() -> (r: &'static str) {
        "node"
    }

    open spec fn fields_read(p: MapParser, x: Self) -> bool {
        &&& attr_read::<Float>(p, "x"@, x.x)
        &&& attr_read::<Float>(p, "y"@, x.y)
    }

    open spec fn fields_ok(p: MapParser) -> bool {
        &&& attr_ok::<Float>(p, "x"@)
        &&& attr_ok::<Float>(p, "y"@)
    }

    open spec fn exact(p: MapParser) -> bool {
        true
    }

    open spec fn written_attrs(&self) -> Seq<AttrV> {
        attr_written("x"@, self.x)
            + attr_written("y"@, self.y)
    }

    open spec fn written_children(&self) -> nat {
        (0) as nat
    }

    fn from_raw(parser: MapParser) -> (r: Result<Self, MapElementParsingError>) {
        proof {
            let ghost ok = Self::fields_ok(parser);
            let ghost ex = Self::exact(parser);
        }
        proof {
            parser.lemma_searchable();
        }
        Ok(Node { x: parser.get_attribute("x")?, y: parser.get_attribute("y")? })
    }

    fn to_raw(&self, encoder: &mut MapEncoder) {
        encoder.attribute("x", self.x.to_encoded());
        encoder.attribute("y", self.y.to_encoded());
    }
}

/// The root element of a map: its filler, its rooms and its styles.
#[derive(Debug)]
pub struct MapRoot {
    pub filler: Filler,
    pub levels: Levels,
    pub style: Styles,
}

impl MapElement for MapRoot {
    open spec fn element_name() -> Seq<char> {
        "Map"@
    }

    fn name() -> (r: &'static str) {
        "Map"
    }

    open spec fn fields_read(p: MapParser, x: Self) -> bool {
        &&& child_read::<Filler>(p, x.filler)
        &&& levels_child_read(p, x.levels)
        &&& child_read::<Styles>(p, x.style)
    }

    open spec fn fields_ok(p: MapParser) -> bool {
        &&& child_ok::<Filler>(p)
        &&& levels_child_ok(p)
        &&& child_ok::<Styles>(p)
    }

    open spec fn exact(p: MapParser) -> bool {
        &&& child_exact::<Filler>(p)
        &&& levels_child_exact(p)
        &&& child_exact::<Styles>(p)
    }

    open spec fn written_attrs(&self) -> Seq<AttrV> {
        Seq::empty()
    }

    open spec fn written_children(&self) -> nat {
        3
    }

    fn from_raw(parser: MapParser) -> (r: Result<Self, MapElementParsingError>)
        decreases *parser.raw, 2int,
    {
        let ghost ok = Self::fields_ok(parser);
        let ghost ex = Self::exact(parser);
        let filler = match parser.parse_element::<Filler>() {
            Ok(f) => f,
            Err(e) => {
                proof {
                    if !parser.no_child_named(Filler::element_name()) {
                        let i = choose|i: int| parser.is_first_named(i, Filler::element_name());
                        assert(child_outcome::<Filler>(parser, i, Err(e)));
                    }
                }
                return Err(e);
            },
        };
        let levels = match levels_of(&parser) {
            Ok(l) => l,
            Err(e) => {
                proof {
                    if !parser.no_child_named(Levels::element_name()) {
                        let i = choose|i: int| parser.is_first_named(i, Levels::element_name());
                        assert(levels_outcome(parser, i, Err(e)));
                    }
                }
                return Err(e);
            },
        };
        let style = match parser.parse_element::<Styles>() {
            Ok(s) => s,
            Err(e) => {
                proof {
                    if !parser.no_child_named(Styles::element_name()) {
                        let i = choose|i: int| parser.is_first_named(i, Styles::element_name());
                        assert(child_outcome::<Styles>(parser, i, Err(e)));
                    }
                }
                return Err(e);
            },
        };
        let res = MapRoot { filler, levels, style };
        proof {
            let ghost rd = Self::fields_read(parser, res);
        }
        Ok(res)
    }

    fn to_raw(&self, encoder: &mut MapEncoder)
        decreases self, 0int,
    {
        let ghost start = encoder.built();
        proof {
            let ghost wa = self.written_attrs();
            let ghost wc = self.written_children();
        }
        encoder.child(&self.filler);
        let ghost one = encoder.built();
        encode_levels(encoder, &self.levels);
        let ghost two = encoder.built();
        encoder.child(&self.style);
        proof {
            assert(start.attributes + self.written_attrs() =~= start.attributes);
            assert(encoder.built().children.take(start.children.len() as int) =~= two.children.take(
                start.children.len() as int,
            ));
            assert(two.children.take(start.children.len() as int) =~= one.children.take(start.children.len() as int));
        }
    }
}

/// The filler rectangles of a map.
#[derive(Debug)]
pub struct Filler {
    pub filler: Vec<Rect>,
}

impl MapElement for Filler {
    open spec fn element_name() -> Seq<char> {
        "Filler"@
    }

    fn name() -> (r: &'static str) {
        "Filler"
    }

    open spec fn fields_read(p: MapParser, x: Self) -> bool {
        children_read::<Rect>(p, x.filler@)
    }

    open spec fn fields_ok(p: MapParser) -> bool {
        children_ok::<Rect>(p)
    }

    open spec fn exact(p: MapParser) -> bool {
        children_exact::<Rect>(p)
    }

    open spec fn written_attrs(&self) -> Seq<AttrV> {
        Seq::empty()
    }

    open spec fn written_children(&self) -> nat {
        (self.filler@.len()) as nat
    }

    fn from_raw(parser: MapParser) -> (r: Result<Self, MapElementParsingError>) {
        proof {
            let ghost ok = Self::fields_ok(parser);
            let ghost ex = Self::exact(parser);
        }
        Ok(Filler { filler: parser.parse_all_elements()? })
    }

    fn to_raw(&self, encoder: &mut MapEncoder) {
        encoder.children(&self.filler);
    }
}

#[derive(Debug, Clone, Copy)]
pub struct Rect {
    pub x: Integer,
    pub y: Integer,
    pub w: Integer,
    pub h: Integer,
}

impl MapElement for Rect {
    open spec fn element_name() -> Seq<char> {
        "rect"@
    }

    fn name() -> (r: &'static str) {
        "rect"
    }

    open spec fn fields_read(p: MapParser, x: Self) -> bool {
        &&& attr_read::<Integer>(p, "x"@, x.x)
        &&& attr_read::<Integer>(p, "y"@, x.y)
        &&& attr_read::<Integer>(p, "w"@, x.w)
        &&& attr_read::<Integer>(p, "h"@, x.h)
    }

    open spec fn fields_ok(p: MapParser) -> bool {
        &&& attr_ok::<Integer>(p, "x"@)
        &&& attr_ok::<Integer>(p, "y"@)
        &&& attr_ok::<Integer>(p, "w"@)
        &&& attr_ok::<Integer>(p, "h"@)
    }

    open spec fn exact(p: MapParser) -> bool {
        true
    }

    open spec fn written_attrs(&self) -> Seq<AttrV> {
        attr_written("x"@, self.x)
            + attr_written("y"@, self.y)
            + attr_written("w"@, self.w)
            + attr_written("h"@, self.h)
    }

    open spec fn written_children(&self) -> nat {
        (0) as nat
    }

    fn from_raw(parser: MapParser) -> (r: Result<Self, MapElementParsingError>) {
        proof {
            let ghost ok = Self::fields_ok(parser);
            let ghost ex = Self::exact(parser);
        }
        proof {
            parser.lemma_searchable();
        }
        Ok(
            Rect {
                x: parser.get_attribute("x")?,
                y: parser.get_attribute("y")?,
                w: parser.get_attribute("w")?,
                h: parser.get_attribute("h")?,
            },
        )
    }

    fn to_raw(&self, encoder: &mut MapEncoder) {
        encoder.attribute("x", self.x.to_encoded());
        encoder.attribute("y", self.y.to_encoded());
        encoder.attribute("w", self.w.to_encoded());
        encoder.attribute("h", self.h.to_encoded());
    }
}

/// The value of an optional attribute: `x` is `Some` of what the attribute
/// holds, encoded as `enc` says, or `None` where the element lacks it.
pub open spec fn opt_value_is<T>(a: Option<VarValue>, x: Option<T>, enc: spec_fn(T) -> VarValue) -> bool {
    match a {
        Some(v) => x matches Some(y) && v == enc(y),
        None => x is None,
    }
}

/// A trigger read from an element takes its id, position, size and origin
/// from the element's attributes of those names: `x` is the value of the
/// "x" attribute and `y` that of the "y" attribute.
pub proof fn lemma_trigger_fields_from_attributes<T: Trigger>(p: MapParser, t: MapTrigger<T>)
    requires
        MapTrigger::<T>::fields_read(p, t),
    ensures
        attr_of(p, "id"@) == Some(var_of_integer(t.id)),
        attr_of(p, "x"@) == Some(var_of_float(t.x)),
        attr_of(p, "y"@) == Some(var_of_float(t.y)),
        opt_value_is(attr_of(p, "width"@), t.width, |n: Integer| var_of_integer(n)),
        opt_value_is(attr_of(p, "height"@), t.height, |n: Integer| var_of_integer(n)),
        opt_value_is(attr_of(p, "originX"@), t.origin_x, |f: Float| var_of_float(f)),
        opt_value_is(attr_of(p, "originY"@), t.origin_y, |f: Float| var_of_float(f)),
{
}

/// An entity read from an element takes its id, position, size and origin
/// from the element's attributes of those names: `x` is the value of the
/// "x" attribute and `y` that of the "y" attribute.
pub proof fn lemma_entity_fields_from_attributes<T: Entity>(p: MapParser, e: MapEntity<T>)
    requires
        MapEntity::<T>::fields_read(p, e),
    ensures
        attr_of(p, "id"@) == Some(var_of_integer(e.id)),
        attr_of(p, "x"@) == Some(var_of_float(e.x)),
        attr_of(p, "y"@) == Some(var_of_float(e.y)),
        opt_value_is(attr_of(p, "width"@), e.width, |n: Integer| var_of_integer(n)),
        opt_value_is(attr_of(p, "height"@), e.height, |n: Integer| var_of_integer(n)),
        attr_of(p, "originX"@) == Some(var_of_float(e.origin_x)),
        attr_of(p, "originY"@) == Some(var_of_float(e.origin_y)),
{
}

/// A trigger read back from the attributes another trigger writes has that
/// trigger's id and position.
pub proof fn lemma_trigger_position_reads_back<T: Trigger>(p: MapParser, w: MapTrigger<T>, t: MapTrigger<T>)
    requires
        attrs_view(p.raw.attributes@) == w.written_attrs(),
        MapTrigger::<T>::fields_read(p, t),
    ensures
        t.id == w.id,
        t.x == w.x,
        t.y == w.y,
{
    let attrs = w.written_attrs();
    let table = p.lookup.strings();
    reveal_strlit("id");
    reveal_strlit("x");
    reveal_strlit("y");
    assert(attrs[0] == AttrV { name: NameV::Text("id"@), value: var_of_integer(w.id) });
    assert(attrs[1] == AttrV { name: NameV::Text("x"@), value: var_of_float(w.x) });
    assert(attrs[2] == AttrV { name: NameV::Text("y"@), value: var_of_float(w.y) });
    assert(attrs.drop_first()[0] == attrs[1]);
    assert(attrs.drop_first()[1] == attrs[2]);
    assert(attrs.drop_first().drop_first()[0] == attrs[2]);
    assert("id"@.len() != "x"@.len());
    assert("id"@.len() != "y"@.len());
    assert("x"@[0] != "y"@[0]);
    reveal_with_fuel(attr_named, 4);
    assert(attr_named(attrs, table, "id"@) == Some(var_of_integer(w.id)));
    assert(attr_named(attrs, table, "x"@) == Some(var_of_float(w.x)));
    assert(attr_named(attrs, table, "y"@) == Some(var_of_float(w.y)));
    lemma_trigger_fields_from_attributes(p, t);
    lemma_integer_var_injective(t.id, w.id);
    lemma_float_var_injective(t.x, w.x);
    lemma_float_var_injective(t.y, w.y);
}

/// A entity read back from the attributes another entity writes has that
/// entity's id and position.
pub proof fn lemma_entity_position_reads_back<T: Entity>(p: MapParser, w: MapEntity<T>, t: MapEntity<T>)
    requires
        attrs_view(p.raw.attributes@) == w.written_attrs(),
        MapEntity::<T>::fields_read(p, t),
    ensures
        t.id == w.id,
        t.x == w.x,
        t.y == w.y,
{
    let attrs = w.written_attrs();
    let table = p.lookup.strings();
    reveal_strlit("id");
    reveal_strlit("x");
    reveal_strlit("y");
    assert(attrs[0] == AttrV { name: NameV::Text("id"@), value: var_of_integer(w.id) });
    assert(attrs[1] == AttrV { name: NameV::Text("x"@), value: var_of_float(w.x) });
    assert(attrs[2] == AttrV { name: NameV::Text("y"@), value: var_of_float(w.y) });
    assert(attrs.drop_first()[0] == attrs[1]);
    assert(attrs.drop_first()[1] == attrs[2]);
    assert(attrs.drop_first().drop_first()[0] == attrs[2]);
    assert("id"@.len() != "x"@.len());
    assert("id"@.len() != "y"@.len());
    assert("x"@[0] != "y"@[0]);
    reveal_with_fuel(attr_named, 4);
    assert(attr_named(attrs, table, "id"@) == Some(var_of_integer(w.id)));
    assert(attr_named(attrs, table, "x"@) == Some(var_of_float(w.x)));
    assert(attr_named(attrs, table, "y"@) == Some(var_of_float(w.y)));
    lemma_entity_fields_from_attributes(p, t);
    lemma_integer_var_injective(t.id, w.id);
    lemma_float_var_injective(t.x, w.x);
    lemma_float_var_injective(t.y, w.y);
}

/// Two integers stored as the same value are the same.
pub proof fn lemma_integer_var_injective(a: Integer, b: Integer)
    requires
        var_of_integer(a) == var_of_integer(b),
    ensures
        a == b,
{
}

/// Two floats stored as the same value are the same.
pub proof fn lemma_float_var_injective(a: Float, b: Float)
    requires
        var_of_float(a) == var_of_float(b),
    ensures
        a == b,
{
}

} // verus!
