//! Building raw map elements out of typed map elements.
use vstd::prelude::*;

use crate::maps::lookup::{LookupTable, NameV, ResolvableString};
use crate::maps::parser::{attr_written, opt_attr_written, opt_count, MapElement, ToEncodedVar};
use crate::maps::var_types::EncodedVar;
use crate::maps::{attrs_view, element_view, elements_view, lemma_elements_view, AttrV, ElementV, MapAttribute, RawMapElement};

verus! {

/// Builds one raw element: its name, attributes and children, with every
/// name stored in a lookup table.
pub struct MapEncoder<'a> {
    pub lookup: &'a mut LookupTable,
    pub(crate) element_name: ResolvableString,
    pub(crate) children: Vec<RawMapElement>,
    pub(crate) attrs: Vec<MapAttribute>,
}

impl<'a> MapEncoder<'a> {
    /// The element built so far.
    pub closed spec fn built(self) -> ElementV {
        ElementV {
            name: self.element_name@,
            attributes: attrs_view(self.attrs@),
            children: elements_view(self.children@),
        }
    }

    /// The lookup table that names are stored in.
    pub closed spec fn table(self) -> LookupTable {
        *self.lookup
    }

    /// An encoder for an element named `element_name`, with no attributes or children yet.
    pub fn new(lookup: &'a mut LookupTable, element_name: ResolvableString) -> (r: Self)
        ensures
            r.built() == (ElementV { name: element_name@, attributes: Seq::empty(), children: Seq::empty() }),
            r.table() == *old(lookup),
    {
        let r = MapEncoder { lookup, element_name, children: Vec::new(), attrs: Vec::new() };
        assert(attrs_view(r.attrs@) =~= Seq::<AttrV>::empty());
        assert(elements_view(r.children@) =~= Seq::<ElementV>::empty());
        r
    }

    /// Sets the name of the raw element
    ///
    /// This is already done when creating the [MapEncoder] so this
    /// is only needed when the element's name is incorrect
    pub fn name(&mut self, name: &str)
        ensures
            final(self).built() == (ElementV { name: NameV::Text(name@), ..old(self).built() }),
            LookupTable::indexed(old(self).table(), final(self).table(), name@),
    {
        self.element_name = self.lookup.index_string(name);
    }

    /// Pushes a new [MapAttribute] onto the raw element
    pub fn attribute(&mut self, name: &str, value: EncodedVar)
        ensures
            final(self).built() == (ElementV {
                attributes: old(self).built().attributes.push(AttrV { name: NameV::Text(name@), value: value@ }),
                ..old(self).built()
            }),
            LookupTable::indexed(old(self).table(), final(self).table(), name@),
    {
        let n = self.lookup.index_string(name);
        let a = MapAttribute::new(n, value);
        let ghost before = self.attrs@;
        self.attrs.push(a);
        proof {
            assert(attrs_view(self.attrs@) =~= attrs_view(before).push(a@));
        }
    }

    /// Pushes a new [MapAttribute] onto the raw element if the option value is `Some`
    pub fn optional_attribute(&mut self, name: &str, value: &Option<EncodedVar>)
        ensures
            match value {
                Some(v) => final(self).built() == (ElementV {
                    attributes: old(self).built().attributes.push(AttrV { name: NameV::Text(name@), value: v@ }),
                    ..old(self).built()
                }) && LookupTable::indexed(old(self).table(), final(self).table(), name@),
                None => final(self).built() == old(self).built() && final(self).table() == old(self).table(),
            },
    {
        if let Some(t) = value {
            self.attribute(name, t.duplicate())
        }
    }

    /// Pushes a new child element onto the raw element
    pub fn child<T: MapElement>(&mut self, child: &T)
        ensures
            final(self).built().name == old(self).built().name,
            final(self).built().attributes == old(self).built().attributes,
            final(self).built().children.len() == old(self).built().children.len() + 1,
            final(self).built().children.take(old(self).built().children.len() as int) == old(self).built().children,
    {
        let child_name = self.lookup.index_string(T::name());
        let mut fork = self.fork(child_name);
        child.to_raw(&mut fork);
        let c = fork.resolve();
        let ghost before = self.children@;
        self.children.push(c);
        proof {
            assert(self.children@.drop_last() =~= before);
            lemma_elements_view(before);
            assert(elements_view(self.children@) == elements_view(before).push(element_view(c)));
            assert(elements_view(self.children@).take(before.len() as int) =~= elements_view(before));
        }
    }

    /// Pushes the attribute `name` with the value of `x`.
    pub(crate) fn written_attribute<T: ToEncodedVar>(&mut self, name: &str, x: &T)
        ensures
            final(self).built().name == old(self).built().name,
            final(self).built().attributes == old(self).built().attributes + attr_written(name@, *x),
            final(self).built().children == old(self).built().children,
    {
        let ghost before = self.built();
        self.attribute(name, x.to_encoded());
        proof {
            assert(self.built().attributes =~= before.attributes + attr_written(name@, *x));
        }
    }

    /// Pushes the attribute `name` with the value of `x`, where there is one.
    pub(crate) fn written_optional_attribute<T: ToEncodedVar>(&mut self, name: &str, x: &Option<T>)
        ensures
            final(self).built().name == old(self).built().name,
            final(self).built().attributes == old(self).built().attributes + opt_attr_written(name@, *x),
            final(self).built().children == old(self).built().children,
    {
        if let Some(v) = x {
            self.written_attribute(name, v);
        } else {
            proof {
                assert(self.built().attributes =~= self.built().attributes + opt_attr_written(name@, *x));
            }
        }
    }

    /// Pushes the child element, where there is one.
    pub(crate) fn optional_child<T: MapElement>(&mut self, child: &Option<T>)
        ensures
            final(self).built().name == old(self).built().name,
            final(self).built().attributes == old(self).built().attributes,
            final(self).built().children.len() == old(self).built().children.len() + opt_count(*child),
            final(self).built().children.take(old(self).built().children.len() as int) == old(self).built().children,
    {
        if let Some(c) = child {
            self.child(c);
        } else {
            proof {
                assert(self.built().children.take(self.built().children.len() as int) =~= self.built().children);
            }
        }
    }

    /// Stores `name` in the lookup table, for an element of that name.
    pub(crate) fn name_index(&mut self, name: &str) -> (r: ResolvableString)
        ensures
            final(self).built() == old(self).built(),
    {
        self.lookup.index_string(name)
    }

    /// Pushes an element that is already built as a child.
    pub(crate) fn push_child(&mut self, c: RawMapElement)
        ensures
            final(self).built().name == old(self).built().name,
            final(self).built().attributes == old(self).built().attributes,
            final(self).built().children == old(self).built().children.push(element_view(c)),
    {
        let ghost before = self.children@;
        self.children.push(c);
        proof {
            assert(self.children@.drop_last() =~= before);
            lemma_elements_view(before);
            assert(elements_view(self.children@) == elements_view(before).push(element_view(c)));
        }
    }

    /// Pushes all the elements in the list as children on the raw element
    pub fn children<T: MapElement>(&mut self, children: &Vec<T>)
        ensures
            final(self).built().name == old(self).built().name,
            final(self).built().attributes == old(self).built().attributes,
            final(self).built().children.len() == old(self).built().children.len() + children@.len(),
            final(self).built().children.take(old(self).built().children.len() as int) == old(self).built().children,
    {
        let ghost start = self.built();
        for i in 0..children.len()
            invariant
                self.built().name == start.name,
                self.built().attributes == start.attributes,
                self.built().children.len() == start.children.len() + i,
                self.built().children.take(start.children.len() as int) == start.children,
        {
            let ghost mid = self.built();
            self.child(&children[i]);
            proof {
                assert(self.built().children.take(start.children.len() as int) =~= mid.children.take(
                    start.children.len() as int,
                ));
            }
        }
    }

    /// Forks the current encoder to create a new element that shares its lookup table
    pub fn fork<'b>(&'b mut self, name: ResolvableString) -> (r: MapEncoder<'b>)
        ensures
            r.built() == (ElementV { name: name@, attributes: Seq::empty(), children: Seq::empty() }),
            r.table() == old(self).table(),
            final(self).built() == old(self).built(),
    {
        MapEncoder::new(self.lookup, name)
    }

    /// Consumes the [MapEncoder] converting it into a [RawMapElement]
    pub fn resolve(self) -> (r: RawMapElement)
        ensures
            element_view(r) == self.built(),
    {
        RawMapElement { name: self.element_name, attributes: self.attrs, children: self.children }
    }

    /// Loads data from an existing [RawMapElement]
    pub fn from_raw(&mut self, raw: &RawMapElement)
        ensures
            final(self).built() == element_view(*raw),
            final(self).table() == old(self).table(),
    {
        let copy = raw.duplicate();
        self.element_name = copy.name;
        self.attrs = copy.attributes;
        self.children = copy.children;
    }
}

/// Keeping a prefix of a prefix: where `mid` begins `s` and `start` begins
/// `mid`, `start` begins `s`.
pub(crate) proof fn lemma_prefix_chain(s: Seq<ElementV>, mid: Seq<ElementV>, start: Seq<ElementV>)
    requires
        mid.len() <= s.len(),
        s.take(mid.len() as int) == mid,
        start.len() <= mid.len(),
        mid.take(start.len() as int) == start,
    ensures
        s.take(start.len() as int) == start,
{
    assert(s.take(start.len() as int) =~= mid.take(start.len() as int));
}

} // verus!
