//! Writing map data as bytes.
use vstd::prelude::*;

use crate::maps::format::{
    attr_bytes,
    attrs_bytes,
    element_bytes,
    element_writable,
    elements_bytes,
    lemma_attrs_bytes_push,
    lemma_elements_bytes_push,
    lemma_strings_bytes_push,
    string_bytes,
    strings_bytes,
    table_bytes,
    var_bytes,
    var_writable,
};
use crate::maps::lookup::{LookupIndex, LookupTable, ResolvableString};
use crate::maps::var_types::EncodedVar;
use crate::maps::{
    attrs_view,
    element_view,
    elements_view,
    lemma_elements_view,
    AttrV,
    ElementV,
    MapAttribute,
    RawMapElement,
};
use crate::utils::binary::{i16_bytes, le_bytes, BinWriter};
use crate::utils::text::all_ascii;

verus! {

#[derive(Debug)]
pub enum MapWriteError {
    ResolvedString(String),
    IoError(std::io::Error),
}

/// Whether a write result is what writing something gives: success when no
/// resolved name was met, otherwise the error carrying that name.
pub open spec fn write_outcome(res: Result<(), MapWriteError>, stop: Option<Seq<char>>) -> bool {
    match stop {
        None => res is Ok,
        Some(t) => res matches Err(MapWriteError::ResolvedString(s)) && s@ == t,
    }
}

/// Helper to write map data as bytes.
pub struct MapWriter {
    pub(crate) writer: BinWriter,
}

impl View for MapWriter {
    type V = Seq<u8>;

    /// The bytes written so far.
    closed spec fn view(&self) -> Seq<u8> {
        self.writer@
    }
}

impl MapWriter {
    pub fn new() -> (w: Self)
        ensures
            w@ == Seq::<u8>::empty(),
    {
        MapWriter { writer: BinWriter::new() }
    }

    /// The bytes written.
    pub fn finish(self) -> (bytes: Vec<u8>)
        ensures
            bytes@ == self@,
    {
        self.writer.finish()
    }

    /// Writes a varint-prefixed string.
    pub fn write_string(&mut self, s: &str)
        requires
            all_ascii(s@),
        ensures
            final(self)@ == old(self)@ + string_bytes(s@),
    {
        self.writer.write_string(s);
        proof {
            assert(old(self)@ + crate::utils::binary::varint_bytes(s@.len() as u32)
                + crate::utils::binary::chars_as_bytes(s@) =~= old(self)@ + string_bytes(s@));
        }
    }

    pub fn write_encoded_var(&mut self, var: &EncodedVar) -> (res: Result<(), MapWriteError>)
        requires
            var_writable(var@),
        ensures
            res is Ok,
            final(self)@ == old(self)@ + var_bytes(var@),
    {
        match var {
            EncodedVar::Bool(b) => {
                self.writer.write_u8(0);
                self.writer.write_bool(*b);
                assert(self@ =~= old(self)@ + var_bytes(var@));
            },
            EncodedVar::Byte(b) => {
                self.writer.write_u8(1);
                self.writer.write_u8(*b);
                assert(self@ =~= old(self)@ + var_bytes(var@));
            },
            EncodedVar::Short(s) => {
                self.writer.write_u8(2);
                self.writer.write_i16(*s);
                assert(self@ =~= old(self)@ + var_bytes(var@));
            },
            EncodedVar::Int(i) => {
                self.writer.write_u8(3);
                self.writer.write_i32(*i);
                assert(self@ =~= old(self)@ + var_bytes(var@));
            },
            EncodedVar::Float(f) => {
                self.writer.write_u8(4);
                self.writer.write_u32(*f);
                assert(self@ =~= old(self)@ + var_bytes(var@));
            },
            EncodedVar::LookupIndex(i) => {
                self.writer.write_u8(5);
                self.writer.write_u16(i.0);
                assert(self@ =~= old(self)@ + var_bytes(var@));
            },
            EncodedVar::String(s) => {
                self.writer.write_u8(6);
                self.writer.write_string(s.as_str());
                assert(self@ =~= old(self)@ + var_bytes(var@));
            },
            EncodedVar::LengthEncodedString(s) => {
                self.writer.write_u8(7);
                self.writer.write_length_encoded_string(s.as_str());
                assert(self@ =~= old(self)@ + var_bytes(var@));
            },
        }
        Ok(())
    }

    pub fn write_lookup_table(&mut self, table: &LookupTable) -> (res: Result<(), MapWriteError>)
        requires
            forall|i: int| 0 <= i < table.strings().len() ==> all_ascii(#[trigger] table.strings()[i]),
        ensures
            res is Ok,
            final(self)@ == old(self)@ + table_bytes(table.strings()),
    {
        let n = table.len();
        self.writer.write_i16(#[verifier::truncate] (n as i16));
        let ghost start = self@;
        proof {
            assert(table.strings().take(0) =~= Seq::<Seq<char>>::empty());
            assert(start + strings_bytes(Seq::<Seq<char>>::empty()) =~= start);
        }
        for i in 0..n
            invariant
                n == table.strings().len(),
                forall|j: int| 0 <= j < table.strings().len() ==> all_ascii(#[trigger] table.strings()[j]),
                self@ == start + strings_bytes(table.strings().take(i as int)),
        {
            let s = table.nth(i);
            self.write_string(s.as_str());
            proof {
                assert(table.strings().take(i + 1) =~= table.strings().take(i as int).push(s@));
                lemma_strings_bytes_push(table.strings().take(i as int), s@);
                assert(self@ =~= start + strings_bytes(table.strings().take(i + 1)));
            }
        }
        proof {
            assert(table.strings().take(n as int) =~= table.strings());
            assert(self@ =~= old(self)@ + table_bytes(table.strings()));
        }
        Ok(())
    }

    pub fn write_lookup_index(&mut self, idx: LookupIndex) -> (res: Result<(), MapWriteError>)
        ensures
            res is Ok,
            final(self)@ == old(self)@ + le_bytes(idx.0 as nat, 2),
    {
        self.writer.write_u16(idx.0);
        Ok(())
    }

    pub fn write_attribute(&mut self, attr: &MapAttribute) -> (res: Result<(), MapWriteError>)
        requires
            var_writable(attr.value@),
        ensures
            final(self)@ == old(self)@ + attr_bytes(attr@).0,
            write_outcome(res, attr_bytes(attr@).1),
    {
        match &attr.name {
            ResolvableString::LookupIndex(idx) => {
                self.write_lookup_index(*idx)?;
            },
            ResolvableString::String(s) => {
                assert(old(self)@ + Seq::<u8>::empty() =~= old(self)@);
                return Err(MapWriteError::ResolvedString(s.clone()));
            },
        }
        let res = self.write_encoded_var(&attr.value);
        assert(self@ =~= old(self)@ + attr_bytes(attr@).0);
        res
    }

    pub fn write_element(&mut self, element: &RawMapElement) -> (res: Result<(), MapWriteError>)
        requires
            element_writable(element_view(*element)),
        ensures
            final(self)@ == old(self)@ + element_bytes(element_view(*element)).0,
            write_outcome(res, element_bytes(element_view(*element)).1),
        decreases element,
    {
        let ghost ev = element_view(*element);
        let ghost attrs = attrs_view(element.attributes@);
        match &element.name {
            ResolvableString::LookupIndex(idx) => {
                self.write_lookup_index(*idx)?;
            },
            ResolvableString::String(s) => {
                assert(old(self)@ + Seq::<u8>::empty() =~= old(self)@);
                return Err(MapWriteError::ResolvedString(s.clone()));
            },
        }
        let na = element.attributes.len();
        self.writer.write_u8(#[verifier::truncate] (na as u8));
        let ghost head = self@;
        let ghost lead = le_bytes(element.name@->Index_0 as nat, 2) + seq![ev.attributes.len() as u8];
        proof {
            assert(head =~= old(self)@ + lead);
            assert(attrs.take(0) =~= Seq::<AttrV>::empty());
            assert(head + Seq::<u8>::empty() =~= head);
        }
        for i in 0..na
            invariant
                na == element.attributes@.len(),
                attrs == attrs_view(element.attributes@),
                ev == element_view(*element),
                element_writable(ev),
                ev.name is Index,
                ev.attributes == attrs,
                lead == le_bytes(ev.name->Index_0 as nat, 2) + seq![ev.attributes.len() as u8],
                head == old(self)@ + lead,
                attrs_bytes(attrs.take(i as int)).1 is None,
                self@ == head + attrs_bytes(attrs.take(i as int)).0,
        {
            let attr = &element.attributes[i];
            proof {
                assert(attrs[i as int] == attr@);
                assert(ev.attributes[i as int] == attr@);
                lemma_attrs_bytes_push(attrs.take(i as int), attr@);
                assert(attrs.take(i + 1) =~= attrs.take(i as int).push(attr@));
            }
            let r = self.write_attribute(attr);
            proof {
                assert(self@ =~= head + attrs_bytes(attrs.take(i + 1)).0);
            }
            if r.is_err() {
                proof {
                    assert(attrs.take(i + 1).len() <= attrs.len());
                    lemma_attrs_stop(attrs, (i + 1) as int);
                    assert(self@ =~= old(self)@ + element_bytes(ev).0);
                }
                return r;
            }
        }
        proof {
            assert(attrs.take(na as int) =~= attrs);
        }
        let nc = element.children.len();
        self.writer.write_i16(#[verifier::truncate] (nc as i16));
        let ghost mid = self@;
        let ghost kids = elements_view(element.children@);
        proof {
            lemma_elements_view(element.children@);
            assert(kids.take(0) =~= Seq::<ElementV>::empty());
            assert(mid + Seq::<u8>::empty() =~= mid);
            assert(mid =~= old(self)@ + lead + attrs_bytes(attrs).0 + i16_bytes(ev.children.len() as i16));
        }
        for i in 0..nc
            invariant
                nc == element.children@.len(),
                kids == elements_view(element.children@),
                kids.len() == nc,
                forall|j: int| 0 <= j < nc ==> #[trigger] kids[j] == element_view(element.children@[j]),
                ev == element_view(*element),
                element_writable(ev),
                ev.name is Index,
                ev.attributes == attrs,
                ev.children == kids,
                attrs_bytes(attrs).1 is None,
                lead == le_bytes(ev.name->Index_0 as nat, 2) + seq![ev.attributes.len() as u8],
                mid == old(self)@ + lead + attrs_bytes(attrs).0 + i16_bytes(ev.children.len() as i16),
                elements_bytes(kids.take(i as int)).1 is None,
                self@ == mid + elements_bytes(kids.take(i as int)).0,
        {
            let child = &element.children[i];
            proof {
                assert(kids[i as int] == element_view(*child));
                assert(ev.children[i as int] == kids[i as int]);
                lemma_elements_bytes_push(kids.take(i as int), kids[i as int]);
                assert(kids.take(i + 1) =~= kids.take(i as int).push(kids[i as int]));
            }
            let r = self.write_element(child);
            proof {
                assert(self@ =~= mid + elements_bytes(kids.take(i + 1)).0);
            }
            if r.is_err() {
                proof {
                    lemma_elements_stop(kids, (i + 1) as int);
                    assert(self@ =~= old(self)@ + element_bytes(ev).0);
                }
                return r;
            }
        }
        proof {
            assert(kids.take(nc as int) =~= kids);
            assert(self@ =~= old(self)@ + element_bytes(ev).0);
        }
        Ok(())
    }
}

/// Once writing stops at a resolved name, later attributes add nothing.
proof fn lemma_attrs_stop(s: Seq<AttrV>, i: int)
    requires
        0 <= i <= s.len(),
        attrs_bytes(s.take(i)).1 is Some,
    ensures
        attrs_bytes(s) == attrs_bytes(s.take(i)),
    decreases s.len() - i,
{
    if i < s.len() {
        lemma_attrs_bytes_push(s.take(i), s[i]);
        assert(s.take(i + 1) =~= s.take(i).push(s[i]));
        lemma_attrs_stop(s, i + 1);
    } else {
        assert(s.take(i) =~= s);
    }
}

/// Once writing stops at a resolved name, later elements add nothing.
proof fn lemma_elements_stop(s: Seq<ElementV>, i: int)
    requires
        0 <= i <= s.len(),
        elements_bytes(s.take(i)).1 is Some,
    ensures
        elements_bytes(s) == elements_bytes(s.take(i)),
    decreases s.len() - i,
{
    if i < s.len() {
        lemma_elements_bytes_push(s.take(i), s[i]);
        assert(s.take(i + 1) =~= s.take(i).push(s[i]));
        lemma_elements_stop(s, i + 1);
    } else {
        assert(s.take(i) =~= s);
    }
}

} // verus!
