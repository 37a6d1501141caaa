//! Reading map data from bytes.
use vstd::prelude::*;

use crate::maps::format::{
    attr_read,
    attrs_read,
    children_read,
    drop,
    element_read,
    fixed_read,
    strings_read,
    table_read,
    var_read,
    ReadFailure,
};
use crate::maps::lookup::{string_views, LookupIndex, LookupTable, ResolvableString};
use crate::maps::var_types::{EncodedVar, VarValue};
use crate::maps::{attrs_view, element_view, elements_view, AttrV, ElementV, MapAttribute, RawMapElement};
use crate::utils::binary::{
    lemma_le_value_bound,
    le_value,
    pow256,
    string_read,
    BinReadError,
    BinReader,
};

verus! {

/// `std::io::Error`, carried by errors that come from reading or writing files.
#[verifier::external_type_specification]
#[verifier::external_body]
pub struct ExIoError(std::io::Error);

#[derive(Debug)]
pub enum MapReadError {
    InvalidEncodedVarType(u8),
    InvalidHeader(String),
    IOError(std::io::Error),
    BinError(BinReadError),
}

impl MapReadError {
    /// Why the read failed.
    pub open spec fn failure(self) -> ReadFailure {
        match self {
            MapReadError::InvalidEncodedVarType(k) => ReadFailure::InvalidEncodedVarType(k),
            MapReadError::InvalidHeader(h) => ReadFailure::InvalidHeader(h@),
            MapReadError::IOError(_) => ReadFailure::Io,
            MapReadError::BinError(e) => ReadFailure::Bin(e),
        }
    }
}

/// Whether an exec result matches a spec result whose values are related by `rel`.
pub open spec fn agrees<T, V>(got: Result<T, MapReadError>, want: Result<V, ReadFailure>, rel: spec_fn(T, V) -> bool) -> bool {
    match want {
        Ok(v) => got matches Ok(t) && rel(t, v),
        Err(f) => got matches Err(e) && e.failure() == f,
    }
}

/// A sequence result with `prefix` put in front, and `extra` more bytes consumed.
pub open spec fn after_prefix<A>(prefix: Seq<A>, res: (Result<Seq<A>, ReadFailure>, nat), extra: nat) -> (
    Result<Seq<A>, ReadFailure>,
    nat,
) {
    match res.0 {
        Ok(t) => (Ok(prefix + t), extra + res.1),
        Err(e) => (Err(e), extra + res.1),
    }
}

proof fn lemma_rest_after(data: Seq<u8>, pos: nat, n: nat)
    requires
        pos + n <= data.len(),
    ensures
        drop(data.subrange(pos as int, data.len() as int), n) == data.subrange(
            (pos + n) as int,
            data.len() as int,
        ),
{
    assert(drop(data.subrange(pos as int, data.len() as int), n) =~= data.subrange(
        (pos + n) as int,
        data.len() as int,
    ));
}

/// Helper to read data from map files
pub struct MapReader<'a> {
    reader: BinReader<'a>,
}

impl<'a> MapReader<'a> {
    /// The bytes being read.
    pub closed spec fn data(self) -> Seq<u8> {
        self.reader.data()
    }

    /// The position of the next byte to read.
    pub closed spec fn pos(self) -> nat {
        self.reader.pos()
    }

    /// The bytes not read yet.
    pub open spec fn rest(self) -> Seq<u8> {
        self.data().subrange(self.pos() as int, self.data().len() as int)
    }

    /// Whether `after` is `before` moved on by `n` bytes.
    pub open spec fn moved(before: Self, after: Self, n: nat) -> bool {
        &&& after.data() == before.data()
        &&& after.pos() == before.pos() + n
        &&& after.pos() <= after.data().len()
    }

    pub fn new(bytes: &'a [u8]) -> (r: Self)
        requires
            bytes@.len() > 0,
        ensures
            r.data() == bytes@,
            r.pos() == 0,
    {
        MapReader { reader: BinReader::new(bytes) }
    }

    /// Reads a varint-prefixed string.
    pub fn read_string(&mut self) -> (res: Result<String, MapReadError>)
        ensures
            Self::moved(*old(self), *final(self), string_read(old(self).rest()).1),
            agrees(
                res,
                match string_read(old(self).rest()).0 {
                    Ok(s) => Ok(s),
                    Err(e) => Err(ReadFailure::Bin(e)),
                },
                |t: String, v: Seq<char>| t@ == v,
            ),
    {
        proof {
            self.reader.lemma_pos_bound();
        }
        match self.reader.read_string() {
            Ok(s) => Ok(s),
            Err(e) => Err(MapReadError::BinError(e)),
        }
    }

    pub fn read_encoded_var(&mut self) -> (res: Result<EncodedVar, MapReadError>)
        ensures
            Self::moved(*old(self), *final(self), var_read(old(self).rest()).1),
            agrees(res, var_read(old(self).rest()).0, |t: EncodedVar, v: VarValue| t@ == v),
    {
        proof {
            self.reader.lemma_pos_bound();
        }
        let ghost r = self.rest();
        let ghost p0 = self.pos();
        let kind = match self.reader.read_u8() {
            Ok(b) => b,
            Err(e) => {
                return Err(MapReadError::BinError(e));
            },
        };
        let ghost t = r.subrange(1, r.len() as int);
        proof {
            lemma_rest_after(self.data(), p0, 1);
            assert(self.rest() == t);
            lemma_fixed_bridge(self.data(), self.pos(), 1);
            lemma_fixed_bridge(self.data(), self.pos(), 2);
            lemma_fixed_bridge(self.data(), self.pos(), 4);
        }
        if kind == 0 {
            match self.reader.read_bool() {
                Ok(b) => Ok(EncodedVar::Bool(b)),
                Err(e) => Err(MapReadError::BinError(e)),
            }
        } else if kind == 1 {
            match self.reader.read_u8() {
                Ok(b) => {
                    proof {
                        reveal_with_fuel(le_value, 2);
                        assert(t.subrange(0, 1).drop_first() =~= Seq::<u8>::empty());
                    }
                    Ok(EncodedVar::Byte(b))
                },
                Err(e) => Err(MapReadError::BinError(e)),
            }
        } else if kind == 2 {
            match self.reader.read_i16() {
                Ok(v) => {
                    proof {
                        assert((v as u16) as i16 == v) by (bit_vector);
                    }
                    Ok(EncodedVar::Short(v))
                },
                Err(e) => Err(MapReadError::BinError(e)),
            }
        } else if kind == 3 {
            match self.reader.read_i32() {
                Ok(v) => {
                    proof {
                        assert((v as u32) as i32 == v) by (bit_vector);
                    }
                    Ok(EncodedVar::Int(v))
                },
                Err(e) => Err(MapReadError::BinError(e)),
            }
        } else if kind == 4 {
            match self.reader.read_u32() {
                Ok(v) => Ok(EncodedVar::Float(v)),
                Err(e) => Err(MapReadError::BinError(e)),
            }
        } else if kind == 5 {
            match self.reader.read_u16() {
                Ok(v) => Ok(EncodedVar::LookupIndex(LookupIndex(v))),
                Err(e) => Err(MapReadError::BinError(e)),
            }
        } else if kind == 6 {
            match self.reader.read_string() {
                Ok(s) => Ok(EncodedVar::String(s)),
                Err(e) => Err(MapReadError::BinError(e)),
            }
        } else if kind == 7 {
            match self.reader.read_length_encoded_string() {
                Ok(s) => Ok(EncodedVar::LengthEncodedString(s)),
                Err(e) => Err(MapReadError::BinError(e)),
            }
        } else {
            Err(MapReadError::InvalidEncodedVarType(kind))
        }
    }

    pub fn read_lookup_index(&mut self) -> (res: Result<LookupIndex, MapReadError>)
        ensures
            Self::moved(*old(self), *final(self), fixed_read(old(self).rest(), 2).1),
            agrees(
                res,
                match fixed_read(old(self).rest(), 2).0 {
                    Ok(v) => Ok(v),
                    Err(e) => Err(ReadFailure::Bin(e)),
                },
                |t: LookupIndex, v: nat| t.0 as nat == v,
            ),
    {
        proof {
            self.reader.lemma_pos_bound();
        }
        proof {
            lemma_fixed_bridge(self.data(), self.pos(), 2);
        }
        match self.reader.read_u16() {
            Ok(v) => Ok(LookupIndex(v)),
            Err(e) => Err(MapReadError::BinError(e)),
        }
    }

    pub fn read_attribute(&mut self) -> (res: Result<MapAttribute, MapReadError>)
        ensures
            Self::moved(*old(self), *final(self), attr_read(old(self).rest()).1),
            agrees(res, attr_read(old(self).rest()).0, |t: MapAttribute, v: AttrV| t@ == v),
    {
        proof {
            self.reader.lemma_pos_bound();
        }
        let ghost r = self.rest();
        let ghost p0 = self.pos();
        let index = self.read_lookup_index()?;
        proof {
            lemma_rest_after(self.data(), p0, 2);
            reveal_with_fuel(pow256, 3);
            lemma_le_value_bound(r.subrange(0, 2));
        }
        let name = ResolvableString::LookupIndex(index);
        let value = self.read_encoded_var()?;
        Ok(MapAttribute { name, value })
    }

    /// Reads `count` attributes one after another.
    fn read_attributes(&mut self, count: u8) -> (res: Result<Vec<MapAttribute>, MapReadError>)
        ensures
            Self::moved(*old(self), *final(self), attrs_read(old(self).rest(), count as nat).1),
            agrees(
                res,
                attrs_read(old(self).rest(), count as nat).0,
                |t: Vec<MapAttribute>, v: Seq<AttrV>| attrs_view(t@) == v,
            ),
    {
        proof {
            self.reader.lemma_pos_bound();
            assert(attrs_view(Seq::<MapAttribute>::empty()) + attrs_read(self.rest(), count as nat).0->Ok_0
                =~= attrs_read(self.rest(), count as nat).0->Ok_0);
        }
        let ghost p0 = self.pos();
        let ghost r = self.rest();
        let mut attributes: Vec<MapAttribute> = Vec::new();
        let mut k: u8 = 0;
        while k < count
            invariant
                self.data() == old(self).data(),
                r == old(self).rest(),
                p0 == old(self).pos(),
                p0 <= self.pos() <= self.data().len(),
                k <= count,
                attrs_read(r, count as nat) == after_prefix(
                    attrs_view(attributes@),
                    attrs_read(self.rest(), (count - k) as nat),
                    (self.pos() - p0) as nat,
                ),
            decreases count - k,
        {
            let ghost before = *self;
            let a = self.read_attribute()?;
            proof {
                let n = attr_read(before.rest()).1;
                lemma_rest_after(self.data(), before.pos(), n);
                assert(attrs_view(attributes@.push(a)) =~= attrs_view(attributes@).push(a@));
                let tail = attrs_read(self.rest(), (count - k - 1) as nat);
                assert(attrs_view(attributes@).push(a@) + tail.0->Ok_0 =~= attrs_view(attributes@)
                    + (seq![a@] + tail.0->Ok_0));
            }
            attributes.push(a);
            k = k + 1;
        }
        proof {
            assert(attrs_view(attributes@) + Seq::<AttrV>::empty() =~= attrs_view(attributes@));
        }
        Ok(attributes)
    }

    /// Reads `count` elements one after another.
    fn read_children(&mut self, count: u16) -> (res: Result<Vec<RawMapElement>, MapReadError>)
        ensures
            Self::moved(*old(self), *final(self), children_read(old(self).rest(), count as nat).1),
            agrees(
                res,
                children_read(old(self).rest(), count as nat).0,
                |t: Vec<RawMapElement>, v: Seq<ElementV>| elements_view(t@) == v,
            ),
        decreases old(self).rest().len(), 1int,
    {
        proof {
            self.reader.lemma_pos_bound();
            assert(elements_view(Seq::<RawMapElement>::empty()) + children_read(
                self.rest(),
                count as nat,
            ).0->Ok_0 =~= children_read(self.rest(), count as nat).0->Ok_0);
        }
        let ghost p0 = self.pos();
        let ghost r = self.rest();
        let mut children: Vec<RawMapElement> = Vec::new();
        let mut j: u16 = 0;
        while j < count
            invariant
                self.data() == old(self).data(),
                r == old(self).rest(),
                r == old(self).data().subrange(p0 as int, old(self).data().len() as int),
                p0 == old(self).pos(),
                p0 <= self.pos() <= self.data().len(),
                j <= count,
                children_read(r, count as nat) == after_prefix(
                    elements_view(children@),
                    children_read(self.rest(), (count - j) as nat),
                    (self.pos() - p0) as nat,
                ),
            decreases count - j,
        {
            let ghost before = *self;
            proof {
                assert(self.rest().len() <= r.len());
            }
            let c = self.read_element()?;
            proof {
                let n = element_read(before.rest()).1;
                lemma_rest_after(self.data(), before.pos(), n);
                assert(children@.push(c).drop_last() =~= children@);
                let tail = children_read(self.rest(), (count - j - 1) as nat);
                assert(elements_view(children@).push(element_view(c)) + tail.0->Ok_0
                    =~= elements_view(children@) + (seq![element_view(c)] + tail.0->Ok_0));
            }
            children.push(c);
            j = j + 1;
        }
        proof {
            assert(elements_view(children@) + Seq::<ElementV>::empty() =~= elements_view(children@));
        }
        Ok(children)
    }

    pub fn read_element(&mut self) -> (res: Result<RawMapElement, MapReadError>)
        ensures
            Self::moved(*old(self), *final(self), element_read(old(self).rest()).1),
            agrees(
                res,
                element_read(old(self).rest()).0,
                |t: RawMapElement, v: ElementV| element_view(t) == v,
            ),
        decreases old(self).rest().len(), 0int,
    {
        proof {
            self.reader.lemma_pos_bound();
        }
        let ghost r = self.rest();
        let ghost p0 = self.pos();
        proof {
            lemma_fixed_bridge(self.data(), p0, 2);
        }
        let index = self.read_lookup_index()?;
        proof {
            lemma_rest_after(self.data(), p0, 2);
            reveal_with_fuel(pow256, 3);
            lemma_le_value_bound(r.subrange(0, 2));
        }
        let attr_count = match self.reader.read_u8() {
            Ok(b) => b,
            Err(e) => {
                return Err(MapReadError::BinError(e));
            },
        };
        proof {
            lemma_rest_after(self.data(), p0, 3);
            assert(attr_count == r[2]);
            assert(drop(r, 3) == self.rest());
        }
        let attributes = self.read_attributes(attr_count)?;
        let ghost an = (self.pos() - (p0 + 3)) as nat;
        proof {
            lemma_rest_after(self.data(), p0, 3 + an);
            lemma_fixed_bridge(self.data(), self.pos(), 2);
        }
        let child_count = match self.reader.read_u16() {
            Ok(v) => v,
            Err(e) => {
                return Err(MapReadError::BinError(e));
            },
        };
        proof {
            lemma_rest_after(self.data(), p0, 5 + an);
            reveal_with_fuel(pow256, 3);
            assert(drop(r, 5 + an) == self.rest());
        }
        let children = self.read_children(child_count)?;
        Ok(RawMapElement { name: ResolvableString::LookupIndex(index), attributes, children })
    }

    /// Reads `count` strings one after another.
    fn read_strings(&mut self, count: u16) -> (res: Result<Vec<String>, MapReadError>)
        ensures
            Self::moved(*old(self), *final(self), strings_read(old(self).rest(), count as nat).1),
            agrees(
                res,
                strings_read(old(self).rest(), count as nat).0,
                |t: Vec<String>, v: Seq<Seq<char>>| string_views(t@) == v,
            ),
    {
        proof {
            self.reader.lemma_pos_bound();
            assert(string_views(Seq::<String>::empty()) + strings_read(self.rest(), count as nat).0->Ok_0
                =~= strings_read(self.rest(), count as nat).0->Ok_0);
        }
        let ghost p0 = self.pos();
        let ghost r = self.rest();
        let mut buf: Vec<String> = Vec::new();
        let mut k: u16 = 0;
        while k < count
            invariant
                self.data() == old(self).data(),
                r == old(self).rest(),
                p0 == old(self).pos(),
                p0 <= self.pos() <= self.data().len(),
                k <= count,
                strings_read(r, count as nat) == after_prefix(
                    string_views(buf@),
                    strings_read(self.rest(), (count - k) as nat),
                    (self.pos() - p0) as nat,
                ),
            decreases count - k,
        {
            let ghost before = *self;
            let s = self.read_string()?;
            proof {
                let n = string_read(before.rest()).1;
                lemma_rest_after(self.data(), before.pos(), n);
                assert(string_views(buf@.push(s)) =~= string_views(buf@).push(s@));
                let tail = strings_read(self.rest(), (count - k - 1) as nat);
                assert(string_views(buf@).push(s@) + tail.0->Ok_0 =~= string_views(buf@) + (seq![s@]
                    + tail.0->Ok_0));
            }
            buf.push(s);
            k = k + 1;
        }
        proof {
            assert(string_views(buf@) + Seq::<Seq<char>>::empty() =~= string_views(buf@));
        }
        Ok(buf)
    }

    pub fn read_lookup_table(&mut self) -> (res: Result<LookupTable, MapReadError>)
        ensures
            Self::moved(*old(self), *final(self), table_read(old(self).rest()).1),
            agrees(
                res,
                table_read(old(self).rest()).0,
                |t: LookupTable, v: Seq<Seq<char>>| t.strings() == v && t.pending().len() == 0,
            ),
    {
        proof {
            self.reader.lemma_pos_bound();
        }
        let ghost r = self.rest();
        let ghost p0 = self.pos();
        proof {
            lemma_fixed_bridge(self.data(), p0, 2);
        }
        let string_count = match self.reader.read_u16() {
            Ok(v) => v,
            Err(e) => {
                return Err(MapReadError::BinError(e));
            },
        };
        proof {
            lemma_rest_after(self.data(), p0, 2);
            reveal_with_fuel(pow256, 3);
            assert(drop(r, 2) == self.rest());
        }
        let buf = self.read_strings(string_count)?;
        Ok(LookupTable::from_vec(buf))
    }
}

proof fn lemma_fixed_bridge(data: Seq<u8>, pos: nat, k: nat)
    requires
        pos <= data.len(),
    ensures
        fixed_read(data.subrange(pos as int, data.len() as int), k) == (if pos + k <= data.len() {
            (
                Ok::<nat, BinReadError>(le_value(data.subrange(pos as int, (pos + k) as int))),
                k,
            )
        } else {
            (Err::<nat, BinReadError>(BinReadError::EndOfBuffer), (data.len() - pos) as nat)
        }),
{
    let t = data.subrange(pos as int, data.len() as int);
    if pos + k <= data.len() {
        assert(t.subrange(0, k as int) =~= data.subrange(pos as int, (pos + k) as int));
    }
}

} // verus!
