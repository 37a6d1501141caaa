//! The binary layout of map elements: what writing produces and what reading
//! accepts, as functions on byte sequences.
use vstd::prelude::*;

use crate::maps::lookup::NameV;
use crate::maps::var_types::VarValue;
use crate::maps::{AttrV, ElementV};
use crate::utils::binary::{
    lemma_le_roundtrip,
    lemma_rle_roundtrip,
    lemma_string_roundtrip,
    pow256,
    BinReadError,
    chars_as_bytes,
    i16_bytes,
    i32_bytes,
    le_bytes,
    le_value,
    rle_encode,
    rle_read,
    string_read,
    varint_bytes,
};
use crate::utils::text::{all_ascii, all_bytes};

verus! {

/// Why reading map data failed.
pub enum ReadFailure {
    InvalidEncodedVarType(u8),
    InvalidHeader(Seq<char>),
    Io,
    Bin(BinReadError),
}

/// What is left of `r` after its first `n` bytes (nothing, when `n` is past the end).
pub open spec fn drop(r: Seq<u8>, n: nat) -> Seq<u8> {
    let k = if n <= r.len() {
        n
    } else {
        r.len()
    };
    r.subrange(k as int, r.len() as int)
}

/// Reading a `k`-byte little-endian number from the front of `r`.
pub open spec fn fixed_read(r: Seq<u8>, k: nat) -> (Result<nat, BinReadError>, nat) {
    if k <= r.len() {
        (Ok(le_value(r.subrange(0, k as int))), k)
    } else {
        (Err(BinReadError::EndOfBuffer), r.len())
    }
}

/// A read of the bytes after a kind tag, counted with the tag.
pub open spec fn tagged<T>(res: (Result<T, BinReadError>, nat), f: spec_fn(T) -> VarValue) -> (
    Result<VarValue, ReadFailure>,
    nat,
) {
    match res.0 {
        Ok(v) => (Ok(f(v)), 1 + res.1),
        Err(e) => (Err(ReadFailure::Bin(e)), 1 + res.1),
    }
}

/// Reading an attribute value (a kind tag and its payload) from the front of `r`.
pub open spec fn var_read(r: Seq<u8>) -> (Result<VarValue, ReadFailure>, nat) {
    if r.len() == 0 {
        (Err(ReadFailure::Bin(BinReadError::EndOfBuffer)), 0)
    } else {
        let kind = r[0];
        let t = r.subrange(1, r.len() as int);
        if kind == 0 {
            if t.len() == 0 {
                (Err(ReadFailure::Bin(BinReadError::EndOfBuffer)), 1)
            } else if t[0] > 1 {
                (Err(ReadFailure::Bin(BinReadError::InvalidBoolPattern(t[0]))), 2)
            } else {
                (Ok(VarValue::Bool(t[0] == 1)), 2)
            }
        } else if kind == 1 {
            tagged(fixed_read(t, 1), |v: nat| VarValue::Byte(v as u8))
        } else if kind == 2 {
            tagged(fixed_read(t, 2), |v: nat| VarValue::Short((v as u16) as i16))
        } else if kind == 3 {
            tagged(fixed_read(t, 4), |v: nat| VarValue::Int((v as u32) as i32))
        } else if kind == 4 {
            tagged(fixed_read(t, 4), |v: nat| VarValue::Float(v as u32))
        } else if kind == 5 {
            tagged(fixed_read(t, 2), |v: nat| VarValue::LookupIndex(v as u16))
        } else if kind == 6 {
            tagged(string_read(t), |s: Seq<char>| VarValue::String(s))
        } else if kind == 7 {
            tagged(rle_read(t), |s: Seq<char>| VarValue::LengthEncodedString(s))
        } else {
            (Err(ReadFailure::InvalidEncodedVarType(kind)), 1)
        }
    }
}

/// Reading an attribute (a lookup index naming it, then its value).
pub open spec fn attr_read(r: Seq<u8>) -> (Result<AttrV, ReadFailure>, nat) {
    let (nr, nn) = fixed_read(r, 2);
    match nr {
        Err(e) => (Err(ReadFailure::Bin(e)), nn),
        Ok(name) => {
            let (vr, vn) = var_read(drop(r, 2));
            match vr {
                Err(e) => (Err(e), 2 + vn),
                Ok(v) => (Ok(AttrV { name: NameV::Index(name as u16), value: v }), 2 + vn),
            }
        },
    }
}

/// Reading `c` attributes one after another.
pub open spec fn attrs_read(r: Seq<u8>, c: nat) -> (Result<Seq<AttrV>, ReadFailure>, nat)
    decreases c,
{
    if c == 0 {
        (Ok(Seq::empty()), 0)
    } else {
        let (ar, an) = attr_read(r);
        match ar {
            Err(e) => (Err(e), an),
            Ok(a) => {
                let (rr, rn) = attrs_read(drop(r, an), (c - 1) as nat);
                match rr {
                    Ok(t) => (Ok(seq![a] + t), an + rn),
                    Err(e) => (Err(e), an + rn),
                }
            },
        }
    }
}

/// Reading an element: a lookup index naming it, a byte counting its
/// attributes, the attributes, a 16-bit count of children, the children.
pub open spec fn element_read(r: Seq<u8>) -> (Result<ElementV, ReadFailure>, nat)
    decreases r.len(), 0int, 0int,
{
    if r.len() < 2 {
        (Err(ReadFailure::Bin(BinReadError::EndOfBuffer)), r.len())
    } else if r.len() < 3 {
        (Err(ReadFailure::Bin(BinReadError::EndOfBuffer)), 2)
    } else {
        let name = le_value(r.subrange(0, 2)) as u16;
        let count = r[2];
        let (ar, an) = attrs_read(drop(r, 3), count as nat);
        match ar {
            Err(e) => (Err(e), 3 + an),
            Ok(attrs) => {
                let (cr, cn) = fixed_read(drop(r, 3 + an), 2);
                match cr {
                    Err(e) => (Err(ReadFailure::Bin(e)), 3 + an + cn),
                    Ok(cc) => {
                        let (kr, kn) = children_read(drop(r, 5 + an), cc);
                        match kr {
                            Err(e) => (Err(e), 5 + an + kn),
                            Ok(kids) => (
                                Ok(ElementV { name: NameV::Index(name), attributes: attrs, children: kids }),
                                5 + an + kn,
                            ),
                        }
                    },
                }
            },
        }
    }
}

/// Reading `c` elements one after another.
pub open spec fn children_read(r: Seq<u8>, c: nat) -> (Result<Seq<ElementV>, ReadFailure>, nat)
    decreases r.len(), 1int, c,
{
    if c == 0 {
        (Ok(Seq::empty()), 0)
    } else {
        let (er, en) = element_read(r);
        match er {
            Err(e) => (Err(e), en),
            Ok(el) => {
                let (rr, rn) = children_read(drop(r, en), (c - 1) as nat);
                match rr {
                    Ok(t) => (Ok(seq![el] + t), en + rn),
                    Err(e) => (Err(e), en + rn),
                }
            },
        }
    }
}

/// Reading `c` strings one after another.
pub open spec fn strings_read(r: Seq<u8>, c: nat) -> (Result<Seq<Seq<char>>, ReadFailure>, nat)
    decreases c,
{
    if c == 0 {
        (Ok(Seq::empty()), 0)
    } else {
        let (sr, sn) = string_read(r);
        match sr {
            Err(e) => (Err(ReadFailure::Bin(e)), sn),
            Ok(s) => {
                let (rr, rn) = strings_read(drop(r, sn), (c - 1) as nat);
                match rr {
                    Ok(t) => (Ok(seq![s] + t), sn + rn),
                    Err(e) => (Err(e), sn + rn),
                }
            },
        }
    }
}

/// Reading a lookup table: a 16-bit count, then that many strings.
pub open spec fn table_read(r: Seq<u8>) -> (Result<Seq<Seq<char>>, ReadFailure>, nat) {
    let (cr, cn) = fixed_read(r, 2);
    match cr {
        Err(e) => (Err(ReadFailure::Bin(e)), cn),
        Ok(c) => {
            let (sr, sn) = strings_read(drop(r, 2), c);
            (sr, 2 + sn)
        },
    }
}

// ---------------------------------------------------------------------------
// Writing
// ---------------------------------------------------------------------------

/// The bytes an attribute value is written as.
pub open spec fn var_bytes(v: VarValue) -> Seq<u8> {
    match v {
        VarValue::Bool(b) => seq![0u8, if b { 1u8 } else { 0u8 }],
        VarValue::Byte(b) => seq![1u8, b],
        VarValue::Short(s) => seq![2u8] + i16_bytes(s),
        VarValue::Int(i) => seq![3u8] + i32_bytes(i),
        VarValue::Float(f) => seq![4u8] + le_bytes(f as nat, 4),
        VarValue::LookupIndex(i) => seq![5u8] + le_bytes(i as nat, 2),
        VarValue::String(s) => seq![6u8] + varint_bytes(s.len() as u32) + chars_as_bytes(s),
        VarValue::LengthEncodedString(s) => seq![7u8] + i16_bytes(rle_encode(s).len() as i16)
            + rle_encode(s),
    }
}

/// A value can be written: plain strings are written one ASCII byte per character.
pub open spec fn var_writable(v: VarValue) -> bool {
    match v {
        VarValue::String(s) => all_ascii(s),
        _ => true,
    }
}

/// A value reads back as written: plain strings are ASCII with a length
/// that fits in 32 bits, run-length strings fit one byte per character and
/// their encoding fits an `i16` length.
pub open spec fn var_roundtrips(v: VarValue) -> bool {
    match v {
        VarValue::String(s) => all_ascii(s) && s.len() <= u32::MAX,
        VarValue::LengthEncodedString(s) => all_bytes(s) && rle_encode(s).len() <= 0x7fff,
        _ => true,
    }
}

/// Writing an attribute: the bytes written, and the text of a name that was
/// still resolved (which stops the writer).
pub open spec fn attr_bytes(a: AttrV) -> (Seq<u8>, Option<Seq<char>>) {
    match a.name {
        NameV::Index(i) => (le_bytes(i as nat, 2) + var_bytes(a.value), None),
        NameV::Text(t) => (Seq::empty(), Some(t)),
    }
}

/// Writing attributes in order, stopping at the first resolved name.
pub open spec fn attrs_bytes(s: Seq<AttrV>) -> (Seq<u8>, Option<Seq<char>>)
    decreases s.len(),
{
    if s.len() == 0 {
        (Seq::empty(), None)
    } else {
        let (b, e) = attr_bytes(s[0]);
        if e is Some {
            (b, e)
        } else {
            let (b2, e2) = attrs_bytes(s.drop_first());
            (b + b2, e2)
        }
    }
}

/// Writing an element, stopping at the first resolved name.
pub open spec fn element_bytes(e: ElementV) -> (Seq<u8>, Option<Seq<char>>)
    decreases e, 0int,
{
    match e.name {
        NameV::Text(t) => (Seq::empty(), Some(t)),
        NameV::Index(i) => {
            let head = le_bytes(i as nat, 2) + seq![e.attributes.len() as u8];
            let (ab, ae) = attrs_bytes(e.attributes);
            if ae is Some {
                (head + ab, ae)
            } else {
                let (cb, ce) = elements_bytes(e.children);
                (head + ab + i16_bytes(e.children.len() as i16) + cb, ce)
            }
        },
    }
}

/// Writing elements in order, stopping at the first resolved name.
pub open spec fn elements_bytes(s: Seq<ElementV>) -> (Seq<u8>, Option<Seq<char>>)
    decreases s, 1int,
{
    if s.len() == 0 {
        (Seq::empty(), None)
    } else {
        let (b, e) = element_bytes(s[0]);
        if e is Some {
            (b, e)
        } else {
            let (b2, e2) = elements_bytes(s.drop_first());
            (b + b2, e2)
        }
    }
}

/// Every value in the element and its descendants can be written.
pub open spec fn element_writable(e: ElementV) -> bool
    decreases e,
{
    &&& forall|i: int| 0 <= i < e.attributes.len() ==> var_writable(#[trigger] e.attributes[i].value)
    &&& forall|i: int| 0 <= i < e.children.len() ==> element_writable(#[trigger] e.children[i])
}

/// The element reads back as written: every name is a lookup index, counts
/// fit their fields (fewer than 256 attributes, fewer than 32768 children),
/// and every value reads back as written.
pub open spec fn element_roundtrips(e: ElementV) -> bool
    decreases e,
{
    &&& e.name is Index
    &&& e.attributes.len() < 256
    &&& e.children.len() < 0x8000
    &&& forall|i: int|
        0 <= i < e.attributes.len() ==> (#[trigger] e.attributes[i]).name is Index && var_roundtrips(
            e.attributes[i].value,
        )
    &&& forall|i: int| 0 <= i < e.children.len() ==> element_roundtrips(#[trigger] e.children[i])
}

/// The bytes of a string as the writer puts them: a varint length, then one byte per character.
pub open spec fn string_bytes(x: Seq<char>) -> Seq<u8> {
    varint_bytes(x.len() as u32) + chars_as_bytes(x)
}

/// The bytes of strings written one after another.
pub open spec fn strings_bytes(s: Seq<Seq<char>>) -> Seq<u8>
    decreases s.len(),
{
    if s.len() == 0 {
        Seq::empty()
    } else {
        string_bytes(s[0]) + strings_bytes(s.drop_first())
    }
}

/// Writing one more string after the others.
pub proof fn lemma_strings_bytes_push(s: Seq<Seq<char>>, x: Seq<char>)
    ensures
        strings_bytes(s.push(x)) == strings_bytes(s) + string_bytes(x),
    decreases s.len(),
{
    if s.len() == 0 {
        assert(s.push(x).drop_first() =~= Seq::<Seq<char>>::empty());
        assert(strings_bytes(Seq::<Seq<char>>::empty()) == Seq::<u8>::empty());
        assert(string_bytes(x) + Seq::<u8>::empty() =~= Seq::<u8>::empty() + string_bytes(x));
    } else {
        assert(s.push(x).drop_first() =~= s.drop_first().push(x));
        lemma_strings_bytes_push(s.drop_first(), x);
        assert(string_bytes(s[0]) + (strings_bytes(s.drop_first()) + string_bytes(x)) =~= (string_bytes(
            s[0],
        ) + strings_bytes(s.drop_first())) + string_bytes(x));
    }
}

/// The bytes of a lookup table: a 16-bit count, then the strings.
pub open spec fn table_bytes(s: Seq<Seq<char>>) -> Seq<u8> {
    i16_bytes(#[verifier::truncate] (s.len() as i16)) + strings_bytes(s)
}

/// Writing one more attribute after the others.
pub proof fn lemma_attrs_bytes_push(s: Seq<AttrV>, a: AttrV)
    ensures
        attrs_bytes(s.push(a)) == (if attrs_bytes(s).1 is Some {
            attrs_bytes(s)
        } else {
            (attrs_bytes(s).0 + attr_bytes(a).0, attr_bytes(a).1)
        }),
    decreases s.len(),
{
    if s.len() == 0 {
        assert(s.push(a).drop_first() =~= Seq::<AttrV>::empty());
        assert(attrs_bytes(Seq::<AttrV>::empty()) == (Seq::<u8>::empty(), None::<Seq<char>>));
        assert(attr_bytes(a).0 + Seq::<u8>::empty() =~= attr_bytes(a).0);
        assert(Seq::<u8>::empty() + attr_bytes(a).0 =~= attr_bytes(a).0);
    } else {
        assert(s.push(a).drop_first() =~= s.drop_first().push(a));
        lemma_attrs_bytes_push(s.drop_first(), a);
        let (b, e) = attr_bytes(s[0]);
        if e is None {
            let (b2, _) = attrs_bytes(s.drop_first());
            assert(b + (b2 + attr_bytes(a).0) =~= (b + b2) + attr_bytes(a).0);
        }
    }
}

/// Writing one more element after the others.
pub proof fn lemma_elements_bytes_push(s: Seq<ElementV>, x: ElementV)
    ensures
        elements_bytes(s.push(x)) == (if elements_bytes(s).1 is Some {
            elements_bytes(s)
        } else {
            (elements_bytes(s).0 + element_bytes(x).0, element_bytes(x).1)
        }),
    decreases s.len(),
{
    if s.len() == 0 {
        assert(s.push(x).drop_first() =~= Seq::<ElementV>::empty());
        assert(elements_bytes(Seq::<ElementV>::empty()) == (Seq::<u8>::empty(), None::<Seq<char>>));
        assert(element_bytes(x).0 + Seq::<u8>::empty() =~= element_bytes(x).0);
        assert(Seq::<u8>::empty() + element_bytes(x).0 =~= element_bytes(x).0);
    } else {
        assert(s.push(x).drop_first() =~= s.drop_first().push(x));
        lemma_elements_bytes_push(s.drop_first(), x);
        let (b, e) = element_bytes(s[0]);
        if e is None {
            let (b2, _) = elements_bytes(s.drop_first());
            assert(b + (b2 + element_bytes(x).0) =~= (b + b2) + element_bytes(x).0);
        }
    }
}

// ---------------------------------------------------------------------------
// Reading back what was written
// ---------------------------------------------------------------------------

/// A `k`-byte number read from the front of `b + rest`, where `b` holds its `k` bytes.
proof fn lemma_fixed_front(v: nat, k: nat, rest: Seq<u8>)
    requires
        v < pow256(k),
    ensures
        fixed_read(le_bytes(v, k) + rest, k) == (Ok::<nat, BinReadError>(v), k),
{
    lemma_le_roundtrip(v, k);
    assert((le_bytes(v, k) + rest).subrange(0, k as int) =~= le_bytes(v, k));
}

/// An attribute value reads back as it was written, whatever follows it.
pub proof fn lemma_var_roundtrip(v: VarValue, rest: Seq<u8>)
    requires
        var_roundtrips(v),
    ensures
        var_read(var_bytes(v) + rest) == (Ok::<VarValue, ReadFailure>(v), var_bytes(v).len()),
{
    let r = var_bytes(v) + rest;
    let t = r.subrange(1, r.len() as int);
    reveal_with_fuel(pow256, 5);
    match v {
        VarValue::Bool(b) => {
            assert(t[0] == if b { 1u8 } else { 0u8 });
        },
        VarValue::Byte(b) => {
            assert(t =~= le_bytes(b as nat, 1) + rest) by {
                reveal_with_fuel(le_bytes, 2);
            }
            lemma_fixed_front(b as nat, 1, rest);
        },
        VarValue::Short(x) => {
            let u = #[verifier::truncate] (x as u16);
            assert(t =~= le_bytes(u as nat, 2) + rest);
            lemma_fixed_front(u as nat, 2, rest);
            lemma_le_roundtrip(u as nat, 2);
            assert(u as i16 == x) by (bit_vector)
                requires
                    u == #[verifier::truncate] (x as u16),
            ;
        },
        VarValue::Int(x) => {
            let u = #[verifier::truncate] (x as u32);
            assert(t =~= le_bytes(u as nat, 4) + rest);
            lemma_fixed_front(u as nat, 4, rest);
            lemma_le_roundtrip(u as nat, 4);
            assert(u as i32 == x) by (bit_vector)
                requires
                    u == #[verifier::truncate] (x as u32),
            ;
        },
        VarValue::Float(f) => {
            assert(t =~= le_bytes(f as nat, 4) + rest);
            lemma_fixed_front(f as nat, 4, rest);
            lemma_le_roundtrip(f as nat, 4);
        },
        VarValue::LookupIndex(i) => {
            assert(t =~= le_bytes(i as nat, 2) + rest);
            lemma_fixed_front(i as nat, 2, rest);
            lemma_le_roundtrip(i as nat, 2);
        },
        VarValue::String(x) => {
            assert(t =~= varint_bytes(x.len() as u32) + chars_as_bytes(x) + rest);
            lemma_string_roundtrip(x, rest);
            assert(var_bytes(v).len() == 1 + varint_bytes(x.len() as u32).len() + x.len());
        },
        VarValue::LengthEncodedString(x) => {
            let n = rle_encode(x).len();
            let u = #[verifier::truncate] ((n as i16) as u16);
            assert(t =~= i16_bytes(n as i16) + rle_encode(x) + rest);
            lemma_rle_roundtrip(x, rest);
            lemma_le_roundtrip(u as nat, 2);
            assert(var_bytes(v).len() == 3 + n);
        },
    }
}

/// An attribute named by an index reads back as it was written.
pub proof fn lemma_attr_roundtrip(a: AttrV, rest: Seq<u8>)
    requires
        a.name is Index,
        var_roundtrips(a.value),
    ensures
        attr_bytes(a).1 is None,
        attr_read(attr_bytes(a).0 + rest) == (Ok::<AttrV, ReadFailure>(a), attr_bytes(a).0.len()),
{
    let i = a.name->Index_0;
    let r = attr_bytes(a).0 + rest;
    reveal_with_fuel(pow256, 3);
    assert(r =~= le_bytes(i as nat, 2) + (var_bytes(a.value) + rest));
    lemma_fixed_front(i as nat, 2, var_bytes(a.value) + rest);
    lemma_le_roundtrip(i as nat, 2);
    assert(drop(r, 2) =~= var_bytes(a.value) + rest);
    lemma_var_roundtrip(a.value, rest);
}

/// Attributes named by indices read back as they were written.
pub proof fn lemma_attrs_roundtrip(s: Seq<AttrV>, rest: Seq<u8>)
    requires
        forall|i: int|
            0 <= i < s.len() ==> (#[trigger] s[i]).name is Index && var_roundtrips(s[i].value),
    ensures
        attrs_bytes(s).1 is None,
        attrs_read(attrs_bytes(s).0 + rest, s.len()) == (
            Ok::<Seq<AttrV>, ReadFailure>(s),
            attrs_bytes(s).0.len(),
        ),
    decreases s.len(),
{
    if s.len() == 0 {
        assert(s =~= Seq::<AttrV>::empty());
    } else {
        let a = s[0];
        let t = s.drop_first();
        assert forall|i: int| 0 <= i < t.len() implies (#[trigger] t[i]).name is Index
            && var_roundtrips(t[i].value) by {
            assert(t[i] == s[i + 1]);
        }
        let b = attr_bytes(a).0;
        let bt = attrs_bytes(t).0;
        lemma_attrs_roundtrip(t, rest);
        lemma_attr_roundtrip(a, bt + rest);
        let r = attrs_bytes(s).0 + rest;
        assert(r =~= b + (bt + rest));
        assert(drop(r, b.len()) =~= bt + rest);
        assert(seq![a] + t =~= s);
    }
}

/// Whether every element of a list reads back as written.
pub open spec fn all_roundtrip(s: Seq<ElementV>) -> bool {
    forall|i: int| 0 <= i < s.len() ==> element_roundtrips(#[trigger] s[i])
}

/// An element reads back as it was written, whatever follows it.
pub proof fn lemma_element_roundtrip(e: ElementV, rest: Seq<u8>)
    requires
        element_roundtrips(e),
    ensures
        element_bytes(e).1 is None,
        element_read(element_bytes(e).0 + rest) == (
            Ok::<ElementV, ReadFailure>(e),
            element_bytes(e).0.len(),
        ),
    decreases e, 0int,
{
    let i = e.name->Index_0;
    let head = le_bytes(i as nat, 2) + seq![e.attributes.len() as u8];
    let ab = attrs_bytes(e.attributes).0;
    let nc = e.children.len();
    let cb = elements_bytes(e.children).0;
    let cnt = i16_bytes(nc as i16);
    reveal_with_fuel(pow256, 3);
    lemma_le_roundtrip(i as nat, 2);
    lemma_attrs_roundtrip(e.attributes, cnt + cb + rest);
    assert(all_roundtrip(e.children));
    lemma_elements_roundtrip(e.children, rest);
    let r = element_bytes(e).0 + rest;
    assert(r =~= le_bytes(i as nat, 2) + seq![e.attributes.len() as u8] + (ab + (cnt + cb + rest)));
    assert(r.subrange(0, 2) =~= le_bytes(i as nat, 2));
    assert(r[2] == e.attributes.len() as u8);
    assert(drop(r, 3) =~= ab + (cnt + cb + rest));
    assert(drop(r, 3 + ab.len()) =~= cnt + (cb + rest));
    assert(nc as i16 as u16 == nc);
    lemma_fixed_front(nc, 2, cb + rest);
    lemma_le_roundtrip(nc, 2);
    assert(drop(r, 5 + ab.len()) =~= cb + rest);
}

/// Elements read back one after another as they were written.
pub proof fn lemma_elements_roundtrip(s: Seq<ElementV>, rest: Seq<u8>)
    requires
        all_roundtrip(s),
    ensures
        elements_bytes(s).1 is None,
        children_read(elements_bytes(s).0 + rest, s.len()) == (
            Ok::<Seq<ElementV>, ReadFailure>(s),
            elements_bytes(s).0.len(),
        ),
    decreases s, 1int,
{
    if s.len() == 0 {
        assert(s =~= Seq::<ElementV>::empty());
    } else {
        let x = s[0];
        let t = s.drop_first();
        assert(all_roundtrip(t)) by {
            assert forall|i: int| 0 <= i < t.len() implies element_roundtrips(#[trigger] t[i]) by {
                assert(t[i] == s[i + 1]);
            }
        }
        let b = element_bytes(x).0;
        let bt = elements_bytes(t).0;
        lemma_elements_roundtrip(t, rest);
        lemma_element_roundtrip(x, bt + rest);
        let r = elements_bytes(s).0 + rest;
        assert(r =~= b + (bt + rest));
        assert(drop(r, b.len()) =~= bt + rest);
        assert(seq![x] + t =~= s);
    }
}

/// Whether every string of a table can be written and read back.
pub open spec fn strings_roundtrip(s: Seq<Seq<char>>) -> bool {
    forall|i: int| 0 <= i < s.len() ==> all_ascii(#[trigger] s[i]) && s[i].len() <= u32::MAX
}

/// Strings read back one after another as they were written.
pub proof fn lemma_strings_roundtrip(s: Seq<Seq<char>>, rest: Seq<u8>)
    requires
        strings_roundtrip(s),
    ensures
        strings_read(strings_bytes(s) + rest, s.len()) == (
            Ok::<Seq<Seq<char>>, ReadFailure>(s),
            strings_bytes(s).len(),
        ),
    decreases s.len(),
{
    if s.len() == 0 {
        assert(s =~= Seq::<Seq<char>>::empty());
    } else {
        let x = s[0];
        let t = s.drop_first();
        assert(strings_roundtrip(t)) by {
            assert forall|i: int| 0 <= i < t.len() implies all_ascii(#[trigger] t[i]) && t[i].len()
                <= u32::MAX by {
                assert(t[i] == s[i + 1]);
            }
        }
        lemma_strings_roundtrip(t, rest);
        lemma_string_roundtrip(x, strings_bytes(t) + rest);
        let r = strings_bytes(s) + rest;
        assert(r =~= varint_bytes(x.len() as u32) + chars_as_bytes(x) + (strings_bytes(t) + rest));
        assert(drop(r, string_bytes(x).len()) =~= strings_bytes(t) + rest);
        assert(seq![x] + t =~= s);
    }
}

/// A lookup table of fewer than 32768 strings reads back as it was written.
pub proof fn lemma_table_roundtrip(s: Seq<Seq<char>>, rest: Seq<u8>)
    requires
        s.len() < 0x8000,
        strings_roundtrip(s),
    ensures
        table_read(table_bytes(s) + rest) == (
            Ok::<Seq<Seq<char>>, ReadFailure>(s),
            table_bytes(s).len(),
        ),
{
    let n = s.len();
    reveal_with_fuel(pow256, 3);
    assert(n as i16 as u16 == n);
    let r = table_bytes(s) + rest;
    assert(r =~= i16_bytes(n as i16) + (strings_bytes(s) + rest));
    lemma_fixed_front(n, 2, strings_bytes(s) + rest);
    lemma_le_roundtrip(n, 2);
    assert(drop(r, 2) =~= strings_bytes(s) + rest);
    lemma_strings_roundtrip(s, rest);
}

} // verus!
