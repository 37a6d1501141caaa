//! YAML documents as plain values, and reading typed values out of them.
//!
//! Mod saves, mod sessions, mod settings and `everest.yaml` files are YAML.
//! A document is held here as a tree of [Yaml] nodes; turning text into such
//! a tree and back is left to whoever reads and writes the files.
use vstd::prelude::*;

use crate::utils::keyed::{key_pos, lemma_key_pos, put};
use crate::utils::text::str_eq;

verus! {

/// A node of a YAML document.
pub enum Yaml {
    /// A scalar still in its raw form, not resolved to a value.
    Representation(String),
    Null,
    Boolean(bool),
    Integer(i64),
    /// A floating-point scalar, held as its shortest decimal text.
    Real(String),
    String(String),
    Sequence(Vec<Yaml>),
    /// The entries of a mapping, in document order, each key at most once.
    Mapping(Vec<(Yaml, Yaml)>),
    /// A node with a tag.
    Tagged(String, Box<Yaml>),
    Alias(usize),
    /// A scalar whose text could not be resolved to a value.
    BadValue,
}

/// The value of a [Yaml] node.
pub enum YamlV {
    Representation(Seq<char>),
    Null,
    Boolean(bool),
    Integer(i64),
    Real(Seq<char>),
    String(Seq<char>),
    Sequence(Seq<YamlV>),
    Mapping(Seq<(YamlV, YamlV)>),
    Tagged(Seq<char>, Box<YamlV>),
    Alias(usize),
    BadValue,
}

/// The value of a node.
pub open spec fn yaml_view(y: Yaml) -> YamlV
    decreases y, 0int,
{
    match y {
        Yaml::Representation(s) => YamlV::Representation(s@),
        Yaml::Null => YamlV::Null,
        Yaml::Boolean(b) => YamlV::Boolean(b),
        Yaml::Integer(i) => YamlV::Integer(i),
        Yaml::Real(s) => YamlV::Real(s@),
        Yaml::String(s) => YamlV::String(s@),
        Yaml::Sequence(v) => YamlV::Sequence(yamls_view(v@)),
        Yaml::Mapping(m) => YamlV::Mapping(entries_view(m@)),
        Yaml::Tagged(t, b) => YamlV::Tagged(t@, Box::new(yaml_view(*b))),
        Yaml::Alias(a) => YamlV::Alias(a),
        Yaml::BadValue => YamlV::BadValue,
    }
}

/// The values of a list of nodes.
pub open spec fn yamls_view(s: Seq<Yaml>) -> Seq<YamlV>
    decreases s, 1int,
{
    if s.len() == 0 {
        Seq::empty()
    } else {
        yamls_view(s.drop_last()).push(yaml_view(s.last()))
    }
}

/// The values of a list of mapping entries.
pub open spec fn entries_view(s: Seq<(Yaml, Yaml)>) -> Seq<(YamlV, YamlV)>
    decreases s, 1int,
{
    if s.len() == 0 {
        Seq::empty()
    } else {
        entries_view(s.drop_last()).push((yaml_view(s.last().0), yaml_view(s.last().1)))
    }
}

/// The value of each node of a list, in order.
pub proof fn lemma_yamls_view(s: Seq<Yaml>)
    ensures
        yamls_view(s).len() == s.len(),
        forall|i: int| 0 <= i < s.len() ==> #[trigger] yamls_view(s)[i] == yaml_view(s[i]),
    decreases s.len(),
{
    if s.len() > 0 {
        lemma_yamls_view(s.drop_last());
    }
}

/// The value of each entry of a mapping, in order.
pub proof fn lemma_entries_view(s: Seq<(Yaml, Yaml)>)
    ensures
        entries_view(s).len() == s.len(),
        forall|i: int|
            0 <= i < s.len() ==> #[trigger] entries_view(s)[i] == (yaml_view(s[i].0), yaml_view(s[i].1)),
    decreases s.len(),
{
    if s.len() > 0 {
        lemma_entries_view(s.drop_last());
    }
}

impl View for Yaml {
    type V = YamlV;

    open spec fn view(&self) -> YamlV {
        yaml_view(*self)
    }
}

impl DeepView for Yaml {
    type V = YamlV;

    open spec fn deep_view(&self) -> YamlV {
        yaml_view(*self)
    }
}

/// The name of the kind of a node, as errors give it.
pub open spec fn type_name_of(y: YamlV) -> Seq<char> {
    match y {
        YamlV::Real(_) => "f64"@,
        YamlV::Integer(_) => "i64"@,
        YamlV::String(_) => "String"@,
        YamlV::Boolean(_) => "bool"@,
        YamlV::Sequence(_) => "Vec"@,
        YamlV::Mapping(_) => "Hash"@,
        YamlV::Alias(_) => "Alias"@,
        YamlV::Null => "null"@,
        YamlV::BadValue => "BADVALUE"@,
        _ => "Unsupported"@,
    }
}

/// The index of the first entry whose key is the string `key`.
pub open spec fn key_index(m: Seq<(YamlV, YamlV)>, key: Seq<char>) -> Option<int>
    decreases m.len(),
{
    if m.len() == 0 {
        None
    } else if m[0].0 == YamlV::String(key) {
        Some(0)
    } else {
        match key_index(m.drop_first(), key) {
            Some(i) => Some(i + 1),
            None => None,
        }
    }
}

/// The value under the string key `key`, when `y` is a mapping that has it.
pub open spec fn mapping_get(y: YamlV, key: Seq<char>) -> Option<YamlV> {
    match y {
        YamlV::Mapping(m) => match key_index(m, key) {
            Some(i) => Some(m[i].1),
            None => None,
        },
        _ => None,
    }
}

/// The first index found by [key_index] holds the key, and no earlier entry does.
pub proof fn lemma_key_index(m: Seq<(YamlV, YamlV)>, key: Seq<char>)
    ensures
        match key_index(m, key) {
            Some(i) => 0 <= i < m.len() && m[i].0 == YamlV::String(key) && forall|j: int|
                0 <= j < i ==> #[trigger] m[j].0 != YamlV::String(key),
            None => forall|j: int| 0 <= j < m.len() ==> #[trigger] m[j].0 != YamlV::String(key),
        },
    decreases m.len(),
{
    if m.len() > 0 {
        lemma_key_index(m.drop_first(), key);
        assert forall|j: int| 1 <= j < m.len() implies #[trigger] m[j] == m.drop_first()[j - 1] by {}
    }
}

/// Why a node could not be read as a value.
#[derive(Debug, Clone)]
pub enum YamlParseError {
    /// The expected kind of node, and the kind found.
    TypeMismatch(&'static str, &'static str),
    ArrayLenMismatch(&'static str, usize, usize),
    UnknownVariant(&'static str, String),
    /// The text is not well-formed YAML, with the scanner's message.
    ScanError(String),
    Custom(String),
}

/// The value of a [YamlParseError].
pub enum YamlParseErrorV {
    TypeMismatch(Seq<char>, Seq<char>),
    ArrayLenMismatch(Seq<char>, usize, usize),
    UnknownVariant(Seq<char>, Seq<char>),
    ScanError(Seq<char>),
    Custom(Seq<char>),
}

impl View for YamlParseError {
    type V = YamlParseErrorV;

    open spec fn view(&self) -> YamlParseErrorV {
        match self {
            YamlParseError::TypeMismatch(a, b) => YamlParseErrorV::TypeMismatch(a@, b@),
            YamlParseError::ArrayLenMismatch(a, b, c) => YamlParseErrorV::ArrayLenMismatch(a@, *b, *c),
            YamlParseError::UnknownVariant(a, b) => YamlParseErrorV::UnknownVariant(a@, b@),
            YamlParseError::ScanError(a) => YamlParseErrorV::ScanError(a@),
            YamlParseError::Custom(a) => YamlParseErrorV::Custom(a@),
        }
    }
}

impl YamlParseError {
    pub fn custom(str: &str) -> (r: Self)
        ensures
            r@ == YamlParseErrorV::Custom(str@),
    {
        YamlParseError::Custom(str.to_owned())
    }
}

/// Why a value could not be written as a node.
#[derive(Debug, Clone)]
pub enum YamlWriteError {
    Custom(String),
}

impl YamlWriteError {
    pub fn custom(str: &str) -> (r: Self)
        ensures
            r matches YamlWriteError::Custom(m) && m@ == str@,
    {
        YamlWriteError::Custom(str.to_owned())
    }
}

/// The error for a node of the wrong kind.
pub open spec fn mismatch(expected: Seq<char>, y: YamlV) -> YamlParseErrorV {
    YamlParseErrorV::TypeMismatch(expected, type_name_of(y))
}

/// The name of the kind of a node.
pub fn yaml_type_name(yaml: &Yaml) -> (r: &'static str)
    ensures
        r@ == type_name_of(yaml@),
{
    match yaml {
        Yaml::Real(_) => "f64",
        Yaml::Integer(_) => "i64",
        Yaml::String(_) => "String",
        Yaml::Boolean(_) => "bool",
        Yaml::Sequence(_) => "Vec",
        Yaml::Mapping(_) => "Hash",
        Yaml::Alias(_) => "Alias",
        Yaml::Null => "null",
        Yaml::BadValue => "BADVALUE",
        _ => "Unsupported",
    }
}

impl Yaml {
    /// An integer node.
    pub fn integer(value: i64) -> (r: Self)
        ensures
            r@ == YamlV::Integer(value),
    {
        Yaml::Integer(value)
    }

    pub fn as_bool(&self) -> (r: Option<bool>)
        ensures
            r == (match self@ {
                YamlV::Boolean(b) => Some(b),
                _ => None,
            }),
    {
        match self {
            Yaml::Boolean(b) => Some(*b),
            _ => None,
        }
    }

    pub fn as_integer(&self) -> (r: Option<i64>)
        ensures
            r == (match self@ {
                YamlV::Integer(i) => Some(i),
                _ => None,
            }),
    {
        match self {
            Yaml::Integer(i) => Some(*i),
            _ => None,
        }
    }

    pub fn as_str(&self) -> (r: Option<&str>)
        ensures
            match self@ {
                YamlV::String(s) => r matches Some(x) && x@ == s,
                _ => r is None,
            },
    {
        match self {
            Yaml::String(s) => Some(s.as_str()),
            _ => None,
        }
    }

    pub fn as_mapping(&self) -> (r: Option<&Vec<(Yaml, Yaml)>>)
        ensures
            match self@ {
                YamlV::Mapping(m) => r matches Some(x) && entries_view(x@) == m,
                _ => r is None,
            },
    {
        match self {
            Yaml::Mapping(m) => Some(m),
            _ => None,
        }
    }

    pub fn as_vec(&self) -> (r: Option<&Vec<Yaml>>)
        ensures
            match self@ {
                YamlV::Sequence(v) => r matches Some(x) && yamls_view(x@) == v,
                _ => r is None,
            },
    {
        match self {
            Yaml::Sequence(v) => Some(v),
            _ => None,
        }
    }

    /// The value under the string key `key`, when the node is a mapping that has it.
    pub fn as_mapping_get(&self, key: &str) -> (r: Option<&Yaml>)
        ensures
            match mapping_get(self@, key@) {
                Some(v) => r matches Some(x) && x@ == v,
                None => r is None,
            },
    {
        match self {
            Yaml::Mapping(m) => {
                let ghost mv = entries_view(m@);
                proof {
                    lemma_entries_view(m@);
                    lemma_key_index(mv, key@);
                }
                for i in 0..m.len()
                    invariant
                        mv == entries_view(m@),
                        self@ == YamlV::Mapping(mv),
                        mv.len() == m@.len(),
                        forall|j: int| 0 <= j < mv.len() ==> #[trigger] mv[j] == (m@[j].0@, m@[j].1@),
                        forall|j: int| 0 <= j < i ==> #[trigger] mv[j].0 != YamlV::String(key@),
                        match key_index(mv, key@) {
                            Some(k) => 0 <= k < mv.len() && mv[k].0 == YamlV::String(key@) && forall|j: int|
                                0 <= j < k ==> #[trigger] mv[j].0 != YamlV::String(key@),
                            None => forall|j: int| 0 <= j < mv.len() ==> #[trigger] mv[j].0 != YamlV::String(key@),
                        },
                {
                    let entry = &m[i];
                    assert(mv[i as int] == (entry.0@, entry.1@));
                    if let Yaml::String(s) = &entry.0 {
                        if str_eq(s.as_str(), key) {
                            proof {
                                assert(mv[i as int].0 == YamlV::String(key@));
                                match key_index(mv, key@) {
                                    Some(k) => {
                                        if k < i {
                                            assert(mv[k].0 != YamlV::String(key@));
                                        }
                                        if k > i {
                                            assert(mv[i as int].0 != YamlV::String(key@));
                                        }
                                    },
                                    None => {
                                        assert(mv[i as int].0 != YamlV::String(key@));
                                    },
                                }
                            }
                            return Some(&entry.1);
                        }
                    }
                }
                None
            },
            _ => None,
        }
    }

    /// Whether the node is a mapping with the string key `key`.
    pub fn contains_mapping_key(&self, key: &str) -> (r: bool)
        ensures
            r == mapping_get(self@, key@) is Some,
    {
        self.as_mapping_get(key).is_some()
    }

    pub fn try_as_bool(&self) -> (r: Result<bool, YamlParseError>)
        ensures
            match self@ {
                YamlV::Boolean(b) => r == Ok::<bool, YamlParseError>(b),
                _ => r matches Err(e) && e@ == mismatch("bool"@, self@),
            },
    {
        match self.as_bool() {
            Some(b) => Ok(b),
            None => Err(YamlParseError::TypeMismatch("bool", yaml_type_name(self))),
        }
    }

    pub fn try_as_i64(&self) -> (r: Result<i64, YamlParseError>)
        ensures
            match self@ {
                YamlV::Integer(i) => r == Ok::<i64, YamlParseError>(i),
                _ => r matches Err(e) && e@ == mismatch("i64"@, self@),
            },
    {
        match self.as_integer() {
            Some(i) => Ok(i),
            None => Err(YamlParseError::TypeMismatch("i64", yaml_type_name(self))),
        }
    }

    pub fn try_as_str(&self) -> (r: Result<&str, YamlParseError>)
        ensures
            match self@ {
                YamlV::String(s) => r matches Ok(x) && x@ == s,
                _ => r matches Err(e) && e@ == mismatch("String"@, self@),
            },
    {
        match self.as_str() {
            Some(s) => Ok(s),
            None => Err(YamlParseError::TypeMismatch("String", yaml_type_name(self))),
        }
    }

    pub fn try_as_hash(&self) -> (r: Result<&Vec<(Yaml, Yaml)>, YamlParseError>)
        ensures
            match self@ {
                YamlV::Mapping(m) => r matches Ok(x) && entries_view(x@) == m,
                _ => r matches Err(e) && e@ == mismatch("Hash"@, self@),
            },
    {
        match self.as_mapping() {
            Some(m) => Ok(m),
            None => Err(YamlParseError::TypeMismatch("Hash", yaml_type_name(self))),
        }
    }

    pub fn try_as_vec(&self) -> (r: Result<&Vec<Yaml>, YamlParseError>)
        ensures
            match self@ {
                YamlV::Sequence(v) => r matches Ok(x) && yamls_view(x@) == v,
                _ => r matches Err(e) && e@ == mismatch("Vec"@, self@),
            },
    {
        match self.as_vec() {
            Some(v) => Ok(v),
            None => Err(YamlParseError::TypeMismatch("Vec", yaml_type_name(self))),
        }
    }

    /// A string node.
    pub fn string(str: String) -> (r: Self)
        ensures
            r@ == YamlV::String(str@),
    {
        Yaml::String(str)
    }

    /// A boolean node.
    pub fn bool(value: bool) -> (r: Self)
        ensures
            r@ == YamlV::Boolean(value),
    {
        Yaml::Boolean(value)
    }

    /// A mapping node.
    pub fn hash(hash: Vec<(Yaml, Yaml)>) -> (r: Self)
        ensures
            r@ == YamlV::Mapping(entries_view(hash@)),
    {
        Yaml::Mapping(hash)
    }

    /// A sequence node.
    pub fn seq(seq: Vec<Yaml>) -> (r: Self)
        ensures
            r@ == YamlV::Sequence(yamls_view(seq@)),
    {
        Yaml::Sequence(seq)
    }

    /// A copy of the node and everything under it.
    pub fn duplicate(&self) -> (r: Self)
        ensures
            r@ == self@,
        decreases self,
    {
        match self {
            Yaml::Representation(s) => Yaml::Representation(s.clone()),
            Yaml::Null => Yaml::Null,
            Yaml::Boolean(b) => Yaml::Boolean(*b),
            Yaml::Integer(i) => Yaml::Integer(*i),
            Yaml::Real(s) => Yaml::Real(s.clone()),
            Yaml::String(s) => Yaml::String(s.clone()),
            Yaml::Sequence(v) => {
                let mut out: Vec<Yaml> = Vec::new();
                proof {
                    lemma_yamls_view(v@);
                }
                for i in 0..v.len()
                    invariant
                        *self == Yaml::Sequence(*v),
                        yamls_view(out@) == yamls_view(v@).take(i as int),
                        yamls_view(v@).len() == v@.len(),
                        forall|j: int| 0 <= j < v@.len() ==> #[trigger] yamls_view(v@)[j] == yaml_view(v@[j]),
                {
                    proof {
                        assert(decreases_to!(*self => (*self)->Sequence_0));
                        assert(decreases_to!(*v => v@));
                        assert(decreases_to!(v@ => v@[i as int]));
                    }
                    let c = v[i].duplicate();
                    proof {
                        assert(out@.push(c).drop_last() =~= out@);
                        assert(yamls_view(out@.push(c)) =~= yamls_view(v@).take(i + 1));
                    }
                    out.push(c);
                }
                proof {
                    assert(yamls_view(v@).take(v@.len() as int) =~= yamls_view(v@));
                }
                Yaml::Sequence(out)
            },
            Yaml::Mapping(m) => {
                let mut out: Vec<(Yaml, Yaml)> = Vec::new();
                proof {
                    lemma_entries_view(m@);
                }
                for i in 0..m.len()
                    invariant
                        *self == Yaml::Mapping(*m),
                        entries_view(out@) == entries_view(m@).take(i as int),
                        entries_view(m@).len() == m@.len(),
                        forall|j: int|
                            0 <= j < m@.len() ==> #[trigger] entries_view(m@)[j] == (
                            yaml_view(m@[j].0),
                            yaml_view(m@[j].1),
                        ),
                {
                    proof {
                        assert(decreases_to!(*self => (*self)->Mapping_0));
                        assert(decreases_to!(*m => m@));
                        assert(decreases_to!(m@ => m@[i as int]));
                        assert(decreases_to!(m@[i as int] => m@[i as int].0));
                        assert(decreases_to!(m@[i as int] => m@[i as int].1));
                    }
                    let k = m[i].0.duplicate();
                    let x = m[i].1.duplicate();
                    let e = (k, x);
                    proof {
                        assert(out@.push(e).drop_last() =~= out@);
                        assert(entries_view(out@.push(e)) =~= entries_view(m@).take(i + 1));
                    }
                    out.push(e);
                }
                proof {
                    assert(entries_view(m@).take(m@.len() as int) =~= entries_view(m@));
                }
                Yaml::Mapping(out)
            },
            Yaml::Tagged(t, b) => Yaml::Tagged(t.clone(), Box::new(b.duplicate())),
            Yaml::Alias(a) => Yaml::Alias(*a),
            Yaml::BadValue => Yaml::BadValue,
        }
    }
}

} // verus!

verus! {

/// Puts `v` under the string key `k` in a mapping.
pub fn mapping_put(m: &mut Vec<(Yaml, Yaml)>, k: String, v: Yaml)
    ensures
        entries_view(final(m)@) == put(entries_view(old(m)@), YamlV::String(k@), v@),
{
    let ghost mv = entries_view(m@);
    let ghost kv = YamlV::String(k@);
    proof {
        lemma_entries_view(m@);
        lemma_key_pos(mv, kv);
    }
    let mut i: usize = 0;
    while i < m.len()
        invariant
            mv == entries_view(m@),
            kv == YamlV::String(k@),
            mv.len() == m@.len(),
            forall|j: int| 0 <= j < m@.len() ==> #[trigger] mv[j] == (m@[j].0@, m@[j].1@),
            *m == *old(m),
            i <= m@.len(),
            forall|j: int| 0 <= j < i ==> #[trigger] mv[j].0 != kv,
            match key_pos(mv, kv) {
                Some(p) => 0 <= p < mv.len() && mv[p].0 == kv && forall|j: int| 0 <= j < p ==> #[trigger] mv[j].0 != kv,
                None => forall|j: int| 0 <= j < mv.len() ==> #[trigger] mv[j].0 != kv,
            },
        decreases m@.len() - i,
    {
        let same = match &m[i].0 {
            Yaml::String(t) => str_eq(t.as_str(), k.as_str()),
            _ => false,
        };
        if same {
            proof {
                assert(mv[i as int].0 == kv);
                match key_pos(mv, kv) {
                    Some(p) => {
                        if p < i {
                            assert(mv[p].0 != kv);
                        }
                        if p > i {
                            assert(mv[i as int].0 != kv);
                        }
                    },
                    None => {
                        assert(mv[i as int].0 != kv);
                    },
                }
            }
            let ghost vv = v@;
            let ghost before = m@;
            m.set(i, (Yaml::String(k), v));
            proof {
                lemma_entries_view(m@);
                assert(entries_view(m@) =~= mv.update(i as int, (kv, vv)));
            }
            return ;
        }
        proof {
            assert(mv[i as int].0 != kv);
        }
        i = i + 1;
    }
    let ghost vv = v@;
    let ghost before = m@;
    proof {
        if key_pos(mv, kv) is Some {
            let p = key_pos(mv, kv)->Some_0;
            assert(mv[p].0 != kv);
        }
    }
    let e = (Yaml::String(k), v);
    assert(e.0@ == kv);
    m.push(e);
    proof {
        assert(m@.drop_last() =~= before);
        assert(m@.last() == e);
        assert(entries_view(m@) == entries_view(before).push((kv, vv)));
    }
}


/// A type whose values are read from, and written as, YAML nodes.
pub trait FromYaml: Sized {
    /// Whether the node reads as a value of the type.
    spec fn readable(y: YamlV) -> bool;

    /// Whether `x` is the value that the node reads as.
    spec fn reads_as(y: YamlV, x: Self) -> bool;

    /// Why the node does not read as a value of the type.
    spec fn read_error(y: YamlV) -> YamlParseErrorV;

    /// Whether the value can be written as a node.
    spec fn writable(x: Self) -> bool;

    /// The node that the value is written as.
    spec fn written(x: Self) -> YamlV;

    /// Why the value cannot be written as a node.
    spec fn write_error(x: Self) -> Seq<char>;

    /// Whether the value is one that reads back as itself once written: a
    /// map or set held as a list must not hold a key twice.
    spec fn keeps(x: Self) -> bool;

    /// A value that can be written, and that keeps, reads back as itself
    /// from the node it is written as.
    proof fn lemma_written_reads_back(x: Self)
        requires
            Self::writable(x),
            Self::keeps(x),
        ensures
            Self::readable(Self::written(x)),
            Self::reads_as(Self::written(x), x),
    ;

    /// What a node reads as is a value that keeps.
    proof fn lemma_read_keeps(y: YamlV, x: Self)
        requires
            Self::readable(y),
            Self::reads_as(y, x),
        ensures
            Self::keeps(x),
    ;

    fn parse_from_yaml(yaml: &Yaml) -> (r: Result<Self, YamlParseError>)
        ensures
            match r {
                Ok(x) => Self::readable(yaml@) && Self::reads_as(yaml@, x),
                Err(e) => !Self::readable(yaml@) && e@ == Self::read_error(yaml@),
            },
    ;

    fn to_yaml(&self) -> (r: Result<Yaml, YamlWriteError>)
        ensures
            match r {
                Ok(y) => Self::writable(*self) && y@ == Self::written(*self),
                Err(YamlWriteError::Custom(m)) => !Self::writable(*self) && m@ == Self::write_error(*self),
            },
    ;
}

impl FromYaml for bool {
    open spec fn readable(y: YamlV) -> bool {
        y is Boolean
    }

    open spec fn reads_as(y: YamlV, x: bool) -> bool {
        y == YamlV::Boolean(x)
    }

    open spec fn read_error(y: YamlV) -> YamlParseErrorV {
        mismatch("bool"@, y)
    }

    open spec fn writable(x: bool) -> bool {
        true
    }

    open spec fn written(x: bool) -> YamlV {
        YamlV::Boolean(x)
    }

    open spec fn write_error(x: bool) -> Seq<char> {
        Seq::empty()
    }

    open spec fn keeps(x: bool) -> bool {
        true
    }

    proof fn lemma_written_reads_back(x: bool) {
    }

    proof fn lemma_read_keeps(y: YamlV, x: bool) {
    }

    fn parse_from_yaml(yaml: &Yaml) -> (r: Result<bool, YamlParseError>) {
        yaml.try_as_bool()
    }

    fn to_yaml(&self) -> (r: Result<Yaml, YamlWriteError>) {
        Ok(Yaml::bool(*self))
    }
}

impl FromYaml for i64 {
    open spec fn readable(y: YamlV) -> bool {
        y is Integer
    }

    open spec fn reads_as(y: YamlV, x: i64) -> bool {
        y == YamlV::Integer(x)
    }

    open spec fn read_error(y: YamlV) -> YamlParseErrorV {
        mismatch("i64"@, y)
    }

    open spec fn writable(x: i64) -> bool {
        true
    }

    open spec fn written(x: i64) -> YamlV {
        YamlV::Integer(x)
    }

    open spec fn write_error(x: i64) -> Seq<char> {
        Seq::empty()
    }

    open spec fn keeps(x: i64) -> bool {
        true
    }

    proof fn lemma_written_reads_back(x: i64) {
    }

    proof fn lemma_read_keeps(y: YamlV, x: i64) {
    }

    fn parse_from_yaml(yaml: &Yaml) -> (r: Result<i64, YamlParseError>) {
        yaml.try_as_i64()
    }

    fn to_yaml(&self) -> (r: Result<Yaml, YamlWriteError>) {
        Ok(Yaml::integer(*self))
    }
}

impl FromYaml for String {
    open spec fn readable(y: YamlV) -> bool {
        y is String
    }

    open spec fn reads_as(y: YamlV, x: String) -> bool {
        y == YamlV::String(x@)
    }

    open spec fn read_error(y: YamlV) -> YamlParseErrorV {
        mismatch("String"@, y)
    }

    open spec fn writable(x: String) -> bool {
        true
    }

    open spec fn written(x: String) -> YamlV {
        YamlV::String(x@)
    }

    open spec fn write_error(x: String) -> Seq<char> {
        Seq::empty()
    }

    open spec fn keeps(x: String) -> bool {
        true
    }

    proof fn lemma_written_reads_back(x: String) {
    }

    proof fn lemma_read_keeps(y: YamlV, x: String) {
    }

    fn parse_from_yaml(yaml: &Yaml) -> (r: Result<String, YamlParseError>) {
        match yaml.try_as_str() {
            Ok(s) => Ok(s.to_owned()),
            Err(e) => Err(e),
        }
    }

    fn to_yaml(&self) -> (r: Result<Yaml, YamlWriteError>) {
        Ok(Yaml::string(self.clone()))
    }
}

/// The message for a number too large for the type it is read as.
pub open spec fn too_large(kind: Seq<char>) -> Seq<char> {
    "Could not fit the number parsed into an "@ + kind
}

/// Why an integer node does not read as a type whose values are `lo..=hi`.
pub open spec fn int_read_error(y: YamlV, kind: Seq<char>) -> YamlParseErrorV {
    if y is Integer {
        YamlParseErrorV::Custom(too_large(kind))
    } else {
        mismatch("i64"@, y)
    }
}

/// Whether the node is an integer within `lo..=hi`.
pub open spec fn int_in(y: YamlV, lo: int, hi: int) -> bool {
    y matches YamlV::Integer(i) && lo <= i <= hi
}

/// The integer node of `v` in the `lo..=hi` range, or why it is not one.
fn integer_in(yaml: &Yaml, lo: i64, hi: i64, msg: &str) -> (r: Result<i64, YamlParseError>)
    ensures
        match r {
            Ok(i) => int_in(yaml@, lo as int, hi as int) && yaml@ == YamlV::Integer(i),
            Err(e) => !int_in(yaml@, lo as int, hi as int) && e@ == (if yaml@ is Integer {
                YamlParseErrorV::Custom(msg@)
            } else {
                mismatch("i64"@, yaml@)
            }),
        },
{
    match yaml.try_as_i64() {
        Ok(i) => if lo <= i && i <= hi {
            Ok(i)
        } else {
            Err(YamlParseError::custom(msg))
        },
        Err(e) => Err(e),
    }
}

impl FromYaml for u8 {
    open spec fn readable(y: YamlV) -> bool {
        int_in(y, 0, u8::MAX as int)
    }

    open spec fn reads_as(y: YamlV, x: u8) -> bool {
        y == YamlV::Integer(x as i64)
    }

    open spec fn read_error(y: YamlV) -> YamlParseErrorV {
        int_read_error(y, "u8"@)
    }

    open spec fn writable(x: u8) -> bool {
        true
    }

    open spec fn written(x: u8) -> YamlV {
        YamlV::Integer(x as i64)
    }

    open spec fn write_error(x: u8) -> Seq<char> {
        Seq::empty()
    }

    open spec fn keeps(x: u8) -> bool {
        true
    }

    proof fn lemma_written_reads_back(x: u8) {
    }

    proof fn lemma_read_keeps(y: YamlV, x: u8) {
    }

    fn parse_from_yaml(yaml: &Yaml) -> (r: Result<u8, YamlParseError>) {
        proof {
            reveal_strlit("Could not fit the number parsed into an u8");
            reveal_strlit("Could not fit the number parsed into an ");
            reveal_strlit("u8");
            assert(too_large("u8"@) =~= "Could not fit the number parsed into an u8"@);
        }
        match integer_in(yaml, 0, 255, "Could not fit the number parsed into an u8") {
            Ok(i) => Ok(i as u8),
            Err(e) => Err(e),
        }
    }

    fn to_yaml(&self) -> (r: Result<Yaml, YamlWriteError>) {
        Ok(Yaml::integer(*self as i64))
    }
}


impl FromYaml for u16 {
    open spec fn readable(y: YamlV) -> bool {
        int_in(y, 0, u16::MAX as int)
    }

    open spec fn reads_as(y: YamlV, x: u16) -> bool {
        y == YamlV::Integer(x as i64)
    }

    open spec fn read_error(y: YamlV) -> YamlParseErrorV {
        int_read_error(y, "u16"@)
    }

    open spec fn writable(x: u16) -> bool {
        true
    }

    open spec fn written(x: u16) -> YamlV {
        YamlV::Integer(x as i64)
    }

    open spec fn write_error(x: u16) -> Seq<char> {
        Seq::empty()
    }

    open spec fn keeps(x: u16) -> bool {
        true
    }

    proof fn lemma_written_reads_back(x: u16) {
    }

    proof fn lemma_read_keeps(y: YamlV, x: u16) {
    }

    fn parse_from_yaml(yaml: &Yaml) -> (r: Result<u16, YamlParseError>) {
        proof {
            reveal_strlit("Could not fit the number parsed into an u16");
            reveal_strlit("Could not fit the number parsed into an ");
            reveal_strlit("u16");
            assert(too_large("u16"@) =~= "Could not fit the number parsed into an u16"@);
        }
        match integer_in(yaml, 0, 65535, "Could not fit the number parsed into an u16") {
            Ok(i) => Ok(i as u16),
            Err(e) => Err(e),
        }
    }

    fn to_yaml(&self) -> (r: Result<Yaml, YamlWriteError>) {
        Ok(Yaml::integer(*self as i64))
    }
}

impl FromYaml for u32 {
    open spec fn readable(y: YamlV) -> bool {
        int_in(y, 0, u32::MAX as int)
    }

    open spec fn reads_as(y: YamlV, x: u32) -> bool {
        y == YamlV::Integer(x as i64)
    }

    open spec fn read_error(y: YamlV) -> YamlParseErrorV {
        int_read_error(y, "u32"@)
    }

    open spec fn writable(x: u32) -> bool {
        true
    }

    open spec fn written(x: u32) -> YamlV {
        YamlV::Integer(x as i64)
    }

    open spec fn write_error(x: u32) -> Seq<char> {
        Seq::empty()
    }

    open spec fn keeps(x: u32) -> bool {
        true
    }

    proof fn lemma_written_reads_back(x: u32) {
    }

    proof fn lemma_read_keeps(y: YamlV, x: u32) {
    }

    fn parse_from_yaml(yaml: &Yaml) -> (r: Result<u32, YamlParseError>) {
        proof {
            reveal_strlit("Could not fit the number parsed into an u32");
            reveal_strlit("Could not fit the number parsed into an ");
            reveal_strlit("u32");
            assert(too_large("u32"@) =~= "Could not fit the number parsed into an u32"@);
        }
        match integer_in(yaml, 0, 4294967295, "Could not fit the number parsed into an u32") {
            Ok(i) => Ok(i as u32),
            Err(e) => Err(e),
        }
    }

    fn to_yaml(&self) -> (r: Result<Yaml, YamlWriteError>) {
        Ok(Yaml::integer(*self as i64))
    }
}

impl FromYaml for u64 {
    open spec fn readable(y: YamlV) -> bool {
        int_in(y, 0, i64::MAX as int)
    }

    open spec fn reads_as(y: YamlV, x: u64) -> bool {
        y == YamlV::Integer(x as i64)
    }

    open spec fn read_error(y: YamlV) -> YamlParseErrorV {
        int_read_error(y, "u64"@)
    }

    open spec fn writable(x: u64) -> bool {
        x <= i64::MAX
    }

    open spec fn written(x: u64) -> YamlV {
        YamlV::Integer(x as i64)
    }

    open spec fn write_error(x: u64) -> Seq<char> {
        "Could not fit an u64 into a i64 when writing"@
    }

    open spec fn keeps(x: u64) -> bool {
        true
    }

    proof fn lemma_written_reads_back(x: u64) {
    }

    proof fn lemma_read_keeps(y: YamlV, x: u64) {
    }

    fn parse_from_yaml(yaml: &Yaml) -> (r: Result<u64, YamlParseError>) {
        proof {
            reveal_strlit("Could not fit the number parsed into an u64");
            reveal_strlit("Could not fit the number parsed into an ");
            reveal_strlit("u64");
            assert(too_large("u64"@) =~= "Could not fit the number parsed into an u64"@);
        }
        match integer_in(yaml, 0, 9223372036854775807, "Could not fit the number parsed into an u64") {
            Ok(i) => Ok(i as u64),
            Err(e) => Err(e),
        }
    }

    fn to_yaml(&self) -> (r: Result<Yaml, YamlWriteError>) {
        if *self <= 9223372036854775807u64 {
            Ok(Yaml::integer(*self as i64))
        } else {
            Err(YamlWriteError::custom("Could not fit an u64 into a i64 when writing"))
        }
    }
}

impl FromYaml for i8 {
    open spec fn readable(y: YamlV) -> bool {
        int_in(y, i8::MIN as int, i8::MAX as int)
    }

    open spec fn reads_as(y: YamlV, x: i8) -> bool {
        y == YamlV::Integer(x as i64)
    }

    open spec fn read_error(y: YamlV) -> YamlParseErrorV {
        int_read_error(y, "i8"@)
    }

    open spec fn writable(x: i8) -> bool {
        true
    }

    open spec fn written(x: i8) -> YamlV {
        YamlV::Integer(x as i64)
    }

    open spec fn write_error(x: i8) -> Seq<char> {
        Seq::empty()
    }

    open spec fn keeps(x: i8) -> bool {
        true
    }

    proof fn lemma_written_reads_back(x: i8) {
    }

    proof fn lemma_read_keeps(y: YamlV, x: i8) {
    }

    fn parse_from_yaml(yaml: &Yaml) -> (r: Result<i8, YamlParseError>) {
        proof {
            reveal_strlit("Could not fit the number parsed into an i8");
            reveal_strlit("Could not fit the number parsed into an ");
            reveal_strlit("i8");
            assert(too_large("i8"@) =~= "Could not fit the number parsed into an i8"@);
        }
        match integer_in(yaml, -128, 127, "Could not fit the number parsed into an i8") {
            Ok(i) => Ok(i as i8),
            Err(e) => Err(e),
        }
    }

    fn to_yaml(&self) -> (r: Result<Yaml, YamlWriteError>) {
        Ok(Yaml::integer(*self as i64))
    }
}

impl FromYaml for i16 {
    open spec fn readable(y: YamlV) -> bool {
        int_in(y, i16::MIN as int, i16::MAX as int)
    }

    open spec fn reads_as(y: YamlV, x: i16) -> bool {
        y == YamlV::Integer(x as i64)
    }

    open spec fn read_error(y: YamlV) -> YamlParseErrorV {
        int_read_error(y, "i16"@)
    }

    open spec fn writable(x: i16) -> bool {
        true
    }

    open spec fn written(x: i16) -> YamlV {
        YamlV::Integer(x as i64)
    }

    open spec fn write_error(x: i16) -> Seq<char> {
        Seq::empty()
    }

    open spec fn keeps(x: i16) -> bool {
        true
    }

    proof fn lemma_written_reads_back(x: i16) {
    }

    proof fn lemma_read_keeps(y: YamlV, x: i16) {
    }

    fn parse_from_yaml(yaml: &Yaml) -> (r: Result<i16, YamlParseError>) {
        proof {
            reveal_strlit("Could not fit the number parsed into an i16");
            reveal_strlit("Could not fit the number parsed into an ");
            reveal_strlit("i16");
            assert(too_large("i16"@) =~= "Could not fit the number parsed into an i16"@);
        }
        match integer_in(yaml, -32768, 32767, "Could not fit the number parsed into an i16") {
            Ok(i) => Ok(i as i16),
            Err(e) => Err(e),
        }
    }

    fn to_yaml(&self) -> (r: Result<Yaml, YamlWriteError>) {
        Ok(Yaml::integer(*self as i64))
    }
}

impl FromYaml for i32 {
    open spec fn readable(y: YamlV) -> bool {
        int_in(y, i32::MIN as int, i32::MAX as int)
    }

    open spec fn reads_as(y: YamlV, x: i32) -> bool {
        y == YamlV::Integer(x as i64)
    }

    open spec fn read_error(y: YamlV) -> YamlParseErrorV {
        int_read_error(y, "i32"@)
    }

    open spec fn writable(x: i32) -> bool {
        true
    }

    open spec fn written(x: i32) -> YamlV {
        YamlV::Integer(x as i64)
    }

    open spec fn write_error(x: i32) -> Seq<char> {
        Seq::empty()
    }

    open spec fn keeps(x: i32) -> bool {
        true
    }

    proof fn lemma_written_reads_back(x: i32) {
    }

    proof fn lemma_read_keeps(y: YamlV, x: i32) {
    }

    fn parse_from_yaml(yaml: &Yaml) -> (r: Result<i32, YamlParseError>) {
        proof {
            reveal_strlit("Could not fit the number parsed into an i32");
            reveal_strlit("Could not fit the number parsed into an ");
            reveal_strlit("i32");
            assert(too_large("i32"@) =~= "Could not fit the number parsed into an i32"@);
        }
        match integer_in(yaml, -2147483648, 2147483647, "Could not fit the number parsed into an i32") {
            Ok(i) => Ok(i as i32),
            Err(e) => Err(e),
        }
    }

    fn to_yaml(&self) -> (r: Result<Yaml, YamlWriteError>) {
        Ok(Yaml::integer(*self as i64))
    }
}


/// The read error of the first node of `s` that does not read as a `T`.
pub open spec fn first_read_error<T: FromYaml>(s: Seq<YamlV>) -> YamlParseErrorV
    decreases s.len(),
{
    if s.len() == 0 {
        YamlParseErrorV::Custom(Seq::empty())
    } else if !T::readable(s[0]) {
        T::read_error(s[0])
    } else {
        first_read_error::<T>(s.drop_first())
    }
}

/// The write error of the first value of `s` that cannot be written.
pub open spec fn first_write_error<T: FromYaml>(s: Seq<T>) -> Seq<char>
    decreases s.len(),
{
    if s.len() == 0 {
        Seq::empty()
    } else if !T::writable(s[0]) {
        T::write_error(s[0])
    } else {
        first_write_error::<T>(s.drop_first())
    }
}

/// Past a prefix of readable nodes, the first read error is that of the rest.
proof fn lemma_first_read_error<T: FromYaml>(s: Seq<YamlV>, i: int)
    requires
        0 <= i <= s.len(),
        forall|j: int| 0 <= j < i ==> T::readable(#[trigger] s[j]),
    ensures
        first_read_error::<T>(s) == first_read_error::<T>(s.skip(i)),
    decreases i,
{
    if i == 0 {
        assert(s.skip(0) =~= s);
    } else {
        assert(T::readable(s[0]));
        assert forall|j: int| 0 <= j < i - 1 implies T::readable(#[trigger] s.drop_first()[j]) by {
            assert(s.drop_first()[j] == s[j + 1]);
        }
        lemma_first_read_error::<T>(s.drop_first(), i - 1);
        assert(s.drop_first().skip(i - 1) =~= s.skip(i));
    }
}

/// Past a prefix of writable values, the first write error is that of the rest.
proof fn lemma_first_write_error<T: FromYaml>(s: Seq<T>, i: int)
    requires
        0 <= i <= s.len(),
        forall|j: int| 0 <= j < i ==> T::writable(#[trigger] s[j]),
    ensures
        first_write_error::<T>(s) == first_write_error::<T>(s.skip(i)),
    decreases i,
{
    if i == 0 {
        assert(s.skip(0) =~= s);
    } else {
        assert(T::writable(s[0]));
        assert forall|j: int| 0 <= j < i - 1 implies T::writable(#[trigger] s.drop_first()[j]) by {
            assert(s.drop_first()[j] == s[j + 1]);
        }
        lemma_first_write_error::<T>(s.drop_first(), i - 1);
        assert(s.drop_first().skip(i - 1) =~= s.skip(i));
    }
}

impl<T: FromYaml> FromYaml for Vec<T> {
    open spec fn readable(y: YamlV) -> bool {
        y matches YamlV::Sequence(s) && forall|i: int| 0 <= i < s.len() ==> T::readable(#[trigger] s[i])
    }

    open spec fn reads_as(y: YamlV, x: Vec<T>) -> bool {
        y matches YamlV::Sequence(s) && x@.len() == s.len() && forall|i: int|
            0 <= i < s.len() ==> T::reads_as(#[trigger] s[i], x@[i])
    }

    open spec fn read_error(y: YamlV) -> YamlParseErrorV {
        match y {
            YamlV::Sequence(s) => first_read_error::<T>(s),
            _ => mismatch("Vec"@, y),
        }
    }

    open spec fn writable(x: Vec<T>) -> bool {
        forall|i: int| 0 <= i < x@.len() ==> T::writable(#[trigger] x@[i])
    }

    open spec fn written(x: Vec<T>) -> YamlV {
        YamlV::Sequence(Seq::new(x@.len(), |i: int| T::written(x@[i])))
    }

    open spec fn write_error(x: Vec<T>) -> Seq<char> {
        first_write_error::<T>(x@)
    }

    open spec fn keeps(x: Vec<T>) -> bool {
        forall|i: int| 0 <= i < x@.len() ==> T::keeps(#[trigger] x@[i])
    }

    proof fn lemma_written_reads_back(x: Vec<T>) {
        let s = Seq::new(x@.len(), |i: int| T::written(x@[i]));
        assert forall|i: int| 0 <= i < s.len() implies T::readable(#[trigger] s[i]) && T::reads_as(s[i], x@[i]) by {
            T::lemma_written_reads_back(x@[i]);
        }
    }

    proof fn lemma_read_keeps(y: YamlV, x: Vec<T>) {
        if let YamlV::Sequence(s) = y {
            assert forall|i: int| 0 <= i < x@.len() implies T::keeps(#[trigger] x@[i]) by {
                T::lemma_read_keeps(s[i], x@[i]);
            }
        }
    }

    fn parse_from_yaml(yaml: &Yaml) -> (r: Result<Vec<T>, YamlParseError>) {
        let v = match yaml.try_as_vec() {
            Ok(v) => v,
            Err(e) => {
                return Err(e);
            },
        };
        let ghost s = yamls_view(v@);
        proof {
            lemma_yamls_view(v@);
        }
        let mut out: Vec<T> = Vec::new();
        for i in 0..v.len()
            invariant
                yaml@ == YamlV::Sequence(s),
                s.len() == v@.len(),
                forall|j: int| 0 <= j < v@.len() ==> #[trigger] s[j] == v@[j]@,
                out@.len() == i,
                forall|j: int| 0 <= j < i ==> T::readable(#[trigger] s[j]),
                forall|j: int| 0 <= j < i ==> T::reads_as(#[trigger] s[j], out@[j]),
        {
            assert(s[i as int] == v@[i as int]@);
            match T::parse_from_yaml(&v[i]) {
                Ok(x) => {
                    out.push(x);
                },
                Err(e) => {
                    proof {
                        lemma_first_read_error::<T>(s, i as int);
                        assert(s.skip(i as int)[0] == s[i as int]);
                        assert(!T::readable(s[i as int]));
                        assert(first_read_error::<T>(s.skip(i as int)) == T::read_error(s[i as int]));
                        assert(e@ == T::read_error(s[i as int]));
                        assert(<Vec<T> as FromYaml>::read_error(yaml@) == first_read_error::<T>(s));
                        assert(!<Vec<T> as FromYaml>::readable(yaml@));
                    }
                    return Err(e);
                },
            }
        }
        Ok(out)
    }

    fn to_yaml(&self) -> (r: Result<Yaml, YamlWriteError>) {
        let mut out: Vec<Yaml> = Vec::new();
        for i in 0..self.len()
            invariant
                out@.len() == i,
                forall|j: int| 0 <= j < i ==> T::writable(#[trigger] self@[j]),
                forall|j: int| 0 <= j < i ==> #[trigger] out@[j]@ == T::written(self@[j]),
        {
            match self[i].to_yaml() {
                Ok(y) => {
                    out.push(y);
                },
                Err(YamlWriteError::Custom(m)) => {
                    proof {
                        lemma_first_write_error::<T>(self@, i as int);
                        assert(self@.skip(i as int)[0] == self@[i as int]);
                    }
                    return Err(YamlWriteError::Custom(m));
                },
            }
        }
        proof {
            lemma_yamls_view(out@);
            assert forall|j: int| 0 <= j < self@.len() implies #[trigger] yamls_view(out@)[j] == T::written(
                self@[j],
            ) by {
                assert(out@[j]@ == T::written(self@[j]));
            }
            assert(yamls_view(out@) =~= Seq::new(self@.len(), |i: int| T::written(self@[i])));
        }
        Ok(Yaml::seq(out))
    }
}


/// The node under `key`, or a bad value when there is none, as indexing a
/// document by a key gives.
pub open spec fn field_node(y: YamlV, key: Seq<char>) -> YamlV {
    match mapping_get(y, key) {
        Some(v) => v,
        None => YamlV::BadValue,
    }
}

/// Whether an optional field holds what the node reads as, and nothing
/// when the node does not read as a `T`.
pub open spec fn reads_opt<T: FromYaml>(node: YamlV, x: Option<T>) -> bool {
    match x {
        Some(v) => T::readable(node) && T::reads_as(node, v),
        None => !T::readable(node),
    }
}

/// The node an optional field is written as: its value's, or null.
pub open spec fn written_opt<T: FromYaml>(x: Option<T>) -> YamlV {
    match x {
        Some(v) => T::written(v),
        None => YamlV::Null,
    }
}

/// Whether an optional field can be written.
pub open spec fn writable_opt<T: FromYaml>(x: Option<T>) -> bool {
    match x {
        Some(v) => T::writable(v),
        None => true,
    }
}

/// Reads the field `name` of a document as a `T`.
pub fn required_field<T: FromYaml>(yaml: &Yaml, name: &str) -> (r: Result<T, YamlParseError>)
    ensures
        match r {
            Ok(x) => T::readable(field_node(yaml@, name@)) && T::reads_as(field_node(yaml@, name@), x),
            Err(e) => !T::readable(field_node(yaml@, name@)) && e@ == T::read_error(field_node(yaml@, name@)),
        },
{
    match yaml.as_mapping_get(name) {
        Some(v) => T::parse_from_yaml(v),
        None => T::parse_from_yaml(&Yaml::BadValue),
    }
}

/// Reads the field `name` of a document as a `T`, or nothing when it does not read as one.
pub fn optional_field<T: FromYaml>(yaml: &Yaml, name: &str) -> (r: Option<T>)
    ensures
        reads_opt(field_node(yaml@, name@), r),
{
    match required_field::<T>(yaml, name) {
        Ok(x) => Some(x),
        Err(_) => None,
    }
}

/// Writes an optional field: its value, or null.
pub fn opt_to_yaml<T: FromYaml>(x: &Option<T>) -> (r: Result<Yaml, YamlWriteError>)
    ensures
        match r {
            Ok(y) => writable_opt(*x) && y@ == written_opt(*x),
            Err(YamlWriteError::Custom(m)) => !writable_opt(*x) && m@ == T::write_error(x->Some_0),
        },
{
    match x {
        Some(v) => v.to_yaml(),
        None => Ok(Yaml::Null),
    }
}


/// Looking a key up in a mapping after putting an entry: the entry's value
/// for its own key, and what was there before for any other.
pub proof fn lemma_put_get(m: Seq<(YamlV, YamlV)>, k: Seq<char>, v: YamlV, q: Seq<char>)
    ensures
        mapping_get(YamlV::Mapping(put(m, YamlV::String(k), v)), q) == if q == k {
            Some(v)
        } else {
            mapping_get(YamlV::Mapping(m), q)
        },
{
    let kk = YamlV::String(k);
    let p = put(m, kk, v);
    lemma_key_pos(m, kk);
    lemma_key_index(m, q);
    lemma_key_index(p, q);
    match key_pos(m, kk) {
        Some(i) => {
            assert(p == m.update(i, (kk, v)));
            assert forall|j: int| 0 <= j < m.len() implies #[trigger] p[j].0 == m[j].0 by {}
            match (key_index(m, q), key_index(p, q)) {
                (Some(a), Some(b)) => {
                    if a < b {
                        assert(p[a].0 == m[a].0);
                    }
                    if b < a {
                        assert(p[b].0 == m[b].0);
                    }
                    if q == k {
                        if a < i {
                            assert(m[a].0 == kk);
                        }
                        if i < a {
                            assert(m[i].0 == YamlV::String(q));
                        }
                    } else if a == i {
                        assert(m[i].0 == kk);
                    }
                },
                (Some(a), None) => {
                    assert(p[a].0 == m[a].0);
                },
                (None, Some(b)) => {
                    assert(p[b].0 == m[b].0);
                },
                (None, None) => {
                    if q == k {
                        assert(p[i].0 == kk);
                    }
                },
            }
        },
        None => {
            assert(p == m.push((kk, v)));
            assert forall|j: int| 0 <= j < m.len() implies #[trigger] p[j].0 == m[j].0 by {}
            match (key_index(m, q), key_index(p, q)) {
                (Some(a), Some(b)) => {
                    if a < b {
                        assert(p[a].0 == m[a].0);
                    }
                    if b < a {
                        assert(p[b].0 == m[b].0);
                    }
                    if q == k {
                        assert(m[a].0 == kk);
                    }
                },
                (Some(a), None) => {
                    assert(p[a].0 == m[a].0);
                },
                (None, Some(b)) => {
                    if b < m.len() {
                        assert(p[b].0 == m[b].0);
                    }
                },
                (None, None) => {
                    if q == k {
                        assert(p[m.len() as int].0 == kk);
                    }
                },
            }
        },
    }
}


/// Reading a node, writing the value, and reading again gives the same
/// value: whatever is read keeps, and what keeps reads back from its node.
pub proof fn lemma_read_write_read<T: FromYaml>(y: YamlV, x: T)
    requires
        T::readable(y),
        T::reads_as(y, x),
        T::writable(x),
    ensures
        T::readable(T::written(x)),
        T::reads_as(T::written(x), x),
{
    T::lemma_read_keeps(y, x);
    T::lemma_written_reads_back(x);
}

} // verus!
