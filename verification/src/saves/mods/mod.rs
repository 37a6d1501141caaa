//! The files that mods keep beside a save: `*-modsave`, `*-modsession` and
//! `modsettings-*`, all YAML documents.
//!
//! The entries of these documents are read one after another, and reading
//! stops at the first entry that is not of the expected shape, with a message
//! that says which.
use vstd::prelude::*;

pub mod auroras_additions;
pub mod collab_utils2;
pub mod files;

use crate::saves::util::FileTime;
use crate::utils::keyed::{key_pos, keys_unique, lemma_key_pos, lemma_put_unique, lemma_set_put_unique, no_repeats, put, put_str_key, set_insert_str, set_put};
use crate::utils::yaml::{mapping_put, yaml_view, entries_view, lemma_entries_view, lemma_yamls_view, mapping_get, yamls_view, Yaml, YamlParseError, YamlParseErrorV, YamlV};

verus! {

/// Folding `step` over `s` from the front, stopping at the first error.
pub open spec fn fold_read<A, X>(s: Seq<X>, init: A, step: spec_fn(A, X) -> Result<A, Seq<char>>) -> Result<A, Seq<char>>
    decreases s.len(),
{
    if s.len() == 0 {
        Ok(init)
    } else {
        match fold_read(s.drop_last(), init, step) {
            Err(e) => Err(e),
            Ok(a) => step(a, s.last()),
        }
    }
}

/// One more item of the fold.
pub proof fn lemma_fold_read_step<A, X>(s: Seq<X>, init: A, step: spec_fn(A, X) -> Result<A, Seq<char>>, i: int)
    requires
        0 <= i < s.len(),
    ensures
        fold_read(s.take(i + 1), init, step) == match fold_read(s.take(i), init, step) {
            Err(e) => Err(e),
            Ok(a) => step(a, s[i]),
        },
{
    assert(s.take(i + 1).drop_last() =~= s.take(i));
}

/// Once the fold has failed on a prefix, it fails with the same error on the whole.
pub proof fn lemma_fold_read_stops<A, X>(s: Seq<X>, init: A, step: spec_fn(A, X) -> Result<A, Seq<char>>, i: int)
    requires
        0 <= i <= s.len(),
        fold_read(s.take(i), init, step) is Err,
    ensures
        fold_read(s, init, step) == fold_read(s.take(i), init, step),
    decreases s.len() - i,
{
    if i < s.len() {
        lemma_fold_read_step(s, init, step, i);
        lemma_fold_read_stops(s, init, step, i + 1);
    } else {
        assert(s.take(i) =~= s);
    }
}

/// Whether `r` is what reading gives: the value read, or the error with the message.
pub open spec fn reads_into<T: DeepView>(r: Result<T, YamlParseError>, s: Result<T::V, Seq<char>>) -> bool {
    match s {
        Ok(v) => r matches Ok(x) && x.deep_view() == v,
        Err(m) => r matches Err(e) && e@ == YamlParseErrorV::Custom(m),
    }
}

/// Reading an entry whose key and value must both be strings.
pub open spec fn str_map_step(key_msg: Seq<char>, val_msg: Seq<char>) -> spec_fn(
    Seq<(Seq<char>, Seq<char>)>,
    (YamlV, YamlV),
) -> Result<Seq<(Seq<char>, Seq<char>)>, Seq<char>> {
    |acc: Seq<(Seq<char>, Seq<char>)>, e: (YamlV, YamlV)|
        match e.0 {
            YamlV::String(k) => match e.1 {
                YamlV::String(v) => Ok(put(acc, k, v)),
                _ => Err(val_msg),
            },
            _ => Err(key_msg),
        }
}

/// Reading an entry whose key must be a string, keeping its value as it is.
pub open spec fn yaml_map_step(key_msg: Seq<char>) -> spec_fn(Seq<(Seq<char>, YamlV)>, (YamlV, YamlV)) -> Result<
    Seq<(Seq<char>, YamlV)>,
    Seq<char>,
> {
    |acc: Seq<(Seq<char>, YamlV)>, e: (YamlV, YamlV)|
        match e.0 {
            YamlV::String(k) => Ok(put(acc, k, e.1)),
            _ => Err(key_msg),
        }
}

/// Reading an entry whose key must be a string and whose value must be a
/// mapping of strings to strings.
pub open spec fn nested_map_step(
    key_msg: Seq<char>,
    map_msg: Seq<char>,
    inner_key_msg: Seq<char>,
    inner_val_msg: Seq<char>,
) -> spec_fn(Seq<(Seq<char>, Seq<(Seq<char>, Seq<char>)>)>, (YamlV, YamlV)) -> Result<
    Seq<(Seq<char>, Seq<(Seq<char>, Seq<char>)>)>,
    Seq<char>,
> {
    |acc: Seq<(Seq<char>, Seq<(Seq<char>, Seq<char>)>)>, e: (YamlV, YamlV)|
        match e.0 {
            YamlV::String(k) => match e.1 {
                YamlV::Mapping(m) => match fold_read(m, Seq::empty(), str_map_step(inner_key_msg, inner_val_msg)) {
                    Ok(inner) => Ok(put(acc, k, inner)),
                    Err(x) => Err(x),
                },
                _ => Err(map_msg),
            },
            _ => Err(key_msg),
        }
}

/// Reading an entry whose key must be a string and whose value must be an
/// integer, a play time in hundreds of nanoseconds.
pub open spec fn time_map_step(key_msg: Seq<char>, val_msg: Seq<char>) -> spec_fn(
    Seq<(Seq<char>, u64)>,
    (YamlV, YamlV),
) -> Result<Seq<(Seq<char>, u64)>, Seq<char>> {
    |acc: Seq<(Seq<char>, u64)>, e: (YamlV, YamlV)|
        match e.0 {
            YamlV::String(k) => match e.1 {
                YamlV::Integer(t) => Ok(put(acc, k, t as u64)),
                _ => Err(val_msg),
            },
            _ => Err(key_msg),
        }
}

/// Reading an item that must be a string into a set of strings.
pub open spec fn str_set_step(msg: Seq<char>) -> spec_fn(Seq<Seq<char>>, YamlV) -> Result<Seq<Seq<char>>, Seq<char>> {
    |acc: Seq<Seq<char>>, y: YamlV|
        match y {
            YamlV::String(s) => Ok(set_put(acc, s)),
            _ => Err(msg),
        }
}

/// Reading an item that must be a string into a list of strings.
pub open spec fn str_list_step(msg: Seq<char>) -> spec_fn(Seq<Seq<char>>, YamlV) -> Result<Seq<Seq<char>>, Seq<char>> {
    |acc: Seq<Seq<char>>, y: YamlV|
        match y {
            YamlV::String(s) => Ok(acc.push(s)),
            _ => Err(msg),
        }
}

/// The mapping under `key`, when the document has one there.
pub open spec fn field_mapping(y: YamlV, key: Seq<char>) -> Option<Seq<(YamlV, YamlV)>> {
    match mapping_get(y, key) {
        Some(YamlV::Mapping(m)) => Some(m),
        _ => None,
    }
}

/// The sequence under `key`, when the document has one there.
pub open spec fn field_sequence(y: YamlV, key: Seq<char>) -> Option<Seq<YamlV>> {
    match mapping_get(y, key) {
        Some(YamlV::Sequence(s)) => Some(s),
        _ => None,
    }
}

/// The boolean under `key`, when the document has one there.
pub open spec fn field_bool(y: YamlV, key: Seq<char>) -> Option<bool> {
    match mapping_get(y, key) {
        Some(YamlV::Boolean(b)) => Some(b),
        _ => None,
    }
}

/// The integer under `key`, when the document has one there.
pub open spec fn field_integer(y: YamlV, key: Seq<char>) -> Option<i64> {
    match mapping_get(y, key) {
        Some(YamlV::Integer(i)) => Some(i),
        _ => None,
    }
}

/// The mapping under `key`, or an error with `msg`.
pub fn get_mapping<'a>(yaml: &'a Yaml, key: &str, msg: &str) -> (r: Result<&'a Vec<(Yaml, Yaml)>, YamlParseError>)
    ensures
        match field_mapping(yaml@, key@) {
            Some(m) => r matches Ok(x) && entries_view(x@) == m,
            None => r matches Err(e) && e@ == YamlParseErrorV::Custom(msg@),
        },
{
    match yaml.as_mapping_get(key) {
        Some(v) => match v.as_mapping() {
            Some(m) => Ok(m),
            None => Err(YamlParseError::custom(msg)),
        },
        None => Err(YamlParseError::custom(msg)),
    }
}

/// The sequence under `key`, or an error with `msg`.
pub fn get_sequence<'a>(yaml: &'a Yaml, key: &str, msg: &str) -> (r: Result<&'a Vec<Yaml>, YamlParseError>)
    ensures
        match field_sequence(yaml@, key@) {
            Some(s) => r matches Ok(x) && yamls_view(x@) == s,
            None => r matches Err(e) && e@ == YamlParseErrorV::Custom(msg@),
        },
{
    match yaml.as_mapping_get(key) {
        Some(v) => match v.as_vec() {
            Some(s) => Ok(s),
            None => Err(YamlParseError::custom(msg)),
        },
        None => Err(YamlParseError::custom(msg)),
    }
}

/// The boolean under `key`, or an error with `msg`.
pub fn get_bool(yaml: &Yaml, key: &str, msg: &str) -> (r: Result<bool, YamlParseError>)
    ensures
        match field_bool(yaml@, key@) {
            Some(b) => r == Ok::<bool, YamlParseError>(b),
            None => r matches Err(e) && e@ == YamlParseErrorV::Custom(msg@),
        },
{
    match yaml.as_mapping_get(key) {
        Some(v) => match v.as_bool() {
            Some(b) => Ok(b),
            None => Err(YamlParseError::custom(msg)),
        },
        None => Err(YamlParseError::custom(msg)),
    }
}

/// The integer under `key`, or an error with `msg`.
pub fn get_integer(yaml: &Yaml, key: &str, msg: &str) -> (r: Result<i64, YamlParseError>)
    ensures
        match field_integer(yaml@, key@) {
            Some(i) => r == Ok::<i64, YamlParseError>(i),
            None => r matches Err(e) && e@ == YamlParseErrorV::Custom(msg@),
        },
{
    match yaml.as_mapping_get(key) {
        Some(v) => match v.as_integer() {
            Some(i) => Ok(i),
            None => Err(YamlParseError::custom(msg)),
        },
        None => Err(YamlParseError::custom(msg)),
    }
}

/// Reads a mapping whose keys and values must be strings.
pub fn read_str_map(m: &Vec<(Yaml, Yaml)>, key_msg: &str, val_msg: &str) -> (r: Result<
    Vec<(String, String)>,
    YamlParseError,
>)
    ensures
        reads_into(r, fold_read(entries_view(m@), Seq::empty(), str_map_step(key_msg@, val_msg@))),
{
    let ghost ev = entries_view(m@);
    let ghost step = str_map_step(key_msg@, val_msg@);
    proof {
        lemma_entries_view(m@);
        assert(ev.take(0) =~= Seq::<(YamlV, YamlV)>::empty());
    }
    let mut out: Vec<(String, String)> = Vec::new();
    assert(out.deep_view() =~= Seq::empty());
    for i in 0..m.len()
        invariant
            ev == entries_view(m@),
            step == str_map_step(key_msg@, val_msg@),
            ev.len() == m@.len(),
            forall|j: int| 0 <= j < m@.len() ==> #[trigger] ev[j] == (m@[j].0@, m@[j].1@),
            fold_read(ev.take(i as int), Seq::empty(), step) == Ok::<_, Seq<char>>(out.deep_view()),
    {
        proof {
            lemma_fold_read_step(ev, Seq::empty(), step, i as int);
        }
        let k = match m[i].0.as_str() {
            Some(k) => k,
            None => {
                proof {
                    lemma_fold_read_stops(ev, Seq::empty(), step, i + 1);
                }
                return Err(YamlParseError::custom(key_msg));
            },
        };
        let v = match m[i].1.as_str() {
            Some(v) => v,
            None => {
                proof {
                    lemma_fold_read_stops(ev, Seq::empty(), step, i + 1);
                }
                return Err(YamlParseError::custom(val_msg));
            },
        };
        put_str_key(&mut out, k.to_owned(), v.to_owned());
    }
    proof {
        assert(ev.take(ev.len() as int) =~= ev);
    }
    Ok(out)
}

/// Reads a mapping whose keys must be strings, keeping each value as it is.
pub fn read_yaml_map(m: &Vec<(Yaml, Yaml)>, key_msg: &str) -> (r: Result<Vec<(String, Yaml)>, YamlParseError>)
    ensures
        reads_into(r, fold_read(entries_view(m@), Seq::empty(), yaml_map_step(key_msg@))),
{
    let ghost ev = entries_view(m@);
    let ghost step = yaml_map_step(key_msg@);
    proof {
        lemma_entries_view(m@);
        assert(ev.take(0) =~= Seq::<(YamlV, YamlV)>::empty());
    }
    let mut out: Vec<(String, Yaml)> = Vec::new();
    assert(out.deep_view() =~= Seq::empty());
    for i in 0..m.len()
        invariant
            ev == entries_view(m@),
            step == yaml_map_step(key_msg@),
            ev.len() == m@.len(),
            forall|j: int| 0 <= j < m@.len() ==> #[trigger] ev[j] == (m@[j].0@, m@[j].1@),
            fold_read(ev.take(i as int), Seq::empty(), step) == Ok::<_, Seq<char>>(out.deep_view()),
    {
        proof {
            lemma_fold_read_step(ev, Seq::empty(), step, i as int);
        }
        let k = match m[i].0.as_str() {
            Some(k) => k,
            None => {
                proof {
                    lemma_fold_read_stops(ev, Seq::empty(), step, i + 1);
                }
                return Err(YamlParseError::custom(key_msg));
            },
        };
        put_str_key(&mut out, k.to_owned(), m[i].1.duplicate());
    }
    proof {
        assert(ev.take(ev.len() as int) =~= ev);
    }
    Ok(out)
}

/// Reads a mapping whose keys must be strings and whose values must be
/// mappings of strings to strings.
pub fn read_nested_map(
    m: &Vec<(Yaml, Yaml)>,
    key_msg: &str,
    map_msg: &str,
    inner_key_msg: &str,
    inner_val_msg: &str,
) -> (r: Result<Vec<(String, Vec<(String, String)>)>, YamlParseError>)
    ensures
        reads_into(
            r,
            fold_read(
                entries_view(m@),
                Seq::empty(),
                nested_map_step(key_msg@, map_msg@, inner_key_msg@, inner_val_msg@),
            ),
        ),
{
    let ghost ev = entries_view(m@);
    let ghost step = nested_map_step(key_msg@, map_msg@, inner_key_msg@, inner_val_msg@);
    proof {
        lemma_entries_view(m@);
        assert(ev.take(0) =~= Seq::<(YamlV, YamlV)>::empty());
    }
    let mut out: Vec<(String, Vec<(String, String)>)> = Vec::new();
    assert(out.deep_view() =~= Seq::empty());
    for i in 0..m.len()
        invariant
            ev == entries_view(m@),
            step == nested_map_step(key_msg@, map_msg@, inner_key_msg@, inner_val_msg@),
            ev.len() == m@.len(),
            forall|j: int| 0 <= j < m@.len() ==> #[trigger] ev[j] == (m@[j].0@, m@[j].1@),
            fold_read(ev.take(i as int), Seq::empty(), step) == Ok::<_, Seq<char>>(out.deep_view()),
    {
        proof {
            lemma_fold_read_step(ev, Seq::empty(), step, i as int);
        }
        let k = match m[i].0.as_str() {
            Some(k) => k,
            None => {
                proof {
                    lemma_fold_read_stops(ev, Seq::empty(), step, i + 1);
                }
                return Err(YamlParseError::custom(key_msg));
            },
        };
        let inner = match m[i].1.as_mapping() {
            Some(inner) => inner,
            None => {
                proof {
                    lemma_fold_read_stops(ev, Seq::empty(), step, i + 1);
                }
                return Err(YamlParseError::custom(map_msg));
            },
        };
        let data = match read_str_map(inner, inner_key_msg, inner_val_msg) {
            Ok(data) => data,
            Err(e) => {
                proof {
                    lemma_fold_read_stops(ev, Seq::empty(), step, i + 1);
                }
                return Err(e);
            },
        };
        put_str_key(&mut out, k.to_owned(), data);
    }
    proof {
        assert(ev.take(ev.len() as int) =~= ev);
    }
    Ok(out)
}

/// Reads a mapping whose keys must be strings and whose values must be
/// integers, play times in hundreds of nanoseconds.
pub fn read_time_map(m: &Vec<(Yaml, Yaml)>, key_msg: &str, val_msg: &str) -> (r: Result<
    Vec<(String, FileTime)>,
    YamlParseError,
>)
    ensures
        reads_into(r, fold_read(entries_view(m@), Seq::empty(), time_map_step(key_msg@, val_msg@))),
{
    let ghost ev = entries_view(m@);
    let ghost step = time_map_step(key_msg@, val_msg@);
    proof {
        lemma_entries_view(m@);
        assert(ev.take(0) =~= Seq::<(YamlV, YamlV)>::empty());
    }
    let mut out: Vec<(String, FileTime)> = Vec::new();
    assert(out.deep_view() =~= Seq::empty());
    for i in 0..m.len()
        invariant
            ev == entries_view(m@),
            step == time_map_step(key_msg@, val_msg@),
            ev.len() == m@.len(),
            forall|j: int| 0 <= j < m@.len() ==> #[trigger] ev[j] == (m@[j].0@, m@[j].1@),
            fold_read(ev.take(i as int), Seq::empty(), step) == Ok::<_, Seq<char>>(out.deep_view()),
    {
        proof {
            lemma_fold_read_step(ev, Seq::empty(), step, i as int);
        }
        let k = match m[i].0.as_str() {
            Some(k) => k,
            None => {
                proof {
                    lemma_fold_read_stops(ev, Seq::empty(), step, i + 1);
                }
                return Err(YamlParseError::custom(key_msg));
            },
        };
        let t = match m[i].1.as_integer() {
            Some(t) => t,
            None => {
                proof {
                    lemma_fold_read_stops(ev, Seq::empty(), step, i + 1);
                }
                return Err(YamlParseError::custom(val_msg));
            },
        };
        put_str_key(&mut out, k.to_owned(), FileTime(#[verifier::truncate] (t as u64)));
    }
    proof {
        assert(ev.take(ev.len() as int) =~= ev);
    }
    Ok(out)
}

/// Reads a sequence whose items must be strings into a set, each string once.
pub fn read_str_set(s: &Vec<Yaml>, msg: &str) -> (r: Result<Vec<String>, YamlParseError>)
    ensures
        reads_into(r, fold_read(yamls_view(s@), Seq::empty(), str_set_step(msg@))),
{
    let ghost sv = yamls_view(s@);
    let ghost step = str_set_step(msg@);
    proof {
        lemma_yamls_view(s@);
        assert(sv.take(0) =~= Seq::<YamlV>::empty());
    }
    let mut out: Vec<String> = Vec::new();
    assert(out.deep_view() =~= Seq::empty());
    for i in 0..s.len()
        invariant
            sv == yamls_view(s@),
            step == str_set_step(msg@),
            sv.len() == s@.len(),
            forall|j: int| 0 <= j < s@.len() ==> #[trigger] sv[j] == s@[j]@,
            fold_read(sv.take(i as int), Seq::empty(), step) == Ok::<_, Seq<char>>(out.deep_view()),
    {
        proof {
            lemma_fold_read_step(sv, Seq::empty(), step, i as int);
        }
        let x = match s[i].as_str() {
            Some(x) => x,
            None => {
                proof {
                    lemma_fold_read_stops(sv, Seq::empty(), step, i + 1);
                }
                return Err(YamlParseError::custom(msg));
            },
        };
        set_insert_str(&mut out, x.to_owned());
    }
    proof {
        assert(sv.take(sv.len() as int) =~= sv);
    }
    Ok(out)
}

/// Reads a sequence whose items must be strings into a list.
pub fn read_str_list(s: &Vec<Yaml>, msg: &str) -> (r: Result<Vec<String>, YamlParseError>)
    ensures
        reads_into(r, fold_read(yamls_view(s@), Seq::empty(), str_list_step(msg@))),
{
    let ghost sv = yamls_view(s@);
    let ghost step = str_list_step(msg@);
    proof {
        lemma_yamls_view(s@);
        assert(sv.take(0) =~= Seq::<YamlV>::empty());
    }
    let mut out: Vec<String> = Vec::new();
    assert(out.deep_view() =~= Seq::empty());
    for i in 0..s.len()
        invariant
            sv == yamls_view(s@),
            step == str_list_step(msg@),
            sv.len() == s@.len(),
            forall|j: int| 0 <= j < s@.len() ==> #[trigger] sv[j] == s@[j]@,
            fold_read(sv.take(i as int), Seq::empty(), step) == Ok::<_, Seq<char>>(out.deep_view()),
    {
        proof {
            lemma_fold_read_step(sv, Seq::empty(), step, i as int);
        }
        let x = match s[i].as_str() {
            Some(x) => x,
            None => {
                proof {
                    lemma_fold_read_stops(sv, Seq::empty(), step, i + 1);
                }
                return Err(YamlParseError::custom(msg));
            },
        };
        let ghost before = out.deep_view();
        out.push(x.to_owned());
        proof {
            assert(out.deep_view() =~= before.push(x@));
        }
    }
    proof {
        assert(sv.take(sv.len() as int) =~= sv);
    }
    Ok(out)
}


/// Reading the mapping under `key` entry by entry, or `missing` when there is none.
pub open spec fn read_field_map<A>(
    y: YamlV,
    key: Seq<char>,
    missing: Seq<char>,
    step: spec_fn(A, (YamlV, YamlV)) -> Result<A, Seq<char>>,
    init: A,
) -> Result<A, Seq<char>> {
    match field_mapping(y, key) {
        Some(m) => fold_read(m, init, step),
        None => Err(missing),
    }
}

/// Reading the sequence under `key` item by item, or `missing` when there is none.
pub open spec fn read_field_seq<A>(
    y: YamlV,
    key: Seq<char>,
    missing: Seq<char>,
    step: spec_fn(A, YamlV) -> Result<A, Seq<char>>,
    init: A,
) -> Result<A, Seq<char>> {
    match field_sequence(y, key) {
        Some(s) => fold_read(s, init, step),
        None => Err(missing),
    }
}

/// Reading the boolean under `key`, or `missing` when there is none.
pub open spec fn read_field_bool(y: YamlV, key: Seq<char>, missing: Seq<char>) -> Result<bool, Seq<char>> {
    match field_bool(y, key) {
        Some(b) => Ok(b),
        None => Err(missing),
    }
}

/// The mapping that a list of string-keyed entries is written as: each
/// entry put in turn, its value written by `f`.
pub open spec fn written_map<V>(s: Seq<(Seq<char>, V)>, f: spec_fn(V) -> YamlV) -> Seq<(YamlV, YamlV)>
    decreases s.len(),
{
    if s.len() == 0 {
        Seq::empty()
    } else {
        put(written_map(s.drop_last(), f), YamlV::String(s.last().0), f(s.last().1))
    }
}

/// How a string is written.
pub open spec fn str_node() -> spec_fn(Seq<char>) -> YamlV {
    |s: Seq<char>| YamlV::String(s)
}

/// How a mapping of strings to strings is written.
pub open spec fn str_map_node() -> spec_fn(Seq<(Seq<char>, Seq<char>)>) -> YamlV {
    |m: Seq<(Seq<char>, Seq<char>)>| YamlV::Mapping(written_map(m, str_node()))
}

/// How a play time is written: its hundreds of nanoseconds, as a signed number.
pub open spec fn time_node() -> spec_fn(u64) -> YamlV {
    |t: u64| YamlV::Integer(t as i64)
}

/// How a node kept as it is, is written.
pub open spec fn same_node() -> spec_fn(YamlV) -> YamlV {
    |y: YamlV| y
}

/// The sequence that a list of strings is written as.
pub open spec fn written_list(s: Seq<Seq<char>>) -> Seq<YamlV> {
    Seq::new(s.len(), |i: int| YamlV::String(s[i]))
}

/// Writes a list of string-keyed entries as a mapping, each value written by `f`.
pub proof fn lemma_written_map_step<V>(s: Seq<(Seq<char>, V)>, f: spec_fn(V) -> YamlV, i: int)
    requires
        0 <= i < s.len(),
    ensures
        written_map(s.take(i + 1), f) == put(written_map(s.take(i), f), YamlV::String(s[i].0), f(s[i].1)),
{
    assert(s.take(i + 1).drop_last() =~= s.take(i));
}

/// Writes a mapping of strings to strings.
pub fn write_str_map(s: &Vec<(String, String)>) -> (r: Vec<(Yaml, Yaml)>)
    ensures
        entries_view(r@) == written_map(s.deep_view(), str_node()),
{
    let ghost sv = s.deep_view();
    let mut out: Vec<(Yaml, Yaml)> = Vec::new();
    proof {
        assert(sv.take(0) =~= Seq::<(Seq<char>, Seq<char>)>::empty());
    }
    for i in 0..s.len()
        invariant
            sv == s.deep_view(),
            entries_view(out@) == written_map(sv.take(i as int), str_node()),
    {
        proof {
            lemma_written_map_step(sv, str_node(), i as int);
        }
        mapping_put(&mut out, s[i].0.clone(), Yaml::string(s[i].1.clone()));
    }
    proof {
        assert(sv.take(sv.len() as int) =~= sv);
    }
    out
}

/// Writes a mapping of strings to nodes kept as they are.
pub fn write_yaml_map(s: &Vec<(String, Yaml)>) -> (r: Vec<(Yaml, Yaml)>)
    ensures
        entries_view(r@) == written_map(s.deep_view(), same_node()),
{
    let ghost sv = s.deep_view();
    let mut out: Vec<(Yaml, Yaml)> = Vec::new();
    proof {
        assert(sv.take(0) =~= Seq::<(Seq<char>, YamlV)>::empty());
    }
    for i in 0..s.len()
        invariant
            sv == s.deep_view(),
            entries_view(out@) == written_map(sv.take(i as int), same_node()),
    {
        proof {
            lemma_written_map_step(sv, same_node(), i as int);
        }
        mapping_put(&mut out, s[i].0.clone(), s[i].1.duplicate());
    }
    proof {
        assert(sv.take(sv.len() as int) =~= sv);
    }
    out
}

/// Writes a mapping of strings to mappings of strings to strings.
pub fn write_nested_map(s: &Vec<(String, Vec<(String, String)>)>) -> (r: Vec<(Yaml, Yaml)>)
    ensures
        entries_view(r@) == written_map(s.deep_view(), str_map_node()),
{
    let ghost sv = s.deep_view();
    let mut out: Vec<(Yaml, Yaml)> = Vec::new();
    proof {
        assert(sv.take(0) =~= Seq::<(Seq<char>, Seq<(Seq<char>, Seq<char>)>)>::empty());
    }
    for i in 0..s.len()
        invariant
            sv == s.deep_view(),
            entries_view(out@) == written_map(sv.take(i as int), str_map_node()),
    {
        proof {
            lemma_written_map_step(sv, str_map_node(), i as int);
        }
        let inner = write_str_map(&s[i].1);
        mapping_put(&mut out, s[i].0.clone(), Yaml::hash(inner));
    }
    proof {
        assert(sv.take(sv.len() as int) =~= sv);
    }
    out
}

/// Writes a mapping of strings to play times.
pub fn write_time_map(s: &Vec<(String, FileTime)>) -> (r: Vec<(Yaml, Yaml)>)
    ensures
        entries_view(r@) == written_map(s.deep_view(), time_node()),
{
    let ghost sv = s.deep_view();
    let mut out: Vec<(Yaml, Yaml)> = Vec::new();
    proof {
        assert(sv.take(0) =~= Seq::<(Seq<char>, u64)>::empty());
    }
    for i in 0..s.len()
        invariant
            sv == s.deep_view(),
            entries_view(out@) == written_map(sv.take(i as int), time_node()),
    {
        proof {
            lemma_written_map_step(sv, time_node(), i as int);
        }
        mapping_put(&mut out, s[i].0.clone(), Yaml::integer(#[verifier::truncate] (s[i].1.0 as i64)));
    }
    proof {
        assert(sv.take(sv.len() as int) =~= sv);
    }
    out
}

/// Writes a list of strings as a sequence.
pub fn write_str_list(s: &Vec<String>) -> (r: Vec<Yaml>)
    ensures
        yamls_view(r@) == written_list(s.deep_view()),
{
    let mut out: Vec<Yaml> = Vec::new();
    let mut i: usize = 0;
    while i < s.len()
        invariant
            i <= s@.len(),
            out@.len() == i,
            forall|j: int| 0 <= j < i ==> #[trigger] out@[j]@ == YamlV::String(s@[j]@),
        decreases s@.len() - i,
    {
        out.push(Yaml::string(s[i].clone()));
        i = i + 1;
    }
    proof {
        lemma_yamls_view(out@);
        let ghost sd = s.deep_view();
        assert forall|j: int| 0 <= j < s@.len() implies #[trigger] yamls_view(out@)[j] == YamlV::String(sd[j]) by {
            assert(sd[j] == s@[j]@);
            assert(out@[j]@ == YamlV::String(s@[j]@));
        }
        assert(yamls_view(out@) =~= written_list(s.deep_view()));
    }
    out
}


/// Reads the mapping of strings to strings under `key`.
pub fn field_str_map(yaml: &Yaml, key: &str, missing: &str, key_msg: &str, val_msg: &str) -> (r: Result<
    Vec<(String, String)>,
    YamlParseError,
>)
    ensures
        reads_into(r, read_field_map(yaml@, key@, missing@, str_map_step(key_msg@, val_msg@), Seq::empty())),
{
    match get_mapping(yaml, key, missing) {
        Ok(m) => read_str_map(m, key_msg, val_msg),
        Err(e) => Err(e),
    }
}

/// Reads the mapping of strings to nodes under `key`.
pub fn field_yaml_map(yaml: &Yaml, key: &str, missing: &str, key_msg: &str) -> (r: Result<
    Vec<(String, Yaml)>,
    YamlParseError,
>)
    ensures
        reads_into(r, read_field_map(yaml@, key@, missing@, yaml_map_step(key_msg@), Seq::empty())),
{
    match get_mapping(yaml, key, missing) {
        Ok(m) => read_yaml_map(m, key_msg),
        Err(e) => Err(e),
    }
}

/// Reads the mapping of strings to mappings of strings to strings under `key`.
pub fn field_nested_map(
    yaml: &Yaml,
    key: &str,
    missing: &str,
    key_msg: &str,
    map_msg: &str,
    inner_key_msg: &str,
    inner_val_msg: &str,
) -> (r: Result<Vec<(String, Vec<(String, String)>)>, YamlParseError>)
    ensures
        reads_into(
            r,
            read_field_map(
                yaml@,
                key@,
                missing@,
                nested_map_step(key_msg@, map_msg@, inner_key_msg@, inner_val_msg@),
                Seq::empty(),
            ),
        ),
{
    match get_mapping(yaml, key, missing) {
        Ok(m) => read_nested_map(m, key_msg, map_msg, inner_key_msg, inner_val_msg),
        Err(e) => Err(e),
    }
}

/// Reads the mapping of strings to play times under `key`.
pub fn field_time_map(yaml: &Yaml, key: &str, missing: &str, key_msg: &str, val_msg: &str) -> (r: Result<
    Vec<(String, FileTime)>,
    YamlParseError,
>)
    ensures
        reads_into(r, read_field_map(yaml@, key@, missing@, time_map_step(key_msg@, val_msg@), Seq::empty())),
{
    match get_mapping(yaml, key, missing) {
        Ok(m) => read_time_map(m, key_msg, val_msg),
        Err(e) => Err(e),
    }
}

/// Reads the set of strings under `key`.
pub fn field_str_set(yaml: &Yaml, key: &str, missing: &str, msg: &str) -> (r: Result<Vec<String>, YamlParseError>)
    ensures
        reads_into(r, read_field_seq(yaml@, key@, missing@, str_set_step(msg@), Seq::empty())),
{
    match get_sequence(yaml, key, missing) {
        Ok(s) => read_str_set(s, msg),
        Err(e) => Err(e),
    }
}

/// Reads the list of strings under `key`.
pub fn field_str_list(yaml: &Yaml, key: &str, missing: &str, msg: &str) -> (r: Result<Vec<String>, YamlParseError>)
    ensures
        reads_into(r, read_field_seq(yaml@, key@, missing@, str_list_step(msg@), Seq::empty())),
{
    match get_sequence(yaml, key, missing) {
        Ok(s) => read_str_list(s, msg),
        Err(e) => Err(e),
    }
}


/// Written with no key twice, each entry of a list becomes an entry of the mapping, in order.
pub proof fn lemma_written_map_plain<V>(s: Seq<(Seq<char>, V)>, f: spec_fn(V) -> YamlV)
    requires
        keys_unique(s),
    ensures
        written_map(s, f) == Seq::new(s.len(), |i: int| (YamlV::String(s[i].0), f(s[i].1))),
    decreases s.len(),
{
    if s.len() > 0 {
        let t = s.drop_last();
        assert(keys_unique(t));
        lemma_written_map_plain(t, f);
        let w = written_map(t, f);
        let k = YamlV::String(s.last().0);
        lemma_key_pos(w, k);
        if key_pos(w, k) is Some {
            let p = key_pos(w, k)->Some_0;
            assert(w[p].0 == YamlV::String(t[p].0));
            assert(s[p].0 == s[s.len() - 1].0);
        }
        assert(written_map(s, f) =~= Seq::new(s.len(), |i: int| (YamlV::String(s[i].0), f(s[i].1))));
    }
}

/// With no key twice, putting each entry in turn adds it at the end.
proof fn lemma_put_fresh<V>(t: Seq<(Seq<char>, V)>, k: Seq<char>, v: V)
    requires
        forall|j: int| 0 <= j < t.len() ==> #[trigger] t[j].0 != k,
    ensures
        put(t, k, v) == t.push((k, v)),
{
    lemma_key_pos(t, k);
}

/// The last key of a list with no key twice is not among the others.
proof fn lemma_last_fresh<V>(s: Seq<(Seq<char>, V)>)
    requires
        keys_unique(s),
        s.len() > 0,
    ensures
        forall|j: int| 0 <= j < s.len() - 1 ==> #[trigger] s.drop_last()[j].0 != s.last().0,
{
    assert forall|j: int| 0 <= j < s.len() - 1 implies #[trigger] s.drop_last()[j].0 != s.last().0 by {
        assert(s.drop_last()[j] == s[j]);
    }
}

/// A mapping of strings to strings, once written, reads back as itself.
pub proof fn lemma_str_map_reads_back(s: Seq<(Seq<char>, Seq<char>)>, key_msg: Seq<char>, val_msg: Seq<char>)
    requires
        keys_unique(s),
    ensures
        fold_read(written_map(s, str_node()), Seq::empty(), str_map_step(key_msg, val_msg)) == Ok::<_, Seq<char>>(s),
    decreases s.len(),
{
    lemma_written_map_plain(s, str_node());
    if s.len() == 0 {
        assert(written_map(s, str_node()).len() == 0);
        assert(s =~= Seq::<(Seq<char>, Seq<char>)>::empty());
    } else {
        let t = s.drop_last();
        assert(keys_unique(t));
        lemma_str_map_reads_back(t, key_msg, val_msg);
        lemma_written_map_plain(t, str_node());
        let w = written_map(s, str_node());
        assert(w.drop_last() =~= written_map(t, str_node()));
        lemma_last_fresh(s);
        lemma_put_fresh(t, s.last().0, s.last().1);
        assert(t.push(s.last()) =~= s);
    }
}

/// A mapping of strings to kept nodes, once written, reads back as itself.
pub proof fn lemma_yaml_map_reads_back(s: Seq<(Seq<char>, YamlV)>, key_msg: Seq<char>)
    requires
        keys_unique(s),
    ensures
        fold_read(written_map(s, same_node()), Seq::empty(), yaml_map_step(key_msg)) == Ok::<_, Seq<char>>(s),
    decreases s.len(),
{
    lemma_written_map_plain(s, same_node());
    if s.len() == 0 {
        assert(s =~= Seq::<(Seq<char>, YamlV)>::empty());
    } else {
        let t = s.drop_last();
        assert(keys_unique(t));
        lemma_yaml_map_reads_back(t, key_msg);
        lemma_written_map_plain(t, same_node());
        let w = written_map(s, same_node());
        assert(w.drop_last() =~= written_map(t, same_node()));
        lemma_last_fresh(s);
        lemma_put_fresh(t, s.last().0, s.last().1);
        assert(t.push(s.last()) =~= s);
    }
}

/// A mapping of strings to mappings of strings to strings, once written,
/// reads back as itself.
pub proof fn lemma_nested_map_reads_back(
    s: Seq<(Seq<char>, Seq<(Seq<char>, Seq<char>)>)>,
    key_msg: Seq<char>,
    map_msg: Seq<char>,
    inner_key_msg: Seq<char>,
    inner_val_msg: Seq<char>,
)
    requires
        keys_unique(s),
        forall|i: int| 0 <= i < s.len() ==> keys_unique(#[trigger] s[i].1),
    ensures
        fold_read(
            written_map(s, str_map_node()),
            Seq::empty(),
            nested_map_step(key_msg, map_msg, inner_key_msg, inner_val_msg),
        ) == Ok::<_, Seq<char>>(s),
    decreases s.len(),
{
    lemma_written_map_plain(s, str_map_node());
    if s.len() == 0 {
        assert(s =~= Seq::<(Seq<char>, Seq<(Seq<char>, Seq<char>)>)>::empty());
    } else {
        let t = s.drop_last();
        assert(keys_unique(t));
        assert forall|i: int| 0 <= i < t.len() implies keys_unique(#[trigger] t[i].1) by {
            assert(t[i] == s[i]);
        }
        lemma_nested_map_reads_back(t, key_msg, map_msg, inner_key_msg, inner_val_msg);
        lemma_written_map_plain(t, str_map_node());
        let w = written_map(s, str_map_node());
        assert(w.drop_last() =~= written_map(t, str_map_node()));
        assert(keys_unique(s.last().1));
        lemma_str_map_reads_back(s.last().1, inner_key_msg, inner_val_msg);
        lemma_last_fresh(s);
        lemma_put_fresh(t, s.last().0, s.last().1);
        assert(t.push(s.last()) =~= s);
    }
}

/// A mapping of strings to play times, once written, reads back as itself.
pub proof fn lemma_time_map_reads_back(s: Seq<(Seq<char>, u64)>, key_msg: Seq<char>, val_msg: Seq<char>)
    requires
        keys_unique(s),
    ensures
        fold_read(written_map(s, time_node()), Seq::empty(), time_map_step(key_msg, val_msg)) == Ok::<_, Seq<char>>(s),
    decreases s.len(),
{
    lemma_written_map_plain(s, time_node());
    if s.len() == 0 {
        assert(s =~= Seq::<(Seq<char>, u64)>::empty());
    } else {
        let t = s.drop_last();
        assert(keys_unique(t));
        lemma_time_map_reads_back(t, key_msg, val_msg);
        lemma_written_map_plain(t, time_node());
        let w = written_map(s, time_node());
        assert(w.drop_last() =~= written_map(t, time_node()));
        let x = s.last().1;
        assert(((x as i64) as u64) == x) by (bit_vector);
        lemma_last_fresh(s);
        lemma_put_fresh(t, s.last().0, s.last().1);
        assert(t.push(s.last()) =~= s);
    }
}

/// A set of strings, once written, reads back as itself.
pub proof fn lemma_str_set_reads_back(s: Seq<Seq<char>>, msg: Seq<char>)
    requires
        no_repeats(s),
    ensures
        fold_read(written_list(s), Seq::empty(), str_set_step(msg)) == Ok::<_, Seq<char>>(s),
    decreases s.len(),
{
    if s.len() == 0 {
        assert(s =~= Seq::<Seq<char>>::empty());
    } else {
        let t = s.drop_last();
        assert(no_repeats(t));
        lemma_str_set_reads_back(t, msg);
        assert(written_list(s).drop_last() =~= written_list(t));
        if t.contains(s.last()) {
            let j = choose|j: int| 0 <= j < t.len() && t[j] == s.last();
            assert(s[j] == s[s.len() - 1]);
        }
        assert(t.push(s.last()) =~= s);
    }
}

/// A list of strings, once written, reads back as itself.
pub proof fn lemma_str_list_reads_back(s: Seq<Seq<char>>, msg: Seq<char>)
    ensures
        fold_read(written_list(s), Seq::empty(), str_list_step(msg)) == Ok::<_, Seq<char>>(s),
    decreases s.len(),
{
    if s.len() == 0 {
        assert(s =~= Seq::<Seq<char>>::empty());
    } else {
        let t = s.drop_last();
        lemma_str_list_reads_back(t, msg);
        assert(written_list(s).drop_last() =~= written_list(t));
        assert(t.push(s.last()) =~= s);
    }
}


/// What reading a mapping of strings to strings gives holds no key twice.
pub proof fn lemma_str_map_read_unique(m: Seq<(YamlV, YamlV)>, key_msg: Seq<char>, val_msg: Seq<char>)
    ensures
        fold_read(m, Seq::empty(), str_map_step(key_msg, val_msg)) matches Ok(s) ==> keys_unique(s),
    decreases m.len(),
{
    if m.len() > 0 {
        lemma_str_map_read_unique(m.drop_last(), key_msg, val_msg);
        if let Ok(a) = fold_read(m.drop_last(), Seq::empty(), str_map_step(key_msg, val_msg)) {
            if let (YamlV::String(k), YamlV::String(v)) = (m.last().0, m.last().1) {
                lemma_put_unique(a, k, v);
            }
        }
    }
}

/// What reading a mapping of strings to kept nodes gives holds no key twice.
pub proof fn lemma_yaml_map_read_unique(m: Seq<(YamlV, YamlV)>, key_msg: Seq<char>)
    ensures
        fold_read(m, Seq::empty(), yaml_map_step(key_msg)) matches Ok(s) ==> keys_unique(s),
    decreases m.len(),
{
    if m.len() > 0 {
        lemma_yaml_map_read_unique(m.drop_last(), key_msg);
        if let Ok(a) = fold_read(m.drop_last(), Seq::empty(), yaml_map_step(key_msg)) {
            if let YamlV::String(k) = m.last().0 {
                lemma_put_unique(a, k, m.last().1);
            }
        }
    }
}

/// What reading a mapping of strings to play times gives holds no key twice.
pub proof fn lemma_time_map_read_unique(m: Seq<(YamlV, YamlV)>, key_msg: Seq<char>, val_msg: Seq<char>)
    ensures
        fold_read(m, Seq::empty(), time_map_step(key_msg, val_msg)) matches Ok(s) ==> keys_unique(s),
    decreases m.len(),
{
    if m.len() > 0 {
        lemma_time_map_read_unique(m.drop_last(), key_msg, val_msg);
        if let Ok(a) = fold_read(m.drop_last(), Seq::empty(), time_map_step(key_msg, val_msg)) {
            if let (YamlV::String(k), YamlV::Integer(t)) = (m.last().0, m.last().1) {
                lemma_put_unique(a, k, t as u64);
            }
        }
    }
}

/// Putting an entry whose value holds no key twice into a list whose values
/// hold no key twice keeps that so.
proof fn lemma_put_inner_unique<K>(a: Seq<(K, Seq<(Seq<char>, Seq<char>)>)>, k: K, v: Seq<(Seq<char>, Seq<char>)>)
    requires
        forall|i: int| 0 <= i < a.len() ==> keys_unique(#[trigger] a[i].1),
        keys_unique(v),
    ensures
        forall|i: int| 0 <= i < put(a, k, v).len() ==> keys_unique(#[trigger] put(a, k, v)[i].1),
{
    lemma_key_pos(a, k);
}

/// What reading a mapping of strings to mappings of strings to strings gives
/// holds no key twice, in it or in any of its values.
pub proof fn lemma_nested_map_read_unique(
    m: Seq<(YamlV, YamlV)>,
    key_msg: Seq<char>,
    map_msg: Seq<char>,
    inner_key_msg: Seq<char>,
    inner_val_msg: Seq<char>,
)
    ensures
        fold_read(m, Seq::empty(), nested_map_step(key_msg, map_msg, inner_key_msg, inner_val_msg)) matches Ok(s)
            ==> keys_unique(s) && forall|i: int| 0 <= i < s.len() ==> keys_unique(#[trigger] s[i].1),
    decreases m.len(),
{
    if m.len() > 0 {
        lemma_nested_map_read_unique(m.drop_last(), key_msg, map_msg, inner_key_msg, inner_val_msg);
        if let Ok(a) = fold_read(
            m.drop_last(),
            Seq::empty(),
            nested_map_step(key_msg, map_msg, inner_key_msg, inner_val_msg),
        ) {
            if let (YamlV::String(k), YamlV::Mapping(im)) = (m.last().0, m.last().1) {
                lemma_str_map_read_unique(im, inner_key_msg, inner_val_msg);
                if let Ok(inner) = fold_read(im, Seq::empty(), str_map_step(inner_key_msg, inner_val_msg)) {
                    lemma_put_unique(a, k, inner);
                    lemma_put_inner_unique(a, k, inner);
                }
            }
        }
    }
}

/// What reading a sequence of strings into a set gives holds nothing twice.
pub proof fn lemma_str_set_read_unique(s: Seq<YamlV>, msg: Seq<char>)
    ensures
        fold_read(s, Seq::empty(), str_set_step(msg)) matches Ok(r) ==> no_repeats(r),
    decreases s.len(),
{
    if s.len() > 0 {
        lemma_str_set_read_unique(s.drop_last(), msg);
        if let Ok(a) = fold_read(s.drop_last(), Seq::empty(), str_set_step(msg)) {
            if let YamlV::String(x) = s.last() {
                lemma_set_put_unique(a, x);
            }
        }
    }
}

} // verus!
