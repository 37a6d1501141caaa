//! The mod save of Aurora's Additions.
use vstd::prelude::*;

use crate::saves::mods::{
    lemma_str_map_read_unique,
    lemma_str_map_reads_back,
    field_mapping,
    fold_read,
    get_integer,
    get_mapping,
    lemma_fold_read_step,
    lemma_fold_read_stops,
    read_field_map,
    read_str_map,
    reads_into,
    same_node,
    str_map_node,
    str_map_step,
    str_node,
    field_integer,
    write_str_map,
};
use crate::utils::keyed::{key_pos, keys_unique, lemma_key_pos, lemma_put_unique, put, put_pair_key};
use crate::utils::text::{char_pos, lemma_char_pos, lemma_trimmed_idempotent, push_str, split_at_first, split_once, trim, trim_start, trimmed, white_space};
use crate::utils::yaml::{lemma_put_get, entries_view, mapping_put, lemma_entries_view, FromYaml, Yaml, YamlParseError, YamlParseErrorV, YamlV, YamlWriteError};

verus! {

/// The level and mode that a key such as `"Celeste/1-ForsakenCity, Normal"`
/// names: the text before the first comma, and the text after it trimmed.
pub open spec fn level_key(s: Seq<char>) -> Option<(Seq<char>, Seq<char>)> {
    match split_at_first(s, ',') {
        Some((sid, mode)) => Some((sid, trimmed(mode))),
        None => None,
    }
}

/// The key that a level and mode are written under.
pub open spec fn level_key_text(k: (Seq<char>, Seq<char>)) -> Seq<char> {
    k.0 + ", "@ + k.1
}

/// Reading an entry whose key must name a level and mode and whose value must be a string.
pub open spec fn level_str_step(key_msg: Seq<char>, fmt_msg: Seq<char>, val_msg: Seq<char>) -> spec_fn(
    Seq<((Seq<char>, Seq<char>), Seq<char>)>,
    (YamlV, YamlV),
) -> Result<Seq<((Seq<char>, Seq<char>), Seq<char>)>, Seq<char>> {
    |acc: Seq<((Seq<char>, Seq<char>), Seq<char>)>, e: (YamlV, YamlV)|
        match e.0 {
            YamlV::String(s) => match level_key(s) {
                Some(k) => match e.1 {
                    YamlV::String(v) => Ok(put(acc, k, v)),
                    _ => Err(val_msg),
                },
                None => Err(fmt_msg),
            },
            _ => Err(key_msg),
        }
}

/// Reading an entry whose key must name a level and mode, keeping its value as it is.
pub open spec fn level_yaml_step(key_msg: Seq<char>, fmt_msg: Seq<char>) -> spec_fn(
    Seq<((Seq<char>, Seq<char>), YamlV)>,
    (YamlV, YamlV),
) -> Result<Seq<((Seq<char>, Seq<char>), YamlV)>, Seq<char>> {
    |acc: Seq<((Seq<char>, Seq<char>), YamlV)>, e: (YamlV, YamlV)|
        match e.0 {
            YamlV::String(s) => match level_key(s) {
                Some(k) => Ok(put(acc, k, e.1)),
                None => Err(fmt_msg),
            },
            _ => Err(key_msg),
        }
}

/// Reading an entry whose key must name a level and mode and whose value
/// must be a mapping of strings to strings.
pub open spec fn level_nested_step(
    key_msg: Seq<char>,
    fmt_msg: Seq<char>,
    map_msg: Seq<char>,
    inner_key_msg: Seq<char>,
    inner_val_msg: Seq<char>,
) -> spec_fn(Seq<((Seq<char>, Seq<char>), Seq<(Seq<char>, Seq<char>)>)>, (YamlV, YamlV)) -> Result<
    Seq<((Seq<char>, Seq<char>), Seq<(Seq<char>, Seq<char>)>)>,
    Seq<char>,
> {
    |acc: Seq<((Seq<char>, Seq<char>), Seq<(Seq<char>, Seq<char>)>)>, e: (YamlV, YamlV)|
        match e.0 {
            YamlV::String(s) => match level_key(s) {
                Some(k) => match e.1 {
                    YamlV::Mapping(m) => match fold_read(m, Seq::empty(), str_map_step(inner_key_msg, inner_val_msg)) {
                        Ok(inner) => Ok(put(acc, k, inner)),
                        Err(x) => Err(x),
                    },
                    _ => Err(map_msg),
                },
                None => Err(fmt_msg),
            },
            _ => Err(key_msg),
        }
}

/// The level and mode a key names, or the error for a key that is not a
/// string or names none.
fn read_level_key(key: &Yaml, key_msg: &str, fmt_msg: &str) -> (r: Result<(String, String), YamlParseError>)
    ensures
        match key@ {
            YamlV::String(s) => match level_key(s) {
                Some(k) => r matches Ok(x) && x.0@ == k.0 && x.1@ == k.1,
                None => r matches Err(e) && e@ == YamlParseErrorV::Custom(fmt_msg@),
            },
            _ => r matches Err(e) && e@ == YamlParseErrorV::Custom(key_msg@),
        },
{
    let s = match key.as_str() {
        Some(s) => s,
        None => {
            return Err(YamlParseError::custom(key_msg));
        },
    };
    match split_once(s, ',') {
        Some((sid, mode)) => Ok((sid, trim(mode.as_str()))),
        None => Err(YamlParseError::custom(fmt_msg)),
    }
}

/// Reads a mapping keyed by level and mode whose values must be strings.
fn read_level_str_map(m: &Vec<(Yaml, Yaml)>, key_msg: &str, fmt_msg: &str, val_msg: &str) -> (r: Result<
    Vec<((String, String), String)>,
    YamlParseError,
>)
    ensures
        reads_into(r, fold_read(entries_view(m@), Seq::empty(), level_str_step(key_msg@, fmt_msg@, val_msg@))),
{
    let ghost ev = entries_view(m@);
    let ghost step = level_str_step(key_msg@, fmt_msg@, val_msg@);
    proof {
        lemma_entries_view(m@);
        assert(ev.take(0) =~= Seq::<(YamlV, YamlV)>::empty());
    }
    let mut out: Vec<((String, String), String)> = Vec::new();
    assert(out.deep_view() =~= Seq::empty());
    for i in 0..m.len()
        invariant
            ev == entries_view(m@),
            step == level_str_step(key_msg@, fmt_msg@, val_msg@),
            ev.len() == m@.len(),
            forall|j: int| 0 <= j < m@.len() ==> #[trigger] ev[j] == (m@[j].0@, m@[j].1@),
            fold_read(ev.take(i as int), Seq::empty(), step) == Ok::<_, Seq<char>>(out.deep_view()),
    {
        proof {
            lemma_fold_read_step(ev, Seq::empty(), step, i as int);
        }
        let k = match read_level_key(&m[i].0, key_msg, fmt_msg) {
            Ok(k) => k,
            Err(e) => {
                proof {
                    lemma_fold_read_stops(ev, Seq::empty(), step, i + 1);
                }
                return Err(e);
            },
        };
        let v = match m[i].1.as_str() {
            Some(v) => v,
            None => {
                proof {
                    lemma_fold_read_stops(ev, Seq::empty(), step, i + 1);
                }
                return Err(YamlParseError::custom(val_msg));
            },
        };
        put_pair_key(&mut out, k, v.to_owned());
    }
    proof {
        assert(ev.take(ev.len() as int) =~= ev);
    }
    Ok(out)
}

/// Reads a mapping keyed by level and mode, keeping each value as it is.
fn read_level_yaml_map(m: &Vec<(Yaml, Yaml)>, key_msg: &str, fmt_msg: &str) -> (r: Result<
    Vec<((String, String), Yaml)>,
    YamlParseError,
>)
    ensures
        reads_into(r, fold_read(entries_view(m@), Seq::empty(), level_yaml_step(key_msg@, fmt_msg@))),
{
    let ghost ev = entries_view(m@);
    let ghost step = level_yaml_step(key_msg@, fmt_msg@);
    proof {
        lemma_entries_view(m@);
        assert(ev.take(0) =~= Seq::<(YamlV, YamlV)>::empty());
    }
    let mut out: Vec<((String, String), Yaml)> = Vec::new();
    assert(out.deep_view() =~= Seq::empty());
    for i in 0..m.len()
        invariant
            ev == entries_view(m@),
            step == level_yaml_step(key_msg@, fmt_msg@),
            ev.len() == m@.len(),
            forall|j: int| 0 <= j < m@.len() ==> #[trigger] ev[j] == (m@[j].0@, m@[j].1@),
            fold_read(ev.take(i as int), Seq::empty(), step) == Ok::<_, Seq<char>>(out.deep_view()),
    {
        proof {
            lemma_fold_read_step(ev, Seq::empty(), step, i as int);
        }
        let k = match read_level_key(&m[i].0, key_msg, fmt_msg) {
            Ok(k) => k,
            Err(e) => {
                proof {
                    lemma_fold_read_stops(ev, Seq::empty(), step, i + 1);
                }
                return Err(e);
            },
        };
        put_pair_key(&mut out, k, m[i].1.duplicate());
    }
    proof {
        assert(ev.take(ev.len() as int) =~= ev);
    }
    Ok(out)
}

/// Reads a mapping keyed by level and mode whose values must be mappings
/// of strings to strings.
fn read_level_nested_map(
    m: &Vec<(Yaml, Yaml)>,
    key_msg: &str,
    fmt_msg: &str,
    map_msg: &str,
    inner_key_msg: &str,
    inner_val_msg: &str,
) -> (r: Result<Vec<((String, String), Vec<(String, String)>)>, YamlParseError>)
    ensures
        reads_into(
            r,
            fold_read(
                entries_view(m@),
                Seq::empty(),
                level_nested_step(key_msg@, fmt_msg@, map_msg@, inner_key_msg@, inner_val_msg@),
            ),
        ),
{
    let ghost ev = entries_view(m@);
    let ghost step = level_nested_step(key_msg@, fmt_msg@, map_msg@, inner_key_msg@, inner_val_msg@);
    proof {
        lemma_entries_view(m@);
        assert(ev.take(0) =~= Seq::<(YamlV, YamlV)>::empty());
    }
    let mut out: Vec<((String, String), Vec<(String, String)>)> = Vec::new();
    assert(out.deep_view() =~= Seq::empty());
    for i in 0..m.len()
        invariant
            ev == entries_view(m@),
            step == level_nested_step(key_msg@, fmt_msg@, map_msg@, inner_key_msg@, inner_val_msg@),
            ev.len() == m@.len(),
            forall|j: int| 0 <= j < m@.len() ==> #[trigger] ev[j] == (m@[j].0@, m@[j].1@),
            fold_read(ev.take(i as int), Seq::empty(), step) == Ok::<_, Seq<char>>(out.deep_view()),
    {
        proof {
            lemma_fold_read_step(ev, Seq::empty(), step, i as int);
        }
        let k = match read_level_key(&m[i].0, key_msg, fmt_msg) {
            Ok(k) => k,
            Err(e) => {
                proof {
                    lemma_fold_read_stops(ev, Seq::empty(), step, i + 1);
                }
                return Err(e);
            },
        };
        let inner = match m[i].1.as_mapping() {
            Some(inner) => inner,
            None => {
                proof {
                    lemma_fold_read_stops(ev, Seq::empty(), step, i + 1);
                }
                return Err(YamlParseError::custom(map_msg));
            },
        };
        let data = match read_str_map(inner, inner_key_msg, inner_val_msg) {
            Ok(data) => data,
            Err(e) => {
                proof {
                    lemma_fold_read_stops(ev, Seq::empty(), step, i + 1);
                }
                return Err(e);
            },
        };
        put_pair_key(&mut out, k, data);
    }
    proof {
        assert(ev.take(ev.len() as int) =~= ev);
    }
    Ok(out)
}

/// The mapping that a list of entries keyed by level and mode is written
/// as: each entry put in turn under its key's text, its value written by `f`.
pub open spec fn written_level_map<V>(s: Seq<((Seq<char>, Seq<char>), V)>, f: spec_fn(V) -> YamlV) -> Seq<(YamlV, YamlV)>
    decreases s.len(),
{
    if s.len() == 0 {
        Seq::empty()
    } else {
        put(written_level_map(s.drop_last(), f), YamlV::String(level_key_text(s.last().0)), f(s.last().1))
    }
}

proof fn lemma_written_level_map_step<V>(s: Seq<((Seq<char>, Seq<char>), V)>, f: spec_fn(V) -> YamlV, i: int)
    requires
        0 <= i < s.len(),
    ensures
        written_level_map(s.take(i + 1), f) == put(
            written_level_map(s.take(i), f),
            YamlV::String(level_key_text(s[i].0)),
            f(s[i].1),
        ),
{
    assert(s.take(i + 1).drop_last() =~= s.take(i));
}

/// The text of a level and mode key.
fn key_text(k: &(String, String)) -> (r: String)
    ensures
        r@ == level_key_text(k.deep_view()),
{
    let mut out = k.0.clone();
    push_str(&mut out, ", ");
    push_str(&mut out, k.1.as_str());
    proof {
        reveal_strlit(", ");
    }
    out
}

/// Whether a level and mode can be written as a key and read back: the SID
/// holds no comma, and the mode has no white space at either end.
pub open spec fn level_key_fits(k: (Seq<char>, Seq<char>)) -> bool {
    &&& forall|i: int| 0 <= i < k.0.len() ==> #[trigger] k.0[i] != ','
    &&& trimmed(k.1) == k.1
}

/// Whether every key of a list keyed by level and mode fits, and none occurs twice.
pub open spec fn level_keys_ok<V>(s: Seq<((Seq<char>, Seq<char>), V)>) -> bool {
    &&& keys_unique(s)
    &&& forall|i: int| 0 <= i < s.len() ==> level_key_fits(#[trigger] s[i].0)
}

/// A level and mode that fit read back from the key they are written as.
pub proof fn lemma_level_key_back(k: (Seq<char>, Seq<char>))
    requires
        level_key_fits(k),
    ensures
        level_key(level_key_text(k)) == Some(k),
{
    reveal_strlit(", ");
    let t = level_key_text(k);
    let n = k.0.len() as int;
    assert(t[n] == ',');
    assert forall|j: int| 0 <= j < n implies #[trigger] t[j] != ',' by {
        assert(t[j] == k.0[j]);
    }
    lemma_char_pos(t, ',');
    match char_pos(t, ',') {
        Some(p) => {
            if p < n {
                assert(t[p] != ',');
            }
            if p > n {
                assert(t[n] != ',');
            }
        },
        None => {
            assert(t[n] != ',');
        },
    }
    assert(t.take(n) =~= k.0);
    let rest = t.skip(n + 1);
    assert(rest =~= seq![' '] + k.1);
    assert(white_space(rest[0]));
    assert(rest.drop_first() =~= k.1);
    assert(trim_start(rest) == trim_start(k.1));
}

/// Two levels and modes that fit and are written as the same key are the same.
proof fn lemma_level_key_text_injective(a: (Seq<char>, Seq<char>), b: (Seq<char>, Seq<char>))
    requires
        level_key_fits(a),
        level_key_fits(b),
        level_key_text(a) == level_key_text(b),
    ensures
        a == b,
{
    lemma_level_key_back(a);
    lemma_level_key_back(b);
}

/// Written with keys that fit and occur once, each entry becomes an entry
/// of the mapping, in order.
pub proof fn lemma_written_level_map_plain<V>(s: Seq<((Seq<char>, Seq<char>), V)>, f: spec_fn(V) -> YamlV)
    requires
        level_keys_ok(s),
    ensures
        written_level_map(s, f) == Seq::new(s.len(), |i: int| (YamlV::String(level_key_text(s[i].0)), f(s[i].1))),
    decreases s.len(),
{
    if s.len() > 0 {
        let t = s.drop_last();
        assert(level_keys_ok(t)) by {
            assert forall|i: int| 0 <= i < t.len() implies level_key_fits(#[trigger] t[i].0) by {
                assert(t[i] == s[i]);
            }
        }
        lemma_written_level_map_plain(t, f);
        let w = written_level_map(t, f);
        let k = YamlV::String(level_key_text(s.last().0));
        lemma_key_pos(w, k);
        if key_pos(w, k) is Some {
            let p = key_pos(w, k)->Some_0;
            assert(w[p].0 == YamlV::String(level_key_text(t[p].0)));
            assert(t[p] == s[p]);
            assert(level_key_fits(s[p].0));
            assert(level_key_fits(s[s.len() - 1].0));
            lemma_level_key_text_injective(s[p].0, s[s.len() - 1].0);
        }
        assert(written_level_map(s, f) =~= Seq::new(
            s.len(),
            |i: int| (YamlV::String(level_key_text(s[i].0)), f(s[i].1)),
        ));
    }
}

/// The last key of a list with no key twice is not among the others.
proof fn lemma_last_level_fresh<V>(s: Seq<((Seq<char>, Seq<char>), V)>)
    requires
        keys_unique(s),
        s.len() > 0,
    ensures
        forall|j: int| 0 <= j < s.len() - 1 ==> #[trigger] s.drop_last()[j].0 != s.last().0,
{
    assert forall|j: int| 0 <= j < s.len() - 1 implies #[trigger] s.drop_last()[j].0 != s.last().0 by {
        assert(s.drop_last()[j] == s[j]);
    }
}

/// Dropping the last entry keeps the keys fitting and unique.
proof fn lemma_level_keys_ok_prefix<V>(s: Seq<((Seq<char>, Seq<char>), V)>)
    requires
        level_keys_ok(s),
        s.len() > 0,
    ensures
        level_keys_ok(s.drop_last()),
        level_key_fits(s.last().0),
{
    let t = s.drop_last();
    assert forall|i: int| 0 <= i < t.len() implies level_key_fits(#[trigger] t[i].0) by {
        assert(t[i] == s[i]);
    }
}

/// Sessions keyed by level and mode, once written, read back as themselves.
pub proof fn lemma_level_str_map_reads_back(
    s: Seq<((Seq<char>, Seq<char>), Seq<char>)>,
    key_msg: Seq<char>,
    fmt_msg: Seq<char>,
    val_msg: Seq<char>,
)
    requires
        level_keys_ok(s),
    ensures
        fold_read(written_level_map(s, str_node()), Seq::empty(), level_str_step(key_msg, fmt_msg, val_msg)) == Ok::<
            _,
            Seq<char>,
        >(s),
    decreases s.len(),
{
    lemma_written_level_map_plain(s, str_node());
    if s.len() == 0 {
        assert(s =~= Seq::<((Seq<char>, Seq<char>), Seq<char>)>::empty());
    } else {
        let t = s.drop_last();
        lemma_level_keys_ok_prefix(s);
        lemma_level_str_map_reads_back(t, key_msg, fmt_msg, val_msg);
        lemma_written_level_map_plain(t, str_node());
        let w = written_level_map(s, str_node());
        assert(w.drop_last() =~= written_level_map(t, str_node()));
        lemma_level_key_back(s.last().0);
        lemma_last_level_fresh(s);
        lemma_key_pos(t, s.last().0);
        assert(t.push(s.last()) =~= s);
    }
}

/// Kept nodes keyed by level and mode, once written, read back as themselves.
pub proof fn lemma_level_yaml_map_reads_back(s: Seq<((Seq<char>, Seq<char>), YamlV)>, key_msg: Seq<char>, fmt_msg: Seq<char>)
    requires
        level_keys_ok(s),
    ensures
        fold_read(written_level_map(s, same_node()), Seq::empty(), level_yaml_step(key_msg, fmt_msg)) == Ok::<
            _,
            Seq<char>,
        >(s),
    decreases s.len(),
{
    lemma_written_level_map_plain(s, same_node());
    if s.len() == 0 {
        assert(s =~= Seq::<((Seq<char>, Seq<char>), YamlV)>::empty());
    } else {
        let t = s.drop_last();
        lemma_level_keys_ok_prefix(s);
        lemma_level_yaml_map_reads_back(t, key_msg, fmt_msg);
        lemma_written_level_map_plain(t, same_node());
        let w = written_level_map(s, same_node());
        assert(w.drop_last() =~= written_level_map(t, same_node()));
        lemma_level_key_back(s.last().0);
        lemma_last_level_fresh(s);
        lemma_key_pos(t, s.last().0);
        assert(t.push(s.last()) =~= s);
    }
}

/// Mod sessions keyed by level and mode, once written, read back as themselves.
pub proof fn lemma_level_nested_map_reads_back(
    s: Seq<((Seq<char>, Seq<char>), Seq<(Seq<char>, Seq<char>)>)>,
    key_msg: Seq<char>,
    fmt_msg: Seq<char>,
    map_msg: Seq<char>,
    inner_key_msg: Seq<char>,
    inner_val_msg: Seq<char>,
)
    requires
        level_keys_ok(s),
        forall|i: int| 0 <= i < s.len() ==> keys_unique(#[trigger] s[i].1),
    ensures
        fold_read(
            written_level_map(s, str_map_node()),
            Seq::empty(),
            level_nested_step(key_msg, fmt_msg, map_msg, inner_key_msg, inner_val_msg),
        ) == Ok::<_, Seq<char>>(s),
    decreases s.len(),
{
    lemma_written_level_map_plain(s, str_map_node());
    if s.len() == 0 {
        assert(s =~= Seq::<((Seq<char>, Seq<char>), Seq<(Seq<char>, Seq<char>)>)>::empty());
    } else {
        let t = s.drop_last();
        lemma_level_keys_ok_prefix(s);
        assert forall|i: int| 0 <= i < t.len() implies keys_unique(#[trigger] t[i].1) by {
            assert(t[i] == s[i]);
        }
        lemma_level_nested_map_reads_back(t, key_msg, fmt_msg, map_msg, inner_key_msg, inner_val_msg);
        lemma_written_level_map_plain(t, str_map_node());
        let w = written_level_map(s, str_map_node());
        assert(w.drop_last() =~= written_level_map(t, str_map_node()));
        lemma_level_key_back(s.last().0);
        assert(keys_unique(s.last().1));
        lemma_str_map_reads_back(s.last().1, inner_key_msg, inner_val_msg);
        lemma_last_level_fresh(s);
        lemma_key_pos(t, s.last().0);
        assert(t.push(s.last()) =~= s);
    }
}

/// The level and mode a key names always fit.
pub proof fn lemma_level_key_fits(s: Seq<char>)
    ensures
        level_key(s) matches Some(k) ==> level_key_fits(k),
{
    lemma_char_pos(s, ',');
    if let Some(i) = char_pos(s, ',') {
        assert forall|j: int| 0 <= j < s.take(i).len() implies #[trigger] s.take(i)[j] != ',' by {
            assert(s.take(i)[j] == s[j]);
        }
        lemma_trimmed_idempotent(s.skip(i + 1));
    }
}

/// Putting an entry whose key fits keeps every key fitting and unique.
proof fn lemma_put_level_ok<V>(a: Seq<((Seq<char>, Seq<char>), V)>, k: (Seq<char>, Seq<char>), v: V)
    requires
        level_keys_ok(a),
        level_key_fits(k),
    ensures
        level_keys_ok(put(a, k, v)),
{
    lemma_put_unique(a, k, v);
    lemma_key_pos(a, k);
}

/// What reading sessions keyed by level and mode gives keeps its keys.
pub proof fn lemma_level_str_map_read_ok(m: Seq<(YamlV, YamlV)>, key_msg: Seq<char>, fmt_msg: Seq<char>, val_msg: Seq<char>)
    ensures
        fold_read(m, Seq::empty(), level_str_step(key_msg, fmt_msg, val_msg)) matches Ok(s) ==> level_keys_ok(s),
    decreases m.len(),
{
    if m.len() > 0 {
        lemma_level_str_map_read_ok(m.drop_last(), key_msg, fmt_msg, val_msg);
        if let Ok(a) = fold_read(m.drop_last(), Seq::empty(), level_str_step(key_msg, fmt_msg, val_msg)) {
            if let (YamlV::String(t), YamlV::String(v)) = (m.last().0, m.last().1) {
                lemma_level_key_fits(t);
                if let Some(k) = level_key(t) {
                    lemma_put_level_ok(a, k, v);
                }
            }
        }
    }
}

/// What reading kept nodes keyed by level and mode gives keeps its keys.
pub proof fn lemma_level_yaml_map_read_ok(m: Seq<(YamlV, YamlV)>, key_msg: Seq<char>, fmt_msg: Seq<char>)
    ensures
        fold_read(m, Seq::empty(), level_yaml_step(key_msg, fmt_msg)) matches Ok(s) ==> level_keys_ok(s),
    decreases m.len(),
{
    if m.len() > 0 {
        lemma_level_yaml_map_read_ok(m.drop_last(), key_msg, fmt_msg);
        if let Ok(a) = fold_read(m.drop_last(), Seq::empty(), level_yaml_step(key_msg, fmt_msg)) {
            if let YamlV::String(t) = m.last().0 {
                lemma_level_key_fits(t);
                if let Some(k) = level_key(t) {
                    lemma_put_level_ok(a, k, m.last().1);
                }
            }
        }
    }
}

/// What reading mod sessions keyed by level and mode gives keeps its keys,
/// and holds no key twice in any of its values.
pub proof fn lemma_level_nested_map_read_ok(
    m: Seq<(YamlV, YamlV)>,
    key_msg: Seq<char>,
    fmt_msg: Seq<char>,
    map_msg: Seq<char>,
    inner_key_msg: Seq<char>,
    inner_val_msg: Seq<char>,
)
    ensures
        fold_read(m, Seq::empty(), level_nested_step(key_msg, fmt_msg, map_msg, inner_key_msg, inner_val_msg)) matches Ok(
            s,
        ) ==> level_keys_ok(s) && forall|i: int| 0 <= i < s.len() ==> keys_unique(#[trigger] s[i].1),
    decreases m.len(),
{
    if m.len() > 0 {
        lemma_level_nested_map_read_ok(m.drop_last(), key_msg, fmt_msg, map_msg, inner_key_msg, inner_val_msg);
        if let Ok(a) = fold_read(
            m.drop_last(),
            Seq::empty(),
            level_nested_step(key_msg, fmt_msg, map_msg, inner_key_msg, inner_val_msg),
        ) {
            if let (YamlV::String(t), YamlV::Mapping(im)) = (m.last().0, m.last().1) {
                lemma_level_key_fits(t);
                lemma_str_map_read_unique(im, inner_key_msg, inner_val_msg);
                if let Some(k) = level_key(t) {
                    if let Ok(inner) = fold_read(im, Seq::empty(), str_map_step(inner_key_msg, inner_val_msg)) {
                        lemma_put_level_ok(a, k, inner);
                        lemma_key_pos(a, k);
                    }
                }
            }
        }
    }
}

/// The mod save of [Aurora's Additions](https://gamebanana.com/mods/53704).
///
/// Each YAML mapping of the save is a list here, each key at most once.
/// Keys are the SID of a level and the name of a mode.
pub struct AurorasAdditionsSave {
    /// Each level's SID and mode with the XML text of the session saved for it.
    pub sessions_per_level: Vec<((String, String), String)>,
    /// Saved modded sessions for legacy mods, each with the level it is for.
    pub mod_sessions_per_level: Vec<((String, String), Yaml)>,
    /// For each level, the mods that saved a session there and their sessions, base64 encoded.
    pub mod_sessions_per_level_binary: Vec<((String, String), Vec<(String, String)>)>,
    /// Saved last music volume
    pub music_volume_memory: u8,
}

/// The value of an [AurorasAdditionsSave].
pub struct AurorasAdditionsSaveV {
    pub sessions_per_level: Seq<((Seq<char>, Seq<char>), Seq<char>)>,
    pub mod_sessions_per_level: Seq<((Seq<char>, Seq<char>), YamlV)>,
    pub mod_sessions_per_level_binary: Seq<((Seq<char>, Seq<char>), Seq<(Seq<char>, Seq<char>)>)>,
    pub music_volume_memory: u8,
}

impl View for AurorasAdditionsSave {
    type V = AurorasAdditionsSaveV;

    open spec fn view(&self) -> AurorasAdditionsSaveV {
        AurorasAdditionsSaveV {
            sessions_per_level: self.sessions_per_level.deep_view(),
            mod_sessions_per_level: self.mod_sessions_per_level.deep_view(),
            mod_sessions_per_level_binary: self.mod_sessions_per_level_binary.deep_view(),
            music_volume_memory: self.music_volume_memory,
        }
    }
}

/// Reading an Aurora's Additions save: each field in turn, the first that is
/// missing or of the wrong shape giving the error. The music volume keeps
/// the low eight bits of the number stored.
pub open spec fn auroras_additions_read(y: YamlV) -> Result<AurorasAdditionsSaveV, Seq<char>> {
    let a = read_field_map(
        y,
        "SessionsPerLevel"@,
        "Aurora's Additions save doesn't contain a SessionsPerLevel entry"@,
        level_str_step("Aurora's Additions save SessionsPerLevel entry key isn't a string"@, "Aurora's Additions SessionsPerLevel entry doesn't have a properly formatted key"@, "Aurora's Additions SessionsPerLevel entry doesn't have a string value"@),
        Seq::empty(),
    );
    let b = read_field_map(
        y,
        "ModSessionsPerLevel"@,
        "Aurora's Additions save doesn't have ModSessionsPerLevel entry"@,
        level_yaml_step("Aurora's Additions ModSessionsPerLevel entry doesn't have a string key"@, "Aurora's Additions ModSessionsPerLevel entry has improperly formatted key"@),
        Seq::empty(),
    );
    let c = read_field_map(
        y,
        "ModSessionsPerLevelBinary"@,
        "Aurora's Additions save doesn't have a ModSessionsPerLevelBinary field"@,
        level_nested_step("Aurora's Additions ModSessionsPerLevelBinary entry doesn't have a string key"@, "Aurora's Additions ModSessionsPerLevelBinary entry has improperly formatted key"@, "Aurora's Additions save ModSessionsPerLevelBinary doesn't have a list of mod sessions"@, "Aurora's Additions save ModSessionsPerLevelBinary mod entry doesn't have a string key"@, "Aurora's Additions save ModSessionsPerLevelBinary mod entry doesn't have a string value"@),
        Seq::empty(),
    );
    let d = field_integer(y, "MusicVolumeMemory"@);
    if a is Err {
        Err(a->Err_0)
    } else if b is Err {
        Err(b->Err_0)
    } else if c is Err {
        Err(c->Err_0)
    } else if d is None {
        Err("Aurora's Additions MusicVolumeMemory isn't an int"@)
    } else {
        Ok(
            AurorasAdditionsSaveV {
                sessions_per_level: a->Ok_0,
                mod_sessions_per_level: b->Ok_0,
                mod_sessions_per_level_binary: c->Ok_0,
                music_volume_memory: d->Some_0 as u8,
            },
        )
    }
}

/// The document an Aurora's Additions save is written as.
pub open spec fn auroras_additions_written(v: AurorasAdditionsSaveV) -> YamlV {
    let root = Seq::<(YamlV, YamlV)>::empty();
    let root = put(root, YamlV::String("SessionsPerLevel"@), YamlV::Mapping(written_level_map(v.sessions_per_level, str_node())));
    let root = put(root, YamlV::String("ModSessionsPerLevel"@), YamlV::Mapping(written_level_map(v.mod_sessions_per_level, same_node())));
    let root = put(
        root,
        YamlV::String("ModSessionsPerLevelBinary"@),
        YamlV::Mapping(written_level_map(v.mod_sessions_per_level_binary, str_map_node())),
    );
    let root = put(root, YamlV::String("MusicVolumeMemory"@), YamlV::Integer(v.music_volume_memory as i64));
    YamlV::Mapping(root)
}

impl AurorasAdditionsSave {
    /// The unlocalized name of the mod, the third part of its files' names.
    pub const MOD_NAME: &'static str = "AurorasAdditions";
}

impl FromYaml for AurorasAdditionsSave {
    open spec fn readable(y: YamlV) -> bool {
        auroras_additions_read(y) is Ok
    }

    open spec fn reads_as(y: YamlV, x: AurorasAdditionsSave) -> bool {
        auroras_additions_read(y) == Ok::<_, Seq<char>>(x@)
    }

    open spec fn read_error(y: YamlV) -> YamlParseErrorV {
        YamlParseErrorV::Custom(auroras_additions_read(y)->Err_0)
    }

    open spec fn writable(x: AurorasAdditionsSave) -> bool {
        true
    }

    open spec fn written(x: AurorasAdditionsSave) -> YamlV {
        auroras_additions_written(x@)
    }

    open spec fn write_error(x: AurorasAdditionsSave) -> Seq<char> {
        Seq::empty()
    }

    open spec fn keeps(x: AurorasAdditionsSave) -> bool {
        let v = x@;
        &&& level_keys_ok(v.sessions_per_level)
        &&& level_keys_ok(v.mod_sessions_per_level)
        &&& level_keys_ok(v.mod_sessions_per_level_binary)
        &&& forall|i: int|
            0 <= i < v.mod_sessions_per_level_binary.len() ==> keys_unique(#[trigger] v.mod_sessions_per_level_binary[i].1)
    }

    proof fn lemma_written_reads_back(x: AurorasAdditionsSave) {
        let v = x@;
        reveal_strlit("SessionsPerLevel");
        reveal_strlit("ModSessionsPerLevel");
        reveal_strlit("ModSessionsPerLevelBinary");
        reveal_strlit("MusicVolumeMemory");
        assert("SessionsPerLevel"@.len() == 16);
        assert("ModSessionsPerLevel"@.len() == 19);
        assert("ModSessionsPerLevelBinary"@.len() == 25);
        assert("MusicVolumeMemory"@.len() == 17);
        let m0 = Seq::<(YamlV, YamlV)>::empty();
        let m1 = put(m0, YamlV::String("SessionsPerLevel"@), YamlV::Mapping(written_level_map(v.sessions_per_level, str_node())));
        let m2 = put(m1, YamlV::String("ModSessionsPerLevel"@), YamlV::Mapping(written_level_map(v.mod_sessions_per_level, same_node())));
        let m3 = put(m2, YamlV::String("ModSessionsPerLevelBinary"@), YamlV::Mapping(written_level_map(v.mod_sessions_per_level_binary, str_map_node())));
        let m4 = put(m3, YamlV::String("MusicVolumeMemory"@), YamlV::Integer(v.music_volume_memory as i64));
        lemma_put_get(m3, "MusicVolumeMemory"@, YamlV::Integer(v.music_volume_memory as i64), "SessionsPerLevel"@);
        lemma_put_get(m2, "ModSessionsPerLevelBinary"@, YamlV::Mapping(written_level_map(v.mod_sessions_per_level_binary, str_map_node())), "SessionsPerLevel"@);
        lemma_put_get(m1, "ModSessionsPerLevel"@, YamlV::Mapping(written_level_map(v.mod_sessions_per_level, same_node())), "SessionsPerLevel"@);
        lemma_put_get(m0, "SessionsPerLevel"@, YamlV::Mapping(written_level_map(v.sessions_per_level, str_node())), "SessionsPerLevel"@);
        lemma_put_get(m3, "MusicVolumeMemory"@, YamlV::Integer(v.music_volume_memory as i64), "ModSessionsPerLevel"@);
        lemma_put_get(m2, "ModSessionsPerLevelBinary"@, YamlV::Mapping(written_level_map(v.mod_sessions_per_level_binary, str_map_node())), "ModSessionsPerLevel"@);
        lemma_put_get(m1, "ModSessionsPerLevel"@, YamlV::Mapping(written_level_map(v.mod_sessions_per_level, same_node())), "ModSessionsPerLevel"@);
        lemma_put_get(m3, "MusicVolumeMemory"@, YamlV::Integer(v.music_volume_memory as i64), "ModSessionsPerLevelBinary"@);
        lemma_put_get(m2, "ModSessionsPerLevelBinary"@, YamlV::Mapping(written_level_map(v.mod_sessions_per_level_binary, str_map_node())), "ModSessionsPerLevelBinary"@);
        lemma_put_get(m3, "MusicVolumeMemory"@, YamlV::Integer(v.music_volume_memory as i64), "MusicVolumeMemory"@);
        lemma_level_str_map_reads_back(v.sessions_per_level, "Aurora's Additions save SessionsPerLevel entry key isn't a string"@, "Aurora's Additions SessionsPerLevel entry doesn't have a properly formatted key"@, "Aurora's Additions SessionsPerLevel entry doesn't have a string value"@);
        lemma_level_yaml_map_reads_back(v.mod_sessions_per_level, "Aurora's Additions ModSessionsPerLevel entry doesn't have a string key"@, "Aurora's Additions ModSessionsPerLevel entry has improperly formatted key"@);
        lemma_level_nested_map_reads_back(v.mod_sessions_per_level_binary, "Aurora's Additions ModSessionsPerLevelBinary entry doesn't have a string key"@, "Aurora's Additions ModSessionsPerLevelBinary entry has improperly formatted key"@, "Aurora's Additions save ModSessionsPerLevelBinary doesn't have a list of mod sessions"@, "Aurora's Additions save ModSessionsPerLevelBinary mod entry doesn't have a string key"@, "Aurora's Additions save ModSessionsPerLevelBinary mod entry doesn't have a string value"@);
    }

    proof fn lemma_read_keeps(y: YamlV, x: AurorasAdditionsSave) {
        if let Some(m) = field_mapping(y, "SessionsPerLevel"@) {
            lemma_level_str_map_read_ok(m, "Aurora's Additions save SessionsPerLevel entry key isn't a string"@, "Aurora's Additions SessionsPerLevel entry doesn't have a properly formatted key"@, "Aurora's Additions SessionsPerLevel entry doesn't have a string value"@);
        }
        if let Some(m) = field_mapping(y, "ModSessionsPerLevel"@) {
            lemma_level_yaml_map_read_ok(m, "Aurora's Additions ModSessionsPerLevel entry doesn't have a string key"@, "Aurora's Additions ModSessionsPerLevel entry has improperly formatted key"@);
        }
        if let Some(m) = field_mapping(y, "ModSessionsPerLevelBinary"@) {
            lemma_level_nested_map_read_ok(m, "Aurora's Additions ModSessionsPerLevelBinary entry doesn't have a string key"@, "Aurora's Additions ModSessionsPerLevelBinary entry has improperly formatted key"@, "Aurora's Additions save ModSessionsPerLevelBinary doesn't have a list of mod sessions"@, "Aurora's Additions save ModSessionsPerLevelBinary mod entry doesn't have a string key"@, "Aurora's Additions save ModSessionsPerLevelBinary mod entry doesn't have a string value"@);
        }
    }

    fn parse_from_yaml(yaml: &Yaml) -> (r: Result<AurorasAdditionsSave, YamlParseError>) {
        let sessions_per_level = match get_mapping(yaml, "SessionsPerLevel", "Aurora's Additions save doesn't contain a SessionsPerLevel entry") {
            Ok(m) => match read_level_str_map(m, "Aurora's Additions save SessionsPerLevel entry key isn't a string", "Aurora's Additions SessionsPerLevel entry doesn't have a properly formatted key", "Aurora's Additions SessionsPerLevel entry doesn't have a string value") {
                Ok(x) => x,
                Err(e) => {
                    return Err(e);
                },
            },
            Err(e) => {
                return Err(e);
            },
        };
        let mod_sessions_per_level = match get_mapping(yaml, "ModSessionsPerLevel", "Aurora's Additions save doesn't have ModSessionsPerLevel entry") {
            Ok(m) => match read_level_yaml_map(m, "Aurora's Additions ModSessionsPerLevel entry doesn't have a string key", "Aurora's Additions ModSessionsPerLevel entry has improperly formatted key") {
                Ok(x) => x,
                Err(e) => {
                    return Err(e);
                },
            },
            Err(e) => {
                return Err(e);
            },
        };
        let mod_sessions_per_level_binary = match get_mapping(yaml, "ModSessionsPerLevelBinary", "Aurora's Additions save doesn't have a ModSessionsPerLevelBinary field") {
            Ok(m) => match read_level_nested_map(
                m,
                "Aurora's Additions ModSessionsPerLevelBinary entry doesn't have a string key",
                "Aurora's Additions ModSessionsPerLevelBinary entry has improperly formatted key",
                "Aurora's Additions save ModSessionsPerLevelBinary doesn't have a list of mod sessions",
                "Aurora's Additions save ModSessionsPerLevelBinary mod entry doesn't have a string key",
                "Aurora's Additions save ModSessionsPerLevelBinary mod entry doesn't have a string value",
            ) {
                Ok(x) => x,
                Err(e) => {
                    return Err(e);
                },
            },
            Err(e) => {
                return Err(e);
            },
        };
        let music_volume_memory = match get_integer(yaml, "MusicVolumeMemory", "Aurora's Additions MusicVolumeMemory isn't an int") {
            Ok(x) => x,
            Err(e) => {
                return Err(e);
            },
        };
        Ok(
            AurorasAdditionsSave {
                sessions_per_level,
                mod_sessions_per_level,
                mod_sessions_per_level_binary,
                music_volume_memory: #[verifier::truncate] (music_volume_memory as u8),
            },
        )
    }

    fn to_yaml(&self) -> (r: Result<Yaml, YamlWriteError>) {
        let mut root: Vec<(Yaml, Yaml)> = Vec::new();
        assert(entries_view(root@) =~= Seq::<(YamlV, YamlV)>::empty());
        mapping_put(&mut root, "SessionsPerLevel".to_owned(), Yaml::hash(write_level_str_map(&self.sessions_per_level)));
        mapping_put(&mut root, "ModSessionsPerLevel".to_owned(), Yaml::hash(write_level_yaml_map(&self.mod_sessions_per_level)));
        mapping_put(
            &mut root,
            "ModSessionsPerLevelBinary".to_owned(),
            Yaml::hash(write_level_nested_map(&self.mod_sessions_per_level_binary)),
        );
        mapping_put(&mut root, "MusicVolumeMemory".to_owned(), Yaml::integer(self.music_volume_memory as i64));
        Ok(Yaml::hash(root))
    }
}

/// Writes a mapping keyed by level and mode whose values are strings.
fn write_level_str_map(s: &Vec<((String, String), String)>) -> (r: Vec<(Yaml, Yaml)>)
    ensures
        entries_view(r@) == written_level_map(s.deep_view(), str_node()),
{
    let ghost sv = s.deep_view();
    let mut out: Vec<(Yaml, Yaml)> = Vec::new();
    proof {
        assert(sv.take(0) =~= Seq::<((Seq<char>, Seq<char>), Seq<char>)>::empty());
    }
    for i in 0..s.len()
        invariant
            sv == s.deep_view(),
            entries_view(out@) == written_level_map(sv.take(i as int), str_node()),
    {
        proof {
            lemma_written_level_map_step(sv, str_node(), i as int);
        }
        mapping_put(&mut out, key_text(&s[i].0), Yaml::string(s[i].1.clone()));
    }
    proof {
        assert(sv.take(sv.len() as int) =~= sv);
    }
    out
}

/// Writes a mapping keyed by level and mode whose values are kept nodes.
fn write_level_yaml_map(s: &Vec<((String, String), Yaml)>) -> (r: Vec<(Yaml, Yaml)>)
    ensures
        entries_view(r@) == written_level_map(s.deep_view(), same_node()),
{
    let ghost sv = s.deep_view();
    let mut out: Vec<(Yaml, Yaml)> = Vec::new();
    proof {
        assert(sv.take(0) =~= Seq::<((Seq<char>, Seq<char>), YamlV)>::empty());
    }
    for i in 0..s.len()
        invariant
            sv == s.deep_view(),
            entries_view(out@) == written_level_map(sv.take(i as int), same_node()),
    {
        proof {
            lemma_written_level_map_step(sv, same_node(), i as int);
        }
        mapping_put(&mut out, key_text(&s[i].0), s[i].1.duplicate());
    }
    proof {
        assert(sv.take(sv.len() as int) =~= sv);
    }
    out
}

/// Writes a mapping keyed by level and mode whose values are mappings of strings to strings.
fn write_level_nested_map(s: &Vec<((String, String), Vec<(String, String)>)>) -> (r: Vec<(Yaml, Yaml)>)
    ensures
        entries_view(r@) == written_level_map(s.deep_view(), str_map_node()),
{
    let ghost sv = s.deep_view();
    let mut out: Vec<(Yaml, Yaml)> = Vec::new();
    proof {
        assert(sv.take(0) =~= Seq::<((Seq<char>, Seq<char>), Seq<(Seq<char>, Seq<char>)>)>::empty());
    }
    for i in 0..s.len()
        invariant
            sv == s.deep_view(),
            entries_view(out@) == written_level_map(sv.take(i as int), str_map_node()),
    {
        proof {
            lemma_written_level_map_step(sv, str_map_node(), i as int);
        }
        let inner = write_str_map(&s[i].1);
        mapping_put(&mut out, key_text(&s[i].0), Yaml::hash(inner));
    }
    proof {
        assert(sv.take(sv.len() as int) =~= sv);
    }
    out
}

} // verus!
