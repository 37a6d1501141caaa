//! Lists that act as maps and sets: each key at most once, in the order keys first came.
use vstd::prelude::*;

use crate::utils::text::str_eq;

verus! {

/// The index of the first entry of `m` whose key is `k`.
pub open spec fn key_pos<K, V>(m: Seq<(K, V)>, k: K) -> Option<int>
    decreases m.len(),
{
    if m.len() == 0 {
        None
    } else if m[0].0 == k {
        Some(0)
    } else {
        match key_pos(m.drop_first(), k) {
            Some(i) => Some(i + 1),
            None => None,
        }
    }
}

/// `m` with `v` under `k`: the value of the entry for `k` replaced where it
/// stands, or a new entry at the end.
pub open spec fn put<K, V>(m: Seq<(K, V)>, k: K, v: V) -> Seq<(K, V)> {
    match key_pos(m, k) {
        Some(i) => m.update(i, (k, v)),
        None => m.push((k, v)),
    }
}

/// `s` with `k` added at the end, unless it is there already.
pub open spec fn set_put<K>(s: Seq<K>, k: K) -> Seq<K> {
    if s.contains(k) {
        s
    } else {
        s.push(k)
    }
}

/// Whether no key occurs twice in `m`.
pub open spec fn keys_unique<K, V>(m: Seq<(K, V)>) -> bool {
    forall|i: int, j: int| 0 <= i < j < m.len() ==> m[i].0 != m[j].0
}

/// Whether nothing occurs twice in `s`.
pub open spec fn no_repeats<K>(s: Seq<K>) -> bool {
    forall|i: int, j: int| 0 <= i < j < s.len() ==> s[i] != s[j]
}

/// The first index found by [key_pos] holds the key, and no earlier entry does.
pub proof fn lemma_key_pos<K, V>(m: Seq<(K, V)>, k: K)
    ensures
        match key_pos(m, k) {
            Some(i) => 0 <= i < m.len() && m[i].0 == k && forall|j: int| 0 <= j < i ==> #[trigger] m[j].0 != k,
            None => forall|j: int| 0 <= j < m.len() ==> #[trigger] m[j].0 != k,
        },
    decreases m.len(),
{
    if m.len() > 0 {
        lemma_key_pos(m.drop_first(), k);
        assert forall|j: int| 1 <= j < m.len() implies #[trigger] m[j] == m.drop_first()[j - 1] by {}
    }
}

/// Putting an entry keeps the keys unique.
pub proof fn lemma_put_unique<K, V>(m: Seq<(K, V)>, k: K, v: V)
    requires
        keys_unique(m),
    ensures
        keys_unique(put(m, k, v)),
{
    lemma_key_pos(m, k);
}

/// Adding to a set keeps it free of repeats.
pub proof fn lemma_set_put_unique<K>(s: Seq<K>, k: K)
    requires
        no_repeats(s),
    ensures
        no_repeats(set_put(s, k)),
{
}

/// Puts `v` under the string key `k`.
pub fn put_str_key<V: DeepView>(m: &mut Vec<(String, V)>, k: String, v: V)
    ensures
        final(m).deep_view() == put(old(m).deep_view(), k@, v.deep_view()),
{
    let ghost mv = m.deep_view();
    proof {
        lemma_key_pos(mv, k@);
    }
    let mut i: usize = 0;
    while i < m.len()
        invariant
            mv == m.deep_view(),
            *m == *old(m),
            i <= m@.len(),
            forall|j: int| 0 <= j < i ==> #[trigger] mv[j].0 != k@,
            match key_pos(mv, k@) {
                Some(p) => 0 <= p < mv.len() && mv[p].0 == k@ && forall|j: int| 0 <= j < p ==> #[trigger] mv[j].0 != k@,
                None => forall|j: int| 0 <= j < mv.len() ==> #[trigger] mv[j].0 != k@,
            },
        decreases m@.len() - i,
    {
        if str_eq(m[i].0.as_str(), k.as_str()) {
            proof {
                assert(mv[i as int].0 == k@);
                match key_pos(mv, k@) {
                    Some(p) => {
                        if p < i {
                            assert(mv[p].0 != k@);
                        }
                        if p > i {
                            assert(mv[i as int].0 != k@);
                        }
                    },
                    None => {
                        assert(mv[i as int].0 != k@);
                    },
                }
            }
            let ghost kv = k.deep_view();
            let ghost vv = v.deep_view();
            m.set(i, (k, v));
            proof {
                assert(m.deep_view() =~= mv.update(i as int, (kv, vv)));
            }
            return ;
        }
        i = i + 1;
    }
    let ghost kv = k.deep_view();
    let ghost vv = v.deep_view();
    m.push((k, v));
    proof {
        assert(m.deep_view() =~= mv.push((kv, vv)));
    }
}

/// Puts `v` under the key made of two strings `k`.
pub fn put_pair_key<V: DeepView>(m: &mut Vec<((String, String), V)>, k: (String, String), v: V)
    ensures
        final(m).deep_view() == put(old(m).deep_view(), k.deep_view(), v.deep_view()),
{
    let ghost mv = m.deep_view();
    let ghost kv = k.deep_view();
    proof {
        lemma_key_pos(mv, kv);
    }
    let mut i: usize = 0;
    while i < m.len()
        invariant
            mv == m.deep_view(),
            kv == k.deep_view(),
            *m == *old(m),
            i <= m@.len(),
            forall|j: int| 0 <= j < i ==> #[trigger] mv[j].0 != kv,
            match key_pos(mv, kv) {
                Some(p) => 0 <= p < mv.len() && mv[p].0 == kv && forall|j: int| 0 <= j < p ==> #[trigger] mv[j].0 != kv,
                None => forall|j: int| 0 <= j < mv.len() ==> #[trigger] mv[j].0 != kv,
            },
        decreases m@.len() - i,
    {
        if str_eq(m[i].0.0.as_str(), k.0.as_str()) && str_eq(m[i].0.1.as_str(), k.1.as_str()) {
            proof {
                assert(mv[i as int].0 == kv);
                match key_pos(mv, kv) {
                    Some(p) => {
                        if p < i {
                            assert(mv[p].0 != kv);
                        }
                        if p > i {
                            assert(mv[i as int].0 != kv);
                        }
                    },
                    None => {
                        assert(mv[i as int].0 != kv);
                    },
                }
            }
            let ghost vv = v.deep_view();
            m.set(i, (k, v));
            proof {
                assert(m.deep_view() =~= mv.update(i as int, (kv, vv)));
            }
            return ;
        }
        proof {
            assert(mv[i as int].0 != kv);
        }
        i = i + 1;
    }
    let ghost vv = v.deep_view();
    m.push((k, v));
    proof {
        assert(m.deep_view() =~= mv.push((kv, vv)));
    }
}

/// Adds the string `k` unless it is there already.
pub fn set_insert_str(s: &mut Vec<String>, k: String)
    ensures
        final(s).deep_view() == set_put(old(s).deep_view(), k@),
{
    let ghost sv = s.deep_view();
    let mut i: usize = 0;
    while i < s.len()
        invariant
            sv == s.deep_view(),
            *s == *old(s),
            i <= s@.len(),
            forall|j: int| 0 <= j < i ==> #[trigger] sv[j] != k@,
        decreases s@.len() - i,
    {
        if str_eq(s[i].as_str(), k.as_str()) {
            assert(sv[i as int] == k@);
            return ;
        }
        i = i + 1;
    }
    let ghost kv = k@;
    s.push(k);
    proof {
        assert(s.deep_view() =~= sv.push(kv));
    }
}

} // verus!
