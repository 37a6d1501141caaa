//! The string lookup table of a map file and the strings that point into it.
use vstd::prelude::*;

use crate::utils::text::{chars_of, push_char, push_str, str_eq};

verus! {

// ---------------------------------------------------------------------------
// Ordering of strings
// ---------------------------------------------------------------------------

/// Lexicographic order of character sequences by code point (which is the
/// byte order of their UTF-8 encodings).
pub open spec fn char_seq_lt(a: Seq<char>, b: Seq<char>) -> bool
    decreases a.len(),
{
    if a.len() == 0 {
        b.len() > 0
    } else if b.len() == 0 {
        false
    } else if a[0] != b[0] {
        (a[0] as u32) < (b[0] as u32)
    } else {
        char_seq_lt(a.drop_first(), b.drop_first())
    }
}

/// Strictly increasing: sorted and free of duplicates.
pub open spec fn sorted(s: Seq<Seq<char>>) -> bool {
    forall|i: int, j: int| 0 <= i < j < s.len() ==> char_seq_lt(#[trigger] s[i], #[trigger] s[j])
}

/// The position of the first occurrence of `x` in `s`, if any.
pub open spec fn first_position(s: Seq<Seq<char>>, x: Seq<char>) -> Option<nat>
    decreases s.len(),
{
    if s.len() == 0 {
        None
    } else if s[0] == x {
        Some(0)
    } else {
        match first_position(s.drop_first(), x) {
            Some(i) => Some(i + 1),
            None => None,
        }
    }
}

/// `n` tab characters.
pub open spec fn tabs(n: nat) -> Seq<char> {
    Seq::new(n, |_i: int| '\t')
}

/// The listing of the first `n` strings, one per line, quoted and indented.
pub open spec fn entries_text(s: Seq<Seq<char>>, depth: nat, n: nat) -> Seq<char>
    decreases n,
{
    if n == 0 {
        Seq::empty()
    } else {
        entries_text(s, depth, (n - 1) as nat) + seq!['\n'] + tabs(depth + 1) + seq!['"'] + s[n - 1]
            + seq!['"']
    }
}

/// The debug listing of a table's strings at nesting `depth`.
pub open spec fn table_text(s: Seq<Seq<char>>, depth: nat) -> Seq<char> {
    seq!['['] + entries_text(s, depth, s.len()) + (if s.len() > 0 {
        seq!['\n'] + tabs(depth)
    } else {
        Seq::empty()
    }) + seq![']']
}

proof fn lemma_first_position_at(s: Seq<Seq<char>>, x: Seq<char>, i: int)
    requires
        0 <= i < s.len(),
        s[i] == x,
        forall|j: int| 0 <= j < i ==> s[j] != x,
    ensures
        first_position(s, x) == Some(i as nat),
{
    lemma_first_position(s, x);
}

/// Position of the first string in `v` equal to `t`.
fn position_of(v: &Vec<String>, t: &str) -> (r: Option<usize>)
    ensures
        r matches Some(i) ==> first_position(string_views(v@), t@) == Some(i as nat),
        r is None ==> first_position(string_views(v@), t@) is None,
{
    let ghost sv = string_views(v@);
    for i in 0..v.len()
        invariant
            sv == string_views(v@),
            sv.len() == v@.len(),
            forall|j: int| 0 <= j < i ==> sv[j] != t@,
    {
        if str_eq(v[i].as_str(), t) {
            proof {
                lemma_first_position_at(sv, t@, i as int);
            }
            return Some(i);
        }
    }
    proof {
        lemma_first_position(sv, t@);
        if first_position(sv, t@) is Some {
            let k = first_position(sv, t@)->0;
            assert(sv[k as int] == t@);
        }
    }
    None
}

/// Appends `n` tab characters.
fn push_tabs(s: &mut String, n: usize)
    ensures
        final(s)@ == old(s)@ + tabs(n as nat),
{
    for i in 0..n
        invariant
            s@ == old(s)@ + tabs(i as nat),
    {
        push_char(s, '\t');
        assert(old(s)@ + tabs(i as nat) + seq!['\t'] =~= old(s)@ + tabs((i + 1) as nat));
    }
}

pub proof fn lemma_lt_irreflexive(a: Seq<char>)
    ensures
        !char_seq_lt(a, a),
    decreases a.len(),
{
    if a.len() > 0 {
        lemma_lt_irreflexive(a.drop_first());
    }
}

pub proof fn lemma_lt_asymmetric(a: Seq<char>, b: Seq<char>)
    ensures
        char_seq_lt(a, b) ==> !char_seq_lt(b, a),
    decreases a.len(),
{
    if a.len() > 0 && b.len() > 0 && a[0] == b[0] {
        lemma_lt_asymmetric(a.drop_first(), b.drop_first());
    }
}

pub proof fn lemma_lt_transitive(a: Seq<char>, b: Seq<char>, c: Seq<char>)
    requires
        char_seq_lt(a, b),
        char_seq_lt(b, c),
    ensures
        char_seq_lt(a, c),
    decreases a.len(),
{
    if a.len() > 0 && b.len() > 0 && c.len() > 0 {
        if a[0] == b[0] && b[0] == c[0] {
            lemma_lt_transitive(a.drop_first(), b.drop_first(), c.drop_first());
        } else if a[0] == b[0] {
        } else if b[0] == c[0] {
        } else {
        }
    }
}

pub proof fn lemma_lt_total(a: Seq<char>, b: Seq<char>)
    ensures
        a != b ==> char_seq_lt(a, b) || char_seq_lt(b, a),
    decreases a.len(),
{
    if a.len() > 0 && b.len() > 0 {
        if a[0] == b[0] {
            lemma_lt_total(a.drop_first(), b.drop_first());
            if a.drop_first() == b.drop_first() {
                assert(a =~= seq![a[0]] + a.drop_first());
                assert(b =~= seq![b[0]] + b.drop_first());
            }
        } else {
            let x = a[0] as u32;
            let y = b[0] as u32;
            vstd::utf8::char_u32_cast(a[0], x);
            vstd::utf8::char_u32_cast(b[0], y);
        }
    } else if a.len() == 0 && b.len() == 0 {
        assert(a =~= b);
    }
}

pub proof fn lemma_first_position(s: Seq<Seq<char>>, x: Seq<char>)
    ensures
        first_position(s, x) matches Some(i) ==> i < s.len() && s[i as int] == x && forall|j: int|
            0 <= j < i ==> s[j] != x,
        first_position(s, x) is None ==> !s.contains(x),
    decreases s.len(),
{
    if s.len() > 0 {
        lemma_first_position(s.drop_first(), x);
        if s[0] != x {
            if first_position(s.drop_first(), x) is None {
                assert forall|j: int| 0 <= j < s.len() implies s[j] != x by {
                    if j > 0 {
                        assert(s[j] == s.drop_first()[j - 1]);
                    }
                }
            } else {
                let i = first_position(s.drop_first(), x)->0;
                assert forall|j: int| 0 <= j < i + 1 implies s[j] != x by {
                    if j > 0 {
                        assert(s[j] == s.drop_first()[j - 1]);
                    }
                }
            }
        }
    }
}

/// Inserting at the point where a string belongs keeps a table sorted.
pub proof fn lemma_insert_sorted(s: Seq<Seq<char>>, i: int, x: Seq<char>)
    requires
        sorted(s),
        0 <= i <= s.len(),
        forall|j: int| 0 <= j < i ==> char_seq_lt(#[trigger] s[j], x),
        forall|j: int| i <= j < s.len() ==> char_seq_lt(x, #[trigger] s[j]),
    ensures
        sorted(s.insert(i, x)),
{
    let t = s.insert(i, x);
    assert forall|a: int, b: int| 0 <= a < b < t.len() implies char_seq_lt(
        #[trigger] t[a],
        #[trigger] t[b],
    ) by {
        if b < i {
        } else if a < i && b == i {
        } else if a < i {
            assert(t[b] == s[b - 1]);
        } else if a == i {
            assert(t[b] == s[b - 1]);
        } else {
            assert(t[a] == s[a - 1]);
            assert(t[b] == s[b - 1]);
        }
    }
}

/// Compares two character sequences: negative, zero or positive as `a` is
/// before, equal to, or after `b`.
fn compare_chars(a: &Vec<char>, b: &Vec<char>) -> (r: i8)
    ensures
        r < 0 <==> char_seq_lt(a@, b@),
        r == 0 <==> a@ == b@,
        r > 0 <==> char_seq_lt(b@, a@),
{
    let mut i: usize = 0;
    proof {
        assert(a@.skip(0) =~= a@);
        assert(b@.skip(0) =~= b@);
    }
    while i < a.len() && i < b.len()
        invariant
            i <= a@.len(),
            i <= b@.len(),
            a@.take(i as int) == b@.take(i as int),
            char_seq_lt(a@, b@) == char_seq_lt(a@.skip(i as int), b@.skip(i as int)),
            char_seq_lt(b@, a@) == char_seq_lt(b@.skip(i as int), a@.skip(i as int)),
            (a@ == b@) == (a@.skip(i as int) == b@.skip(i as int)),
        decreases a.len() - i,
    {
        let x = a[i];
        let y = b[i];
        proof {
            assert(a@.skip(i as int)[0] == x);
            assert(b@.skip(i as int)[0] == y);
            assert(a@.skip(i as int).drop_first() =~= a@.skip(i + 1));
            assert(b@.skip(i as int).drop_first() =~= b@.skip(i + 1));
            assert(a@.take(i + 1) =~= a@.take(i as int).push(x));
            assert(b@.take(i + 1) =~= b@.take(i as int).push(y));
            assert(a@ =~= a@.take(i as int) + a@.skip(i as int));
            assert(b@ =~= b@.take(i as int) + b@.skip(i as int));
            vstd::utf8::char_u32_cast(x, x as u32);
            vstd::utf8::char_u32_cast(y, y as u32);
        }
        if (x as u32) < (y as u32) {
            return -1;
        }
        if (y as u32) < (x as u32) {
            return 1;
        }
        proof {
            assert(a@.skip(i as int) =~= seq![x] + a@.skip(i + 1));
            assert(b@.skip(i as int) =~= seq![y] + b@.skip(i + 1));
            if a@.skip(i as int) == b@.skip(i as int) {
                assert(a@.skip(i + 1) =~= a@.skip(i as int).drop_first());
            }
        }
        i = i + 1;
    }
    proof {
        assert(a@ =~= a@.take(i as int) + a@.skip(i as int));
        assert(b@ =~= b@.take(i as int) + b@.skip(i as int));
    }
    if a.len() < b.len() {
        -1
    } else if b.len() < a.len() {
        1
    } else {
        proof {
            assert(a@.skip(i as int) =~= Seq::<char>::empty());
            assert(b@.skip(i as int) =~= Seq::<char>::empty());
        }
        0
    }
}

// ---------------------------------------------------------------------------
// Lookup table
// ---------------------------------------------------------------------------

#[derive(Debug, Clone, Copy, PartialEq, Eq, Structural)]
/// An index into a [LookupTable]
pub struct LookupIndex(pub u16);

#[derive(Debug)]
/// A lookup table holding all the strings for [ResolvableString]s
pub struct LookupTable {
    pub(crate) lookup_strings: Vec<String>,
    strings_to_add: Vec<String>,
}

/// The characters of each string.
pub open spec fn string_views(v: Seq<String>) -> Seq<Seq<char>> {
    v.map_values(|s: String| s@)
}

impl LookupTable {
    /// The strings stored in the table, in order.
    pub closed spec fn strings(self) -> Seq<Seq<char>> {
        string_views(self.lookup_strings@)
    }

    /// Strings seen once, waiting to be stored if they are seen again.
    pub closed spec fn pending(self) -> Seq<Seq<char>> {
        string_views(self.strings_to_add@)
    }

    pub fn new() -> (t: LookupTable)
        ensures
            t.strings() == Seq::<Seq<char>>::empty(),
            t.pending() == Seq::<Seq<char>>::empty(),
    {
        let t = LookupTable { lookup_strings: Vec::new(), strings_to_add: Vec::new() };
        assert(t.strings() =~= Seq::<Seq<char>>::empty());
        assert(t.pending() =~= Seq::<Seq<char>>::empty());
        t
    }

    /// Creates a new lookup table containing the strings in the passed `Vec`.
    pub fn from_vec(vec: Vec<String>) -> (t: LookupTable)
        ensures
            t.strings() == string_views(vec@),
            t.pending() == Seq::<Seq<char>>::empty(),
    {
        let t = LookupTable { lookup_strings: vec, strings_to_add: Vec::new() };
        assert(t.pending() =~= Seq::<Seq<char>>::empty());
        t
    }

    /// The number of strings stored.
    pub fn len(&self) -> (n: usize)
        ensures
            n == self.strings().len(),
    {
        self.lookup_strings.len()
    }


    /// Whether `str` is stored in the table (as the table's search finds it).
    pub fn lookup_contains(&self, str: &str) -> (r: bool)
        ensures
            r ==> self.strings().contains(str@),
            sorted(self.strings()) ==> (r == self.strings().contains(str@)),
    {
        let res = self.binary_search(str);
        proof {
            if let Ok(i) = res {
                assert(self.strings()[i as int] == str@);
            }
        }
        res.is_ok()
    }

    /// Register the string in the lookup table.
    ///
    /// This does not necessarily mean the string will be in the lookup table during serialization.<br>
    /// We only actually store a string in the lookup table if it is used more than once.
    pub fn add_string(&mut self, str: &str) -> (r: ResolvableString)
        ensures
            r matches ResolvableString::String(s) && s@ == str@,
            Self::added(*old(self), *final(self), str@),
    {
        let ghost x = str@;
        if !self.lookup_contains(str) {
            if let Some(index) = position_of(&self.strings_to_add, str) {
                if let Err(idx) = self.binary_search(str) {
                    proof {
                        lemma_first_position(self.pending(), x);
                    }
                    let ghost old_pending = self.strings_to_add@;
                    let s = self.strings_to_add.swap_remove(index);
                    self.lookup_strings.insert(idx, s);
                    proof {
                        assert(self.pending() =~= old(self).pending().update(
                            index as int,
                            old(self).pending().last(),
                        ).drop_last());
                        assert(self.strings() =~= old(self).strings().insert(idx as int, x));
                        assert(self.strings()[idx as int] == x);
                        assert(self.strings().len() == old(self).strings().len() + 1);
                        assert(self.strings() != old(self).strings());
                        if sorted(old(self).strings()) {
                            lemma_insert_sorted(old(self).strings(), idx as int, x);
                        }
                    }
                }
            } else {
                self.strings_to_add.push(str.to_owned());
                proof {
                    assert(self.pending() =~= old(self).pending().push(x));
                }
            }
        }
        ResolvableString::String(str.to_owned())
    }

    /// What registering `x` does: a string already stored changes nothing;
    /// one seen before moves from the pending list (removed by swapping in
    /// the last entry) into the table; a new one joins the pending list.
    pub open spec fn added(before: Self, after: Self, x: Seq<char>) -> bool {
        let s = before.strings();
        let p = before.pending();
        &&& after.strings() == s || exists|i: int| 0 <= i <= s.len() && after.strings() == s.insert(i, x)
        &&& after.strings() != s ==> (first_position(p, x) matches Some(k) && after.pending()
            == p.update(k as int, p.last()).drop_last())
        &&& sorted(s) ==> sorted(after.strings())
        &&& sorted(s) && s.contains(x) ==> after.strings() == s && after.pending() == p
        &&& sorted(s) && !s.contains(x) ==> match first_position(p, x) {
            Some(k) => after.strings().len() == s.len() + 1 && after.strings().contains(x)
                && after.pending() == p.update(k as int, p.last()).drop_last(),
            None => after.strings() == s && after.pending() == p.push(x),
        }
        &&& after.strings() == s && !(sorted(s) && s.contains(x)) ==> (after.pending() == p
            || after.pending() == p.push(x))
    }

    /// Puts the string into the lookup table.
    ///
    /// Unlike [add_string](Self::add_string) strings passed will always be included in the lookup table.
    pub fn index_string(&mut self, str: &str) -> (r: ResolvableString)
        ensures
            r matches ResolvableString::String(s) && s@ == str@,
            Self::indexed(*old(self), *final(self), str@),
    {
        let ghost x = str@;
        let found = self.binary_search(str);
        if let Ok(i) = found {
            proof {
                assert(self.strings()[i as int] == x);
            }
        }
        if let Err(idx) = found {
            if let Some(idx_to_remove) = position_of(&self.strings_to_add, str) {
                proof {
                    lemma_first_position(self.pending(), x);
                }
                self.strings_to_add.remove(idx_to_remove);
                proof {
                    assert(self.pending() =~= old(self).pending().remove(idx_to_remove as int));
                }
            } else {
                proof {
                    assert(self.pending() == old(self).pending());
                }
            }
            self.lookup_strings.insert(idx, str.to_owned());
            proof {
                assert(self.strings() =~= old(self).strings().insert(idx as int, x));
                if sorted(old(self).strings()) {
                    lemma_insert_sorted(old(self).strings(), idx as int, x);
                }
                assert(self.strings()[idx as int] == x);
            }
        }
        ResolvableString::String(str.to_owned())
    }

    /// What storing `x` does: if the table's search finds it nothing changes;
    /// otherwise it is inserted (where it belongs, on a sorted table) and its
    /// first pending copy, if any, is dropped.
    pub open spec fn indexed(before: Self, after: Self, x: Seq<char>) -> bool {
        let s = before.strings();
        let p = before.pending();
        &&& after.strings().contains(x)
        &&& sorted(s) ==> sorted(after.strings())
        &&& (after.strings() == s && after.pending() == p) || ({
            &&& exists|i: int| 0 <= i <= s.len() && after.strings() == s.insert(i, x)
            &&& after.pending() == match first_position(p, x) {
                Some(k) => p.remove(k as int),
                None => p,
            }
        })
        &&& sorted(s) ==> (s.contains(x) <==> (after.strings() == s && after.pending() == p))
    }


    /// Resolves a string to it's lookup position if it exists
    ///
    /// Any indecies returned from this become invalid if [add_string](Self::add_string) is run again
    pub fn lookup_string(&self, str: &str) -> (r: Option<LookupIndex>)
        ensures
            Self::found(self.strings(), str@, r),
    {
        if self.lookup_contains(str) {
            match position_of(&self.lookup_strings, str) {
                Some(i) => Some(LookupIndex(#[verifier::truncate] (i as u16))),
                None => {
                    proof {
                        lemma_first_position(self.strings(), str@);
                    }
                    None
                },
            }
        } else {
            None
        }
    }

    /// What looking `x` up in `s` may answer: the first position of `x` (as a
    /// 16-bit index), or nothing; on a sorted table, exactly whether it is there.
    pub open spec fn found(s: Seq<Seq<char>>, x: Seq<char>, r: Option<LookupIndex>) -> bool {
        &&& r matches Some(i) ==> first_position(s, x) matches Some(k) && i.0 == k as u16
        &&& sorted(s) ==> (r is Some <==> s.contains(x))
    }

    pub(crate) fn to_string(&self, depth: u8) -> (r: String)
        requires
            depth < 255,
        ensures
            r@ == table_text(self.strings(), depth as nat),
    {
        let mut buf = String::new();
        push_char(&mut buf, '[');
        let n = self.lookup_strings.len();
        for i in 0..n
            invariant
                n == self.strings().len(),
                depth < 255,
                buf@ == seq!['['] + entries_text(self.strings(), depth as nat, i as nat),
        {
            push_char(&mut buf, '\n');
            push_tabs(&mut buf, (depth + 1) as usize);
            push_char(&mut buf, '"');
            push_str(&mut buf, self.lookup_strings[i].as_str());
            push_char(&mut buf, '"');
            assert(buf@ =~= seq!['['] + entries_text(self.strings(), depth as nat, (i + 1) as nat));
        }
        if n > 0 {
            push_char(&mut buf, '\n');
            push_tabs(&mut buf, depth as usize);
        }
        push_char(&mut buf, ']');
        assert(buf@ =~= table_text(self.strings(), depth as nat));
        buf
    }

    /// Resolves a [LookupIndex] into a string if the index is valid
    pub fn get(&self, index: LookupIndex) -> (r: Option<&String>)
        ensures
            (index.0 as nat) < self.strings().len() ==> (r matches Some(s) && s@ == self.strings()[index.0 as int]),
            (index.0 as nat) >= self.strings().len() ==> r is None,
    {
        let i = index.0 as usize;
        if i < self.lookup_strings.len() {
            Some(&self.lookup_strings[i])
        } else {
            None
        }
    }

    /// The string at a valid index (indexing past the end panics).
    pub fn entry(&self, index: LookupIndex) -> (r: &String)
        requires
            (index.0 as nat) < self.strings().len(),
        ensures
            r@ == self.strings()[index.0 as int],
    {
        &self.lookup_strings[index.0 as usize]
    }

    /// The stored string at position `i`.
    pub(crate) fn nth(&self, i: usize) -> (r: &String)
        requires
            i < self.strings().len(),
        ensures
            r@ == self.strings()[i as int],
    {
        &self.lookup_strings[i]
    }

    /// Binary search for `str`: where it is, or where it would go.
    fn binary_search(&self, str: &str) -> (res: Result<usize, usize>)
        ensures
            Self::search_result(self.strings(), str@, res),
    {
        let target = chars_of(str);
        let mut lo: usize = 0;
        let mut hi: usize = self.lookup_strings.len();
        while lo < hi
            invariant
                target@ == str@,
                lo <= hi <= self.strings().len(),
                self.strings().len() == self.lookup_strings@.len(),
                sorted(self.strings()) ==> forall|j: int|
                    0 <= j < lo ==> char_seq_lt(#[trigger] self.strings()[j], str@),
                sorted(self.strings()) ==> forall|j: int|
                    hi <= j < self.strings().len() ==> char_seq_lt(str@, #[trigger] self.strings()[j]),
            decreases hi - lo,
        {
            let mid = lo + (hi - lo) / 2;
            let entry = chars_of(self.lookup_strings[mid].as_str());
            assert(entry@ == self.strings()[mid as int]);
            let c = compare_chars(&entry, &target);
            if c == 0 {
                return Ok(mid);
            } else if c < 0 {
                proof {
                    if sorted(self.strings()) {
                        assert forall|j: int| 0 <= j < mid + 1 implies char_seq_lt(
                            #[trigger] self.strings()[j],
                            str@,
                        ) by {
                            if j < mid {
                                lemma_lt_transitive(self.strings()[j], self.strings()[mid as int], str@);
                            }
                        }
                    }
                }
                lo = mid + 1;
            } else {
                proof {
                    if sorted(self.strings()) {
                        assert forall|j: int| mid <= j < self.strings().len() implies char_seq_lt(
                            str@,
                            #[trigger] self.strings()[j],
                        ) by {
                            if j > mid {
                                lemma_lt_transitive(str@, self.strings()[mid as int], self.strings()[j]);
                            }
                        }
                    }
                }
                hi = mid;
            }
        }
        proof {
            if sorted(self.strings()) && self.strings().contains(str@) {
                let k = choose|k: int| 0 <= k < self.strings().len() && self.strings()[k] == str@;
                lemma_lt_irreflexive(str@);
                if k < lo {
                    assert(char_seq_lt(self.strings()[k], str@));
                } else {
                    assert(char_seq_lt(str@, self.strings()[k]));
                }
            }
        }
        Err(lo)
    }

    /// What a binary search for `x` in `s` may answer: a position of `x`, or a
    /// position at most the length; on a sorted table, exactly whether `x` is
    /// there and where it belongs.
    pub open spec fn search_result(s: Seq<Seq<char>>, x: Seq<char>, res: Result<usize, usize>) -> bool {
        &&& res matches Ok(i) ==> i < s.len() && s[i as int] == x
        &&& res matches Err(i) ==> i <= s.len()
        &&& sorted(s) ==> (res is Ok <==> s.contains(x))
        &&& sorted(s) ==> (res matches Err(i) ==> {
            &&& forall|j: int| 0 <= j < i ==> char_seq_lt(#[trigger] s[j], x)
            &&& forall|j: int| i <= j < s.len() ==> char_seq_lt(x, #[trigger] s[j])
        })
    }
}

impl Default for LookupTable {
    /// An empty table, as [LookupTable::new] makes.
    fn default() -> (t: LookupTable)
        ensures
            t.strings() == Seq::<Seq<char>>::empty(),
            t.pending() == Seq::<Seq<char>>::empty(),
    {
        LookupTable::new()
    }
}


#[derive(Debug, Clone, PartialEq)]
/// A string that can be included in the lookup table
///
/// Needs to be resolved before you can actually get the [String]
pub enum ResolvableString {
    LookupIndex(LookupIndex),
    String(String),
}

/// The mathematical value of a [ResolvableString].
pub enum NameV {
    Index(u16),
    Text(Seq<char>),
}

impl View for ResolvableString {
    type V = NameV;

    open spec fn view(&self) -> NameV {
        match self {
            ResolvableString::LookupIndex(i) => NameV::Index(i.0),
            ResolvableString::String(s) => NameV::Text(s@),
        }
    }
}

impl ResolvableString {
    /// A copy of the string.
    pub fn duplicate(&self) -> (r: ResolvableString)
        ensures
            r@ == self@,
    {
        match self {
            ResolvableString::LookupIndex(i) => ResolvableString::LookupIndex(*i),
            ResolvableString::String(s) => ResolvableString::String(s.clone()),
        }
    }

    /// The text of a resolved string.
    pub open spec fn text(self) -> Option<Seq<char>> {
        match self {
            ResolvableString::LookupIndex(_) => None,
            ResolvableString::String(s) => Some(s@),
        }
    }

    /// The text this string stands for, looking indices up in `table`.
    pub open spec fn text_in(self, table: Seq<Seq<char>>) -> Seq<char> {
        match self {
            ResolvableString::LookupIndex(i) => table[i.0 as int],
            ResolvableString::String(s) => s@,
        }
    }

    /// Whether an index (if this is one) points into a table of `n` strings.
    pub open spec fn valid_for(self, n: nat) -> bool {
        match self {
            ResolvableString::LookupIndex(i) => (i.0 as nat) < n,
            ResolvableString::String(_) => true,
        }
    }

    /// Attempts to return the string, failing if it is unresolved.
    pub fn as_str(&self) -> (r: Option<&str>)
        ensures
            r matches Some(s) ==> self.text() == Some(s@),
            r is None <==> self.text() is None,
    {
        match self {
            ResolvableString::LookupIndex(_) => None,
            ResolvableString::String(s) => Some(s.as_str()),
        }
    }

    /// Gets the string, looking into the lookup table if necessary.
    ///
    /// Does not resolve the string, ideally call [resolve](Self::resolve) and then [as_str](Self::as_str)
    pub fn to_string<'a>(&'a self, lookup_table: &'a LookupTable) -> (r: &'a str)
        requires
            self.valid_for(lookup_table.strings().len()),
        ensures
            r@ == self.text_in(lookup_table.strings()),
    {
        match self {
            ResolvableString::LookupIndex(i) => lookup_table.entry(*i).as_str(),
            ResolvableString::String(s) => s.as_str(),
        }
    }

    /// Resolves the index from the lookup table if necessary.
    pub fn resolve(&mut self, lookup_table: &LookupTable)
        requires
            old(self).valid_for(lookup_table.strings().len()),
        ensures
            final(self).text() == Some(old(self).text_in(lookup_table.strings())),
    {
        let replacement = match &*self {
            ResolvableString::LookupIndex(i) => Some(lookup_table.entry(*i).clone()),
            ResolvableString::String(_) => None,
        };
        if let Some(s) = replacement {
            *self = ResolvableString::String(s);
        }
    }

    /// Converts the string into an index if necessary.
    ///
    /// Does nothing if the string is not already in the lookup table
    pub fn to_index(&mut self, lookup_table: &LookupTable)
        ensures
            match *old(self) {
                ResolvableString::LookupIndex(_) => *final(self) == *old(self),
                ResolvableString::String(s) => LookupTable::found(
                    lookup_table.strings(),
                    s@,
                    match *final(self) {
                        ResolvableString::LookupIndex(i) => Some(i),
                        ResolvableString::String(_) => None,
                    },
                ) && (*final(self) matches ResolvableString::String(t) ==> t@ == s@),
            },
    {
        let found = match &*self {
            ResolvableString::LookupIndex(_) => None,
            ResolvableString::String(s) => lookup_table.lookup_string(s.as_str()),
        };
        if let Some(idx) = found {
            *self = ResolvableString::LookupIndex(idx);
        }
    }
}

} // verus!
