//! Query parameters: a mapping from names to values, kept in canonical order.

use vstd::prelude::*;
use vstd::string::*;
use crate::text::{
    lemma_text_lt_irreflexive, lemma_text_lt_total, lemma_text_lt_transitive, text_equal,
    text_less, text_lt,
};

verus! {

/// A name with its value, as plain text.
pub type Pair = (Seq<char>, Seq<char>);

/// Names grow strictly from each entry to the next, so none occurs twice.
pub open spec fn strictly_sorted(s: Seq<Pair>) -> bool {
    forall|i: int, j: int| 0 <= i < j < s.len() ==> text_lt(#[trigger] s[i].0, #[trigger] s[j].0)
}

/// The pair `p` stands somewhere in `s`.
pub open spec fn occurs(s: Seq<Pair>, p: Pair) -> bool {
    exists|j: int| 0 <= j < s.len() && s[j] == p
}

/// Every pair of `s` stands in `t` too.
pub open spec fn covers(s: Seq<Pair>, t: Seq<Pair>) -> bool {
    forall|i: int| 0 <= i < s.len() ==> occurs(t, #[trigger] s[i])
}

/// Some entry of `s` has the name `k`.
pub open spec fn has_name(s: Seq<Pair>, k: Seq<char>) -> bool {
    exists|i: int| 0 <= i < s.len() && s[i].0 == k
}

/// An index at which `k` is the name, where there is one.
pub open spec fn index_of(s: Seq<Pair>, k: Seq<char>) -> int {
    choose|i: int| 0 <= i < s.len() && s[i].0 == k
}

/// The mapping that a sequence of pairs describes.
pub open spec fn pairs_map(s: Seq<Pair>) -> Map<Seq<char>, Seq<char>> {
    Map::new(|k: Seq<char>| has_name(s, k), |k: Seq<char>| s[index_of(s, k)].1)
}

/// `s` lists the mapping `m` in canonical order.
pub open spec fn is_canonical(s: Seq<Pair>, m: Map<Seq<char>, Seq<char>>) -> bool {
    strictly_sorted(s) && pairs_map(s) =~= m
}

/// The entries of `m` by growing name: the one order in which a mapping is written down.
pub open spec fn canonical(m: Map<Seq<char>, Seq<char>>) -> Seq<Pair> {
    choose|s: Seq<Pair>| is_canonical(s, m)
}

/// In a sorted sequence each name leads to its own entry.
pub proof fn lemma_sorted_lookup(s: Seq<Pair>, i: int)
    requires
        strictly_sorted(s),
        0 <= i < s.len(),
    ensures
        has_name(s, s[i].0),
        index_of(s, s[i].0) == i,
        pairs_map(s).contains_key(s[i].0),
        pairs_map(s)[s[i].0] == s[i].1,
{
    let j = index_of(s, s[i].0);
    lemma_text_lt_irreflexive(s[i].0);
    if j < i {
        assert(text_lt(s[j].0, s[i].0));
    } else if i < j {
        assert(text_lt(s[i].0, s[j].0));
    }
}

/// Two sorted sequences that hold the same pairs are the same sequence.
pub proof fn lemma_sorted_unique(s: Seq<Pair>, t: Seq<Pair>)
    requires
        strictly_sorted(s),
        strictly_sorted(t),
        covers(s, t),
        covers(t, s),
    ensures
        s == t,
    decreases s.len(),
{
    if s.len() == 0 {
        if t.len() > 0 {
            assert(occurs(s, t[0]));
        }
        assert(s =~= t);
    } else {
        assert(occurs(t, s[0]));
        let j = choose|j: int| 0 <= j < t.len() && t[j] == s[0];
        lemma_text_lt_irreflexive(s[0].0);
        if j > 0 {
            assert(occurs(s, t[0]));
            let i = choose|i: int| 0 <= i < s.len() && s[i] == t[0];
            assert(text_lt(t[0].0, t[j].0));
            if i > 0 {
                assert(text_lt(s[0].0, s[i].0));
                lemma_text_lt_transitive(s[0].0, t[0].0, s[0].0);
            }
        }
        assert(s[0] == t[0]);
        let s1 = s.drop_first();
        let t1 = t.drop_first();
        assert forall|a: int, b: int| 0 <= a < b < s1.len() implies text_lt(
            #[trigger] s1[a].0,
            #[trigger] s1[b].0,
        ) by {
            assert(text_lt(s[a + 1].0, s[b + 1].0));
        }
        assert forall|a: int, b: int| 0 <= a < b < t1.len() implies text_lt(
            #[trigger] t1[a].0,
            #[trigger] t1[b].0,
        ) by {
            assert(text_lt(t[a + 1].0, t[b + 1].0));
        }
        assert forall|a: int| 0 <= a < s1.len() implies occurs(t1, #[trigger] s1[a]) by {
            assert(occurs(t, s[a + 1]));
            let b = choose|b: int| 0 <= b < t.len() && t[b] == s[a + 1];
            assert(text_lt(s[0].0, s[a + 1].0));
            assert(b > 0);
            assert(t1[b - 1] == s1[a]);
        }
        assert forall|a: int| 0 <= a < t1.len() implies occurs(s1, #[trigger] t1[a]) by {
            assert(occurs(s, t[a + 1]));
            let b = choose|b: int| 0 <= b < s.len() && s[b] == t[a + 1];
            assert(text_lt(t[0].0, t[a + 1].0));
            assert(b > 0);
            assert(s1[b - 1] == t1[a]);
        }
        lemma_sorted_unique(s1, t1);
        assert(s =~= t) by {
            assert forall|a: int| 0 <= a < s.len() implies s[a] == t[a] by {
                if a > 0 {
                    assert(s1[a - 1] == t1[a - 1]);
                }
            }
            assert(s.len() == s1.len() + 1);
            assert(t.len() == t1.len() + 1);
        }
    }
}

/// A sorted sequence holds every pair of another that describes the same mapping.
pub proof fn lemma_same_map_covers(s: Seq<Pair>, t: Seq<Pair>)
    requires
        strictly_sorted(s),
        strictly_sorted(t),
        pairs_map(s) =~= pairs_map(t),
    ensures
        covers(s, t),
{
    assert forall|i: int| 0 <= i < s.len() implies occurs(t, #[trigger] s[i]) by {
        lemma_sorted_lookup(s, i);
        let k = s[i].0;
        assert(pairs_map(t).contains_key(k));
        let j = index_of(t, k);
        lemma_sorted_lookup(t, j);
        assert(pairs_map(t)[k] == pairs_map(s)[k]);
        assert(t[j] == s[i]);
    }
}

/// A mapping has one canonical listing only: any sorted sequence that
/// describes it is that listing.
pub proof fn lemma_canonical_unique(s: Seq<Pair>, m: Map<Seq<char>, Seq<char>>)
    requires
        is_canonical(s, m),
    ensures
        canonical(m) == s,
{
    let t = canonical(m);
    assert(is_canonical(t, m));
    lemma_same_map_covers(s, t);
    lemma_same_map_covers(t, s);
    lemma_sorted_unique(s, t);
}

/// Putting `p` at `idx`, between the smaller names and the larger ones, adds it to the mapping.
pub proof fn lemma_insert_at(s: Seq<Pair>, idx: int, p: Pair)
    requires
        strictly_sorted(s),
        0 <= idx <= s.len(),
        forall|i: int| 0 <= i < idx ==> text_lt(#[trigger] s[i].0, p.0),
        forall|i: int| idx <= i < s.len() ==> text_lt(p.0, #[trigger] s[i].0),
    ensures
        strictly_sorted(s.insert(idx, p)),
        pairs_map(s.insert(idx, p)) =~= pairs_map(s).insert(p.0, p.1),
{
    let t = s.insert(idx, p);
    assert forall|i: int, j: int| 0 <= i < j < t.len() implies text_lt(
        #[trigger] t[i].0,
        #[trigger] t[j].0,
    ) by {
        let a = if i < idx { i } else { i - 1 };
        let b = if j < idx { j } else { j - 1 };
        if i == idx {
            assert(t[j] == s[b]);
        } else if j == idx {
            assert(t[i] == s[a]);
        } else {
            assert(t[i] == s[a]);
            assert(t[j] == s[b]);
            assert(text_lt(s[a].0, s[b].0));
        }
    }
    assert forall|k: Seq<char>| #[trigger] pairs_map(t).contains_key(k) implies pairs_map(
        s,
    ).insert(p.0, p.1).contains_key(k) by {
        let i = index_of(t, k);
        if i != idx {
            let a = if i < idx { i } else { i - 1 };
            assert(s[a] == t[i]);
        }
    }
    assert forall|k: Seq<char>| #[trigger] pairs_map(s).insert(p.0, p.1).contains_key(
        k,
    ) implies pairs_map(t).contains_key(k) && pairs_map(t)[k] == pairs_map(s).insert(p.0, p.1)[k] by {
        if k == p.0 {
            assert(t[idx] == p);
            lemma_sorted_lookup(t, idx);
        } else {
            let a = index_of(s, k);
            lemma_sorted_lookup(s, a);
            let i = if a < idx { a } else { a + 1 };
            assert(t[i] == s[a]);
            lemma_sorted_lookup(t, i);
        }
    }
}

/// Replacing the value of an entry replaces it in the mapping.
pub proof fn lemma_update_at(s: Seq<Pair>, idx: int, p: Pair)
    requires
        strictly_sorted(s),
        0 <= idx < s.len(),
        s[idx].0 == p.0,
    ensures
        strictly_sorted(s.update(idx, p)),
        pairs_map(s.update(idx, p)) =~= pairs_map(s).insert(p.0, p.1),
{
    let t = s.update(idx, p);
    assert forall|i: int, j: int| 0 <= i < j < t.len() implies text_lt(
        #[trigger] t[i].0,
        #[trigger] t[j].0,
    ) by {
        assert(t[i].0 == s[i].0);
        assert(t[j].0 == s[j].0);
        assert(text_lt(s[i].0, s[j].0));
    }
    assert forall|k: Seq<char>| #[trigger] pairs_map(t).contains_key(k) implies pairs_map(
        s,
    ).insert(p.0, p.1).contains_key(k) by {
        let i = index_of(t, k);
        assert(s[i].0 == t[i].0);
    }
    assert forall|k: Seq<char>| #[trigger] pairs_map(s).insert(p.0, p.1).contains_key(
        k,
    ) implies pairs_map(t).contains_key(k) && pairs_map(t)[k] == pairs_map(s).insert(p.0, p.1)[k] by {
        if k == p.0 {
            lemma_sorted_lookup(t, idx);
        } else {
            let a = index_of(s, k);
            lemma_sorted_lookup(s, a);
            assert(t[a] == s[a]);
            lemma_sorted_lookup(t, a);
        }
    }
}

/// One query parameter.
#[derive(Debug, Clone)]
pub struct Param {
    pub name: String,
    pub value: String,
}

impl View for Param {
    type V = Pair;

    open spec fn view(&self) -> Pair {
        (self.name@, self.value@)
    }
}

/// The pairs that a sequence of parameters holds.
pub open spec fn pairs_of(entries: Seq<Param>) -> Seq<Pair> {
    Seq::new(entries.len(), |i: int| entries[i]@)
}

/// A mapping from parameter names to values. Its entries are kept sorted
/// by name, so that equal mappings are stored alike whatever the order in
/// which they were filled.
#[derive(Debug)]
pub struct Params {
    entries: Vec<Param>,
}

impl View for Params {
    type V = Map<Seq<char>, Seq<char>>;

    open spec fn view(&self) -> Map<Seq<char>, Seq<char>> {
        pairs_map(self.pairs())
    }
}

impl Params {
    /// The entries in stored order.
    pub closed spec fn pairs(&self) -> Seq<Pair> {
        pairs_of(self.entries@)
    }

    /// The entries are sorted by name and no name occurs twice.
    pub open spec fn wf(&self) -> bool {
        strictly_sorted(self.pairs())
    }

    /// The stored order is the canonical listing of the mapping.
    pub proof fn lemma_pairs_canonical(&self)
        requires
            self.wf(),
        ensures
            self.pairs() == canonical(self@),
    {
        lemma_canonical_unique(self.pairs(), self@);
    }

    /// The empty mapping.
    pub fn new() -> (r: Params)
        ensures
            r.wf(),
            r@ == Map::<Seq<char>, Seq<char>>::empty(),
            r.pairs().len() == 0,
    {
        let r = Params { entries: Vec::new() };
        assert(r@ =~= Map::<Seq<char>, Seq<char>>::empty());
        r
    }

    /// The number of entries.
    pub fn len(&self) -> (n: usize)
        ensures
            n == self.pairs().len(),
    {
        self.entries.len()
    }

    /// The entries, by growing name.
    pub fn entries(&self) -> (r: &Vec<Param>)
        ensures
            pairs_of(r@) == self.pairs(),
    {
        &self.entries
    }

    /// The value that `name` is set to, if it is set.
    pub fn value_of(&self, name: &str) -> (r: Option<&String>)
        requires
            self.wf(),
        ensures
            match r {
                Some(value) => self@.contains_key(name@) && self@[name@] == value@,
                None => !self@.contains_key(name@),
            },
    {
        let n: usize = self.entries.len();
        let mut i: usize = 0;
        while i < n
            invariant
                n == self.entries@.len(),
                i <= n,
                self.wf(),
                forall|j: int| 0 <= j < i ==> (#[trigger] self.pairs()[j]).0 != name@,
            decreases n - i,
        {
            if text_equal(self.entries[i].name.as_str(), name) {
                proof {
                    lemma_sorted_lookup(self.pairs(), i as int);
                }
                return Some(&self.entries[i].value);
            }
            i = i + 1;
        }
        None
    }

    /// Sets `name` to `value`, replacing the value the name had before if any.
    pub fn insert(&mut self, name: String, value: String)
        requires
            old(self).wf(),
        ensures
            final(self).wf(),
            final(self)@ == old(self)@.insert(name@, value@),
    {
        let n: usize = self.entries.len();
        let mut i: usize = 0;
        while i < n && text_less(self.entries[i].name.as_str(), name.as_str())
            invariant
                n == self.entries@.len(),
                i <= n,
                *self == *old(self),
                forall|j: int| 0 <= j < i ==> text_lt(#[trigger] self.pairs()[j].0, name@),
            decreases n - i,
        {
            i = i + 1;
        }
        let ghost before = self.pairs();
        let ghost p: Pair = (name@, value@);
        if i < n && self.entries[i].name == name {
            self.entries.set(i, Param { name, value });
            proof {
                assert(self.pairs() =~= before.update(i as int, p));
                lemma_update_at(before, i as int, p);
            }
        } else {
            proof {
                assert forall|j: int| i <= j < before.len() implies text_lt(
                    p.0,
                    #[trigger] before[j].0,
                ) by {
                    lemma_text_lt_total(before[i as int].0, name@);
                    if j > i {
                        assert(text_lt(before[i as int].0, before[j].0));
                        lemma_text_lt_transitive(name@, before[i as int].0, before[j].0);
                    }
                }
            }
            self.entries.insert(i, Param { name, value });
            proof {
                assert(self.pairs() =~= before.insert(i as int, p));
                lemma_insert_at(before, i as int, p);
            }
        }
    }

    /// A copy of the mapping.
    pub fn duplicate(&self) -> (r: Params)
        requires
            self.wf(),
        ensures
            r.wf(),
            r.pairs() == self.pairs(),
            r@ == self@,
    {
        let mut entries: Vec<Param> = Vec::new();
        let n: usize = self.entries.len();
        let mut i: usize = 0;
        while i < n
            invariant
                n == self.entries@.len(),
                i <= n,
                entries@.len() == i,
                forall|j: int| 0 <= j < i ==> entries@[j]@ == self.entries@[j]@,
            decreases n - i,
        {
            let e: &Param = &self.entries[i];
            entries.push(Param { name: e.name.clone(), value: e.value.clone() });
            i = i + 1;
        }
        let r = Params { entries };
        assert(r.pairs() =~= self.pairs());
        r
    }
}

} // verus!
