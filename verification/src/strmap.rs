//! A string-to-string map kept sorted by key — the table type behind the
//! `env` and `winedlloverride` settings. Keys are ordered by code point,
//! character by character (the same order as comparing their UTF-8 bytes),
//! so walking the entries is deterministic.
use vstd::prelude::*;

use crate::text::chars_of;

verus! {

/// Strict lexicographic order on character sequences, comparing from index
/// `i` on (the two sequences are assumed to agree before `i`).
pub open spec fn lt_from(a: Seq<char>, b: Seq<char>, i: int) -> bool
    decreases a.len() - i,
{
    if i < 0 || i >= b.len() {
        false
    } else if i >= a.len() {
        true
    } else if a[i] != b[i] {
        a[i] < b[i]
    } else {
        lt_from(a, b, i + 1)
    }
}

/// `a` sorts strictly before `b`.
pub open spec fn key_lt(a: Seq<char>, b: Seq<char>) -> bool {
    lt_from(a, b, 0)
}

proof fn lemma_lt_from_irreflexive(a: Seq<char>, i: int)
    requires
        0 <= i,
    ensures
        !lt_from(a, a, i),
    decreases a.len() - i,
{
    if i < a.len() {
        lemma_lt_from_irreflexive(a, i + 1);
    }
}

proof fn lemma_lt_from_transitive(a: Seq<char>, b: Seq<char>, c: Seq<char>, i: int)
    requires
        0 <= i,
        lt_from(a, b, i),
        lt_from(b, c, i),
    ensures
        lt_from(a, c, i),
    decreases a.len() - i,
{
    if i < a.len() && a[i] == b[i] && b[i] == c[i] {
        lemma_lt_from_transitive(a, b, c, i + 1);
    }
}

proof fn lemma_lt_from_total(a: Seq<char>, b: Seq<char>, i: int)
    requires
        0 <= i <= a.len(),
        i <= b.len(),
        a.take(i) == b.take(i),
    ensures
        a == b || lt_from(a, b, i) || lt_from(b, a, i),
    decreases a.len() - i,
{
    if i == a.len() && i == b.len() {
        assert(a == a.take(i));
        assert(b == b.take(i));
    } else if i < a.len() && i < b.len() && a[i] == b[i] {
        assert(a.take(i + 1) == a.take(i).push(a[i]));
        assert(b.take(i + 1) == b.take(i).push(b[i]));
        lemma_lt_from_total(a, b, i + 1);
    }
}

/// `key_lt` is a strict total order.
pub proof fn lemma_key_order(a: Seq<char>, b: Seq<char>, c: Seq<char>)
    ensures
        !key_lt(a, a),
        key_lt(a, b) && key_lt(b, c) ==> key_lt(a, c),
        a == b || key_lt(a, b) || key_lt(b, a),
        key_lt(a, b) ==> !key_lt(b, a),
{
    lemma_lt_from_irreflexive(a, 0);
    if key_lt(a, b) && key_lt(b, c) {
        lemma_lt_from_transitive(a, b, c, 0);
    }
    if key_lt(a, b) && key_lt(b, a) {
        lemma_lt_from_transitive(a, b, a, 0);
    }
    assert(a.take(0) == b.take(0));
    lemma_lt_from_total(a, b, 0);
}

/// Whether `a` sorts strictly before `b`.
pub fn chars_lt(a: &[char], b: &[char]) -> (r: bool)
    ensures
        r == key_lt(a@, b@),
{
    let mut i: usize = 0;
    while i < a.len() && i < b.len() && a[i] == b[i]
        invariant
            i <= a@.len(),
            i <= b@.len(),
            lt_from(a@, b@, 0) == lt_from(a@, b@, i as int),
        decreases a@.len() - i,
    {
        i = i + 1;
    }
    if i >= b.len() {
        false
    } else if i >= a.len() {
        true
    } else {
        a[i] < b[i]
    }
}

/// Whether string `a` sorts strictly before string `b`.
pub fn str_lt(a: &str, b: &str) -> (r: bool)
    ensures
        r == key_lt(a@, b@),
{
    let av = chars_of(a);
    let bv = chars_of(b);
    chars_lt(&av, &bv)
}

/// Keys strictly increasing along the sequence.
pub open spec fn sorted_keys(ps: Seq<(Seq<char>, Seq<char>)>) -> bool {
    forall|i: int, j: int| 0 <= i < j < ps.len() ==> key_lt(#[trigger] ps[i].0, #[trigger] ps[j].0)
}

/// Entry `i` of `ps` has key `k`.
pub open spec fn key_at(ps: Seq<(Seq<char>, Seq<char>)>, k: Seq<char>, i: int) -> bool {
    0 <= i < ps.len() && ps[i].0 == k
}

/// The map that a list of entries with distinct keys stands for.
pub open spec fn map_of_pairs(ps: Seq<(Seq<char>, Seq<char>)>) -> Map<Seq<char>, Seq<char>> {
    Map::new(
        |k: Seq<char>| exists|i: int| key_at(ps, k, i),
        |k: Seq<char>| ps[choose|i: int| key_at(ps, k, i)].1,
    )
}

pub open spec fn pair_view(p: (String, String)) -> (Seq<char>, Seq<char>) {
    (p.0@, p.1@)
}

/// String-keyed map with string values, its entries kept in ascending key
/// order.
#[derive(Debug)]
pub struct StrMap {
    entries: Vec<(String, String)>,
}

impl StrMap {
    #[verifier::type_invariant]
    spec fn inv(self) -> bool {
        sorted_keys(self.entries@.map_values(|p: (String, String)| pair_view(p)))
    }

    /// The entries, as views, in ascending key order.
    pub closed spec fn pairs(self) -> Seq<(Seq<char>, Seq<char>)> {
        self.entries@.map_values(|p: (String, String)| pair_view(p))
    }
}

impl View for StrMap {
    type V = Map<Seq<char>, Seq<char>>;

    closed spec fn view(&self) -> Map<Seq<char>, Seq<char>> {
        map_of_pairs(self.pairs())
    }
}

/// In a list with strictly increasing keys, each key is held by one index.
proof fn lemma_unique_index(ps: Seq<(Seq<char>, Seq<char>)>, k: Seq<char>, i: int)
    requires
        sorted_keys(ps),
        key_at(ps, k, i),
    ensures
        (choose|j: int| key_at(ps, k, j)) == i,
        map_of_pairs(ps).dom().contains(k),
        map_of_pairs(ps)[k] == ps[i].1,
{
    let j = choose|j: int| key_at(ps, k, j);
    assert(key_at(ps, k, j));
    if j != i {
        lemma_key_order(k, k, k);
        if j < i {
            assert(key_lt(ps[j].0, ps[i].0));
        } else {
            assert(key_lt(ps[i].0, ps[j].0));
        }
    }
}

impl StrMap {
    /// An empty map.
    pub fn new() -> (m: StrMap)
        ensures
            m@ == Map::<Seq<char>, Seq<char>>::empty(),
            m.pairs() == Seq::<(Seq<char>, Seq<char>)>::empty(),
    {
        let m = StrMap { entries: Vec::new() };
        assert(m.pairs() =~= Seq::<(Seq<char>, Seq<char>)>::empty());
        assert(m@ =~= Map::<Seq<char>, Seq<char>>::empty());
        m
    }

    /// The entries in ascending key order; they are exactly the map's
    /// contents.
    pub fn entries(&self) -> (r: &Vec<(String, String)>)
        ensures
            r@.map_values(|p: (String, String)| pair_view(p)) == self.pairs(),
            sorted_keys(self.pairs()),
            self@ == map_of_pairs(self.pairs()),
            forall|i: int| 0 <= i < self.pairs().len() ==> self@.dom().contains(#[trigger] self.pairs()[i].0)
                && self@[self.pairs()[i].0] == self.pairs()[i].1,
            forall|k: Seq<char>| self@.dom().contains(k) ==> exists|i: int| key_at(self.pairs(), k, i),
    {
        proof {
            use_type_invariant(self);
            assert forall|i: int| 0 <= i < self.pairs().len() implies self@.dom().contains(
                #[trigger] self.pairs()[i].0,
            ) && self@[self.pairs()[i].0] == self.pairs()[i].1 by {
                lemma_unique_index(self.pairs(), self.pairs()[i].0, i);
            }
        }
        &self.entries
    }

    /// Number of entries.
    pub fn len(&self) -> (r: usize)
        ensures
            r == self.pairs().len(),
            r == self@.dom().len(),
    {
        proof {
            use_type_invariant(self);
            self.lemma_dom_len();
        }
        self.entries.len()
    }

    /// Whether the map has no entries.
    pub fn is_empty(&self) -> (r: bool)
        ensures
            r == (self@ == Map::<Seq<char>, Seq<char>>::empty()),
    {
        proof {
            use_type_invariant(self);
            if self.entries.len() > 0 {
                let k = self.pairs()[0].0;
                assert(key_at(self.pairs(), k, 0));
                assert(self@.dom().contains(k));
                assert(!Map::<Seq<char>, Seq<char>>::empty().dom().contains(k));
            } else {
                assert(self@ =~= Map::<Seq<char>, Seq<char>>::empty());
            }
        }
        self.entries.len() == 0
    }

    proof fn lemma_dom_len(&self)
        requires
            sorted_keys(self.pairs()),
        ensures
            self@.dom().finite(),
            self@.dom().len() == self.pairs().len(),
    {
        let ps = self.pairs();
        let keys = ps.map_values(|p: (Seq<char>, Seq<char>)| p.0);
        assert forall|i: int, j: int| 0 <= i < j < keys.len() implies keys[i] != keys[j] by {
            assert(key_lt(ps[i].0, ps[j].0));
            lemma_key_order(ps[i].0, ps[j].0, ps[j].0);
        }
        assert(keys.no_duplicates());
        keys.unique_seq_to_set();
        assert(self@.dom() =~= keys.to_set()) by {
            assert forall|k: Seq<char>| self@.dom().contains(k) implies keys.to_set().contains(k) by {
                let i = choose|i: int| key_at(ps, k, i);
                assert(keys[i] == k);
            }
            assert forall|k: Seq<char>| keys.to_set().contains(k) implies self@.dom().contains(k) by {
                let i = choose|i: int| 0 <= i < keys.len() && keys[i] == k;
                assert(key_at(ps, k, i));
            }
        }
    }

    /// First index whose key does not sort before `k`.
    fn lower_bound(&self, k: &[char]) -> (r: usize)
        ensures
            r <= self.pairs().len(),
            forall|i: int| 0 <= i < r ==> key_lt(#[trigger] self.pairs()[i].0, k@),
            r < self.pairs().len() ==> !key_lt(self.pairs()[r as int].0, k@),
    {
        let mut i: usize = 0;
        while i < self.entries.len()
            invariant
                i <= self.entries@.len(),
                self.pairs().len() == self.entries@.len(),
                forall|j: int| 0 <= j < i ==> key_lt(#[trigger] self.pairs()[j].0, k@),
            decreases self.entries@.len() - i,
        {
            let key = chars_of(self.entries[i].0.as_str());
            if !chars_lt(&key, k) {
                return i;
            }
            i = i + 1;
        }
        i
    }

    /// Index of the entry with key `k`, if there is one.
    fn find(&self, k: &str) -> (r: Option<usize>)
        ensures
            match r {
                Some(i) => key_at(self.pairs(), k@, i as int),
                None => !self@.dom().contains(k@),
            },
    {
        proof {
            use_type_invariant(self);
        }
        let kv = chars_of(k);
        let i = self.lower_bound(&kv);
        if i < self.entries.len() {
            let key = chars_of(self.entries[i].0.as_str());
            if crate::text::chars_eq(&key, &kv) {
                return Some(i);
            }
        }
        proof {
            let ps = self.pairs();
            if self@.dom().contains(k@) {
                let j = choose|j: int| key_at(ps, k@, j);
                lemma_key_order(k@, k@, k@);
                if j < i {
                    assert(key_lt(ps[j].0, k@));
                } else {
                    if j > i {
                        assert(key_lt(ps[i as int].0, ps[j].0));
                    }
                    lemma_key_order(ps[i as int].0, k@, k@);
                }
            }
        }
        None
    }

    /// Whether `k` is a key of the map.
    pub fn contains_key(&self, k: &str) -> (r: bool)
        ensures
            r == self@.dom().contains(k@),
    {
        proof {
            use_type_invariant(self);
        }
        match self.find(k) {
            Some(i) => {
                proof {
                    lemma_unique_index(self.pairs(), k@, i as int);
                }
                true
            },
            None => false,
        }
    }

    /// A copy of the value stored under `k`.
    pub fn get(&self, k: &str) -> (r: Option<String>)
        ensures
            match r {
                Some(v) => self@.dom().contains(k@) && self@[k@] == v@,
                None => !self@.dom().contains(k@),
            },
    {
        proof {
            use_type_invariant(self);
        }
        match self.find(k) {
            Some(i) => {
                proof {
                    lemma_unique_index(self.pairs(), k@, i as int);
                }
                Some(self.entries[i].1.clone())
            },
            None => None,
        }
    }

    /// Sets `k` to `v`, replacing any value it had.
    pub fn insert(&mut self, k: String, v: String)
        ensures
            final(self)@ == old(self)@.insert(k@, v@),
    {
        proof {
            use_type_invariant(&*self);
        }
        let ghost ps = self.pairs();
        let kv = chars_of(k.as_str());
        let i = self.lower_bound(&kv);
        let mut e: Vec<(String, String)> = Vec::new();
        std::mem::swap(&mut e, &mut self.entries);
        assert(e@.map_values(|p: (String, String)| pair_view(p)) == ps);
        let exact = if i < e.len() {
            let key = chars_of(e[i].0.as_str());
            crate::text::chars_eq(&key, &kv)
        } else {
            false
        };
        let ghost new_pair = (k@, v@);
        if exact {
            e.set(i, (k, v));
            let ghost qs = e@.map_values(|p: (String, String)| pair_view(p));
            proof {
                assert(qs =~= ps.update(i as int, new_pair));
                assert(sorted_keys(qs)) by {
                    assert forall|a: int, b: int| 0 <= a < b < qs.len() implies key_lt(
                        #[trigger] qs[a].0,
                        #[trigger] qs[b].0,
                    ) by {
                        assert(key_lt(ps[a].0, ps[b].0));
                    }
                }
                lemma_map_after_update(ps, qs, i as int, new_pair);
            }
        } else {
            e.insert(i, (k, v));
            let ghost qs = e@.map_values(|p: (String, String)| pair_view(p));
            proof {
                assert(qs =~= ps.insert(i as int, new_pair));
                if i < ps.len() {
                    lemma_key_order(ps[i as int].0, kv@, kv@);
                    assert(key_lt(kv@, ps[i as int].0));
                }
                assert(sorted_keys(qs)) by {
                    assert forall|a: int, b: int| 0 <= a < b < qs.len() implies key_lt(
                        #[trigger] qs[a].0,
                        #[trigger] qs[b].0,
                    ) by {
                        if b < i {
                            assert(key_lt(ps[a].0, ps[b].0));
                        } else if b == i {
                            assert(key_lt(ps[a].0, kv@));
                        } else if a < i {
                            assert(key_lt(ps[a].0, kv@));
                            if b - 1 > i {
                                assert(key_lt(ps[i as int].0, ps[b - 1].0));
                                lemma_key_order(kv@, ps[i as int].0, ps[b - 1].0);
                            }
                            lemma_key_order(ps[a].0, kv@, ps[b - 1].0);
                        } else if a == i {
                            if b - 1 > i {
                                assert(key_lt(ps[i as int].0, ps[b - 1].0));
                                lemma_key_order(kv@, ps[i as int].0, ps[b - 1].0);
                            }
                        } else {
                            assert(key_lt(ps[a - 1].0, ps[b - 1].0));
                        }
                    }
                }
                lemma_map_after_insert(ps, qs, i as int, new_pair);
            }
        }
        self.entries = e;
    }

    /// Removes `k`, returning the value it had.
    pub fn remove(&mut self, k: &str) -> (r: Option<String>)
        ensures
            final(self)@ == old(self)@.remove(k@),
            match r {
                Some(v) => old(self)@.dom().contains(k@) && old(self)@[k@] == v@,
                None => !old(self)@.dom().contains(k@),
            },
    {
        proof {
            use_type_invariant(&*self);
        }
        let ghost ps = self.pairs();
        match self.find(k) {
            None => {
                assert(self@ =~= self@.remove(k@));
                None
            },
            Some(i) => {
                proof {
                    lemma_unique_index(ps, k@, i as int);
                }
                let mut e: Vec<(String, String)> = Vec::new();
                std::mem::swap(&mut e, &mut self.entries);
                assert(e@.map_values(|p: (String, String)| pair_view(p)) == ps);
                let (_, old_v) = e.remove(i);
                let ghost qs = e@.map_values(|p: (String, String)| pair_view(p));
                proof {
                    assert(qs =~= ps.remove(i as int));
                    assert(sorted_keys(qs)) by {
                        assert forall|a: int, b: int| 0 <= a < b < qs.len() implies key_lt(
                            #[trigger] qs[a].0,
                            #[trigger] qs[b].0,
                        ) by {
                            if b < i {
                                assert(key_lt(ps[a].0, ps[b].0));
                            } else if a < i {
                                assert(key_lt(ps[a].0, ps[b + 1].0));
                            } else {
                                assert(key_lt(ps[a + 1].0, ps[b + 1].0));
                            }
                        }
                    }
                    lemma_map_after_remove(ps, qs, i as int);
                }
                self.entries = e;
                Some(old_v)
            },
        }
    }

    /// Copies every entry of `other` into `self`; on a shared key, `other`'s
    /// value wins (std's `Extend` for maps).
    pub fn extend(&mut self, other: &StrMap)
        ensures
            final(self)@ == old(self)@.union_prefer_right(other@),
    {
        let es = other.entries();
        let ghost base = self@;
        let mut i: usize = 0;
        while i < es.len()
            invariant
                i <= es@.len(),
                es@.map_values(|p: (String, String)| pair_view(p)) == other.pairs(),
                sorted_keys(other.pairs()),
                other@ == map_of_pairs(other.pairs()),
                self@ == base.union_prefer_right(map_of_pairs(other.pairs().take(i as int))),
            decreases es@.len() - i,
        {
            let ghost ps = other.pairs();
            let ghost before = map_of_pairs(ps.take(i as int));
            let ghost after = map_of_pairs(ps.take(i + 1));
            proof {
                lemma_map_of_take_step(ps, i as int);
            }
            self.insert(es[i].0.clone(), es[i].1.clone());
            assert(self@ =~= base.union_prefer_right(after));
            i = i + 1;
        }
        proof {
            assert(other.pairs().take(es@.len() as int) == other.pairs());
        }
    }

    /// Builds a map from key/value pairs; a later pair wins over an earlier
    /// one with the same key.
    pub fn from_pairs(v: Vec<(String, String)>) -> (m: StrMap)
        ensures
            m@ == map_of_list(v@.map_values(|p: (String, String)| pair_view(p))),
    {
        let mut m = StrMap::new();
        let ghost vs = v@.map_values(|p: (String, String)| pair_view(p));
        let mut i: usize = 0;
        while i < v.len()
            invariant
                i <= v@.len(),
                vs == v@.map_values(|p: (String, String)| pair_view(p)),
                m@ == map_of_list(vs.take(i as int)),
            decreases v@.len() - i,
        {
            assert(vs.take(i + 1).drop_last() == vs.take(i as int));
            m.insert(v[i].0.clone(), v[i].1.clone());
            i = i + 1;
        }
        assert(vs.take(v@.len() as int) == vs);
        m
    }
}

impl Clone for StrMap {
    fn clone(&self) -> (r: Self)
        ensures
            r@ == self@,
            r.pairs() == self.pairs(),
    {
        proof {
            use_type_invariant(self);
        }
        let mut e: Vec<(String, String)> = Vec::new();
        let mut i: usize = 0;
        while i < self.entries.len()
            invariant
                i <= self.entries@.len(),
                e@.map_values(|p: (String, String)| pair_view(p)) == self.pairs().take(i as int),
            decreases self.entries@.len() - i,
        {
            let k = self.entries[i].0.clone();
            let v = self.entries[i].1.clone();
            let ghost before = e@;
            e.push((k, v));
            assert(e@ == before.push((k, v)));
            assert(pair_view((k, v)) == self.pairs()[i as int]);
            assert(e@.map_values(|p: (String, String)| pair_view(p)) =~= before.map_values(
                |p: (String, String)| pair_view(p),
            ).push(pair_view((k, v))));
            assert(self.pairs().take(i + 1) =~= self.pairs().take(i as int).push(self.pairs()[i as int]));
            i = i + 1;
        }
        assert(self.pairs().take(self.entries@.len() as int) == self.pairs());
        StrMap { entries: e }
    }
}

/// The map built by inserting a list of pairs in order (later pairs win).
pub open spec fn map_of_list(ps: Seq<(Seq<char>, Seq<char>)>) -> Map<Seq<char>, Seq<char>>
    decreases ps.len(),
{
    if ps.len() == 0 {
        Map::empty()
    } else {
        map_of_list(ps.drop_last()).insert(ps.last().0, ps.last().1)
    }
}

proof fn lemma_map_after_update(
    ps: Seq<(Seq<char>, Seq<char>)>,
    qs: Seq<(Seq<char>, Seq<char>)>,
    i: int,
    p: (Seq<char>, Seq<char>),
)
    requires
        sorted_keys(ps),
        sorted_keys(qs),
        0 <= i < ps.len(),
        ps[i].0 == p.0,
        qs == ps.update(i, p),
    ensures
        map_of_pairs(qs) == map_of_pairs(ps).insert(p.0, p.1),
{
    let m = map_of_pairs(ps);
    let n = map_of_pairs(qs);
    assert forall|k: Seq<char>| n.dom().contains(k) <==> m.insert(p.0, p.1).dom().contains(k) by {
        if n.dom().contains(k) {
            let j = choose|j: int| key_at(qs, k, j);
            assert(key_at(ps, k, j));
        }
        if m.dom().contains(k) {
            let j = choose|j: int| key_at(ps, k, j);
            assert(key_at(qs, k, j));
        }
        if k == p.0 {
            assert(key_at(qs, k, i));
        }
    }
    assert forall|k: Seq<char>| #[trigger] n.dom().contains(k) implies n[k] == m.insert(p.0, p.1)[k] by {
        let j = choose|j: int| key_at(qs, k, j);
        lemma_unique_index(qs, k, j);
        if k == p.0 {
            assert(key_at(qs, k, i));
            lemma_unique_index(qs, k, i);
        }
        if k != p.0 {
            assert(key_at(ps, k, j));
            lemma_unique_index(ps, k, j);
        }
    }
    assert(n =~= m.insert(p.0, p.1));
}

proof fn lemma_map_after_insert(
    ps: Seq<(Seq<char>, Seq<char>)>,
    qs: Seq<(Seq<char>, Seq<char>)>,
    i: int,
    p: (Seq<char>, Seq<char>),
)
    requires
        sorted_keys(ps),
        sorted_keys(qs),
        0 <= i <= ps.len(),
        qs == ps.insert(i, p),
    ensures
        map_of_pairs(qs) == map_of_pairs(ps).insert(p.0, p.1),
{
    let m = map_of_pairs(ps);
    let n = map_of_pairs(qs);
    assert forall|k: Seq<char>| n.dom().contains(k) <==> m.insert(p.0, p.1).dom().contains(k) by {
        if n.dom().contains(k) && k != p.0 {
            let j = choose|j: int| key_at(qs, k, j);
            if j < i {
                assert(key_at(ps, k, j));
            } else {
                assert(key_at(ps, k, j - 1));
            }
        }
        if m.dom().contains(k) {
            let j = choose|j: int| key_at(ps, k, j);
            if j < i {
                assert(key_at(qs, k, j));
            } else {
                assert(key_at(qs, k, j + 1));
            }
        }
        if k == p.0 {
            assert(key_at(qs, k, i));
        }
    }
    assert forall|k: Seq<char>| #[trigger] n.dom().contains(k) implies n[k] == m.insert(p.0, p.1)[k] by {
        let j = choose|j: int| key_at(qs, k, j);
        lemma_unique_index(qs, k, j);
        if k == p.0 {
            assert(key_at(qs, k, i));
            lemma_unique_index(qs, k, i);
        }
        if k != p.0 {
            if j < i {
                assert(key_at(ps, k, j));
                lemma_unique_index(ps, k, j);
            } else {
                assert(j != i);
                assert(key_at(ps, k, j - 1));
                lemma_unique_index(ps, k, j - 1);
            }
        }
    }
    assert(n =~= m.insert(p.0, p.1));
}

proof fn lemma_map_after_remove(ps: Seq<(Seq<char>, Seq<char>)>, qs: Seq<(Seq<char>, Seq<char>)>, i: int)
    requires
        sorted_keys(ps),
        sorted_keys(qs),
        0 <= i < ps.len(),
        qs == ps.remove(i),
    ensures
        map_of_pairs(qs) == map_of_pairs(ps).remove(ps[i].0),
{
    let k0 = ps[i].0;
    let m = map_of_pairs(ps);
    let n = map_of_pairs(qs);
    assert forall|k: Seq<char>| n.dom().contains(k) <==> m.remove(k0).dom().contains(k) by {
        if n.dom().contains(k) {
            let j = choose|j: int| key_at(qs, k, j);
            if j < i {
                assert(key_at(ps, k, j));
                assert(key_lt(ps[j].0, ps[i].0));
            } else {
                assert(key_at(ps, k, j + 1));
                assert(key_lt(ps[i].0, ps[j + 1].0));
            }
            lemma_key_order(k, k, k);
        }
        if m.dom().contains(k) && k != k0 {
            let j = choose|j: int| key_at(ps, k, j);
            if j < i {
                assert(key_at(qs, k, j));
            } else {
                assert(j != i);
                assert(key_at(qs, k, j - 1));
            }
        }
    }
    assert forall|k: Seq<char>| #[trigger] n.dom().contains(k) implies n[k] == m.remove(k0)[k] by {
        let j = choose|j: int| key_at(qs, k, j);
        lemma_unique_index(qs, k, j);
        if j < i {
            assert(key_at(ps, k, j));
            lemma_unique_index(ps, k, j);
        } else {
            assert(key_at(ps, k, j + 1));
            lemma_unique_index(ps, k, j + 1);
        }
    }
    assert(n =~= m.remove(k0));
}

proof fn lemma_map_of_take_step(ps: Seq<(Seq<char>, Seq<char>)>, i: int)
    requires
        sorted_keys(ps),
        0 <= i < ps.len(),
    ensures
        map_of_pairs(ps.take(i + 1)) == map_of_pairs(ps.take(i)).insert(ps[i].0, ps[i].1),
{
    let a = ps.take(i);
    let b = ps.take(i + 1);
    assert(sorted_keys(a)) by {
        assert forall|x: int, y: int| 0 <= x < y < a.len() implies key_lt(#[trigger] a[x].0, #[trigger] a[y].0) by {
            assert(key_lt(ps[x].0, ps[y].0));
        }
    }
    assert(sorted_keys(b)) by {
        assert forall|x: int, y: int| 0 <= x < y < b.len() implies key_lt(#[trigger] b[x].0, #[trigger] b[y].0) by {
            assert(key_lt(ps[x].0, ps[y].0));
        }
    }
    assert(b =~= a.insert(i, ps[i]));
    lemma_map_after_insert(a, b, i, ps[i]);
}

} // verus!
