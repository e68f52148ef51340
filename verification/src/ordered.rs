//! Maps with string keys that are walked in the order of their keys.

use vstd::prelude::*;

use crate::text::{less, same_text, text_less, text_less_irreflexive, text_less_total, text_less_transitive};

verus! {

/// Whether the keys of `s` ascend.
pub open spec fn ascending<V>(s: Seq<(Seq<char>, V)>) -> bool {
    forall|i: int, j: int| 0 <= i < j < s.len() ==> text_less(#[trigger] s[i].0, #[trigger] s[j].0)
}

/// Whether `s` lists the pairs of `m` in the order of their keys.
pub open spec fn lists<V>(s: Seq<(Seq<char>, V)>, m: Map<Seq<char>, V>) -> bool {
    &&& ascending(s)
    &&& forall|i: int| 0 <= i < s.len() ==> m.contains_key(#[trigger] s[i].0) && m[s[i].0] == s[i].1
    &&& forall|k: Seq<char>| #[trigger] m.contains_key(k) ==> exists|i: int| 0 <= i < s.len() && #[trigger] s[i].0 == k
}

/// The pairs of `m` in the order of their keys.
pub open spec fn in_order<V>(m: Map<Seq<char>, V>) -> Seq<(Seq<char>, V)> {
    choose|s: Seq<(Seq<char>, V)>| lists(s, m)
}

proof fn lists_same_at<V>(s: Seq<(Seq<char>, V)>, t: Seq<(Seq<char>, V)>, m: Map<Seq<char>, V>, i: int)
    requires
        lists(s, m),
        lists(t, m),
        0 <= i < s.len(),
        i <= t.len(),
        forall|k: int| 0 <= k < i ==> #[trigger] s[k] == t[k],
    ensures
        i < t.len(),
        s[i] == t[i],
{
    assert(m.contains_key(s[i].0));
    let a = choose|a: int| 0 <= a < t.len() && #[trigger] t[a].0 == s[i].0;
    if a < i {
        assert(text_less(s[a].0, s[i].0));
        text_less_irreflexive(s[i].0);
    }
    assert(m.contains_key(t[i].0));
    let b = choose|b: int| 0 <= b < s.len() && #[trigger] s[b].0 == t[i].0;
    if b < i {
        assert(text_less(t[b].0, t[i].0));
        text_less_irreflexive(t[i].0);
    }
    if a > i {
        assert(text_less(t[i].0, t[a].0));
        if b > i {
            assert(text_less(s[i].0, s[b].0));
            text_less_transitive(s[i].0, s[b].0, t[a].0);
        }
        text_less_irreflexive(s[i].0);
    }
}

proof fn lists_same_upto<V>(s: Seq<(Seq<char>, V)>, t: Seq<(Seq<char>, V)>, m: Map<Seq<char>, V>, n: int)
    requires
        lists(s, m),
        lists(t, m),
        0 <= n <= s.len(),
    ensures
        n <= t.len(),
        forall|k: int| 0 <= k < n ==> #[trigger] s[k] == t[k],
    decreases n,
{
    if n > 0 {
        lists_same_upto(s, t, m, n - 1);
        lists_same_at(s, t, m, n - 1);
    }
}

/// A map has one listing in the order of its keys.
pub proof fn listing_is_unique<V>(s: Seq<(Seq<char>, V)>, m: Map<Seq<char>, V>)
    requires
        lists(s, m),
    ensures
        s == in_order(m),
{
    let t = in_order(m);
    lists_same_upto(s, t, m, s.len() as int);
    lists_same_upto(t, s, m, t.len() as int);
    assert(s =~= t);
}

/// A listing has as many pairs as its map.
pub proof fn listing_length<V>(s: Seq<(Seq<char>, V)>, m: Map<Seq<char>, V>)
    requires
        lists(s, m),
    ensures
        m.dom().finite(),
        m.len() == s.len(),
{
    let keys = s.map_values(|e: (Seq<char>, V)| e.0);
    assert(keys.no_duplicates()) by {
        assert forall|i: int, j: int| 0 <= i < keys.len() && 0 <= j < keys.len() && i != j implies keys[i]
            != keys[j] by {
            text_less_irreflexive(keys[i]);
            if i < j {
                assert(text_less(s[i].0, s[j].0));
            } else {
                assert(text_less(s[j].0, s[i].0));
            }
        }
    }
    keys.unique_seq_to_set();
    assert forall|k: Seq<char>| m.dom().contains(k) == keys.to_set().contains(k) by {
        if m.contains_key(k) {
            let i = choose|i: int| 0 <= i < s.len() && #[trigger] s[i].0 == k;
            assert(keys[i] == k);
        }
        if keys.contains(k) {
            let i = choose|i: int| 0 <= i < keys.len() && keys[i] == k;
            assert(m.contains_key(s[i].0));
        }
    }
    assert(m.dom() =~= keys.to_set());
}

/// The pairs of `entries`, each key by its characters.
pub open spec fn pairs<V>(entries: Seq<(String, V)>) -> Seq<(Seq<char>, V)> {
    entries.map_values(|e: (String, V)| (e.0@, e.1))
}

/// The map that pairs make: the later of two with one key counts.
pub open spec fn map_of<V>(s: Seq<(Seq<char>, V)>) -> Map<Seq<char>, V>
    decreases s.len(),
{
    if s.len() == 0 {
        Map::empty()
    } else {
        map_of(s.drop_last()).insert(s.last().0, s.last().1)
    }
}

/// A map from strings that keeps its entries in the order of the keys.
#[derive(Debug)]
pub struct TextMap<V> {
    entries: Vec<(String, V)>,
}

impl<V> View for TextMap<V> {
    type V = Map<Seq<char>, V>;

    closed spec fn view(&self) -> Map<Seq<char>, V> {
        map_of(pairs(self.entries@))
    }
}

proof fn ascending_map<V>(s: Seq<(Seq<char>, V)>)
    requires
        ascending(s),
    ensures
        lists(s, map_of(s)),
    decreases s.len(),
{
    if s.len() > 0 {
        let t = s.drop_last();
        assert(ascending(t)) by {
            assert forall|i: int, j: int| 0 <= i < j < t.len() implies text_less(
                #[trigger] t[i].0,
                #[trigger] t[j].0,
            ) by {
                assert(text_less(s[i].0, s[j].0));
            }
        }
        ascending_map(t);
        let m = map_of(s);
        assert forall|i: int| 0 <= i < s.len() implies m.contains_key(#[trigger] s[i].0) && m[s[i].0]
            == s[i].1 by {
            if i < t.len() {
                assert(t[i] == s[i]);
                assert(map_of(t).contains_key(t[i].0));
                assert(text_less(s[i].0, s[s.len() - 1].0));
                text_less_irreflexive(s[i].0);
            }
        }
        assert forall|k: Seq<char>| #[trigger] m.contains_key(k) implies exists|i: int|
            0 <= i < s.len() && #[trigger] s[i].0 == k by {
            if k == s.last().0 {
                assert(s[s.len() - 1].0 == k);
            } else {
                assert(map_of(t).contains_key(k));
                let i = choose|i: int| 0 <= i < t.len() && #[trigger] t[i].0 == k;
                assert(s[i].0 == k);
            }
        }
    }
}

proof fn listed_map_is_equal<V>(s: Seq<(Seq<char>, V)>, m: Map<Seq<char>, V>)
    requires
        lists(s, m),
    ensures
        map_of(s) == m,
{
    ascending_map(s);
    let p = map_of(s);
    assert forall|k: Seq<char>| p.contains_key(k) == m.contains_key(k) && (m.contains_key(k) ==> p[k]
        == m[k]) by {
        if p.contains_key(k) {
            let i = choose|i: int| 0 <= i < s.len() && #[trigger] s[i].0 == k;
            assert(m.contains_key(s[i].0));
        }
        if m.contains_key(k) {
            let i = choose|i: int| 0 <= i < s.len() && #[trigger] s[i].0 == k;
            assert(p.contains_key(s[i].0));
        }
    }
    assert(p =~= m);
}

impl<V> TextMap<V> {
    #[verifier::type_invariant]
    spec fn sorted(self) -> bool {
        ascending(pairs(self.entries@))
    }

    /// A map without entries.
    pub fn new() -> (r: Self)
        ensures
            r@ == Map::<Seq<char>, V>::empty(),
    {
        TextMap { entries: Vec::new() }
    }

    /// The first position whose key does not stand before `key`, and whether
    /// `key` itself stands there.
    fn position(&self, key: &str) -> (r: (usize, bool))
        ensures
            r.0 <= self.entries.len(),
            forall|i: int| 0 <= i < r.0 ==> text_less(#[trigger] self.entries@[i].0@, key@),
            r.1 ==> r.0 < self.entries.len() && self.entries@[r.0 as int].0@ == key@,
            !r.1 ==> forall|i: int|
                r.0 <= i < self.entries.len() ==> text_less(key@, #[trigger] self.entries@[i].0@),
    {
        let mut i: usize = 0;
        while i < self.entries.len() && less(self.entries[i].0.as_str(), key)
            invariant
                i <= self.entries.len(),
                forall|k: int| 0 <= k < i ==> text_less(#[trigger] self.entries@[k].0@, key@),
            ensures
                i <= self.entries.len(),
                i < self.entries.len() ==> !text_less(self.entries@[i as int].0@, key@),
                forall|k: int| 0 <= k < i ==> text_less(#[trigger] self.entries@[k].0@, key@),
            decreases self.entries.len() - i,
        {
            i += 1;
        }
        let found = i < self.entries.len() && same_text(self.entries[i].0.as_str(), key);
        proof {
            use_type_invariant(&*self);
            let p = pairs(self.entries@);
            if !found {
                assert forall|k: int| i <= k < self.entries.len() implies text_less(
                    key@,
                    #[trigger] self.entries@[k].0@,
                ) by {
                    text_less_total(key@, p[i as int].0);
                    if k > i {
                        assert(text_less(p[i as int].0, p[k].0));
                        text_less_transitive(key@, p[i as int].0, p[k].0);
                    }
                }
            }
        }
        (i, found)
    }

    proof fn position_tells(&self, key: Seq<char>, at: int, found: bool)
        requires
            ascending(pairs(self.entries@)),
            0 <= at <= self.entries.len(),
            forall|i: int| 0 <= i < at ==> text_less(#[trigger] self.entries@[i].0@, key),
            found ==> at < self.entries.len() && self.entries@[at].0@ == key,
            !found ==> forall|i: int|
                at <= i < self.entries.len() ==> text_less(key, #[trigger] self.entries@[i].0@),
        ensures
            self@.contains_key(key) == found,
            found ==> self@[key] == self.entries@[at].1,
    {
        let p = pairs(self.entries@);
        ascending_map(p);
        if found {
            assert(p[at].0 == key);
        } else if self@.contains_key(key) {
            let i = choose|i: int| 0 <= i < p.len() && #[trigger] p[i].0 == key;
            assert(self.entries@[i].0@ == key);
            text_less_irreflexive(key);
        }
    }

    /// The value at `key`.
    pub fn get(&self, key: &str) -> (r: Option<&V>)
        ensures
            match r {
                Some(v) => self@.contains_key(key@) && self@[key@] == *v,
                None => !self@.contains_key(key@),
            },
    {
        let (at, found) = self.position(key);
        proof {
            use_type_invariant(&*self);
            self.position_tells(key@, at as int, found);
        }
        if found {
            Some(&self.entries[at].1)
        } else {
            None
        }
    }

    /// Whether there is a value at `key`.
    pub fn contains_key(&self, key: &str) -> (r: bool)
        ensures
            r == self@.contains_key(key@),
    {
        self.get(key).is_some()
    }

    /// Sets the value at `key`.
    pub fn insert(&mut self, key: String, value: V)
        ensures
            final(self)@ == old(self)@.insert(key@, value),
    {
        let (at, found) = self.position(key.as_str());
        proof {
            use_type_invariant(&*self);
            self.position_tells(key@, at as int, found);
        }
        let ghost before = self.entries@;
        let ghost m = self@.insert(key@, value);
        let ghost k = key@;
        proof {
            let p = pairs(before);
            ascending_map(p);
            let after = if found {
                p.update(at as int, (k, value))
            } else {
                p.insert(at as int, (k, value))
            };
            assert(ascending(after)) by {
                assert forall|i: int, j: int| 0 <= i < j < after.len() implies text_less(
                    #[trigger] after[i].0,
                    #[trigger] after[j].0,
                ) by {
                    let i0 = if !found && i > at { i - 1 } else { i };
                    let j0 = if !found && j > at { j - 1 } else { j };
                    if i != at && j != at {
                        assert(text_less(p[i0].0, p[j0].0));
                    } else if j == at {
                        assert(text_less(before[i0].0@, k));
                    } else {
                        assert(found ==> text_less(p[i0].0, p[j0].0));
                        assert(!found ==> text_less(k, before[j0].0@));
                    }
                }
            }
            assert(lists(after, m)) by {
                assert forall|i: int| 0 <= i < after.len() implies m.contains_key(
                    #[trigger] after[i].0,
                ) && m[after[i].0] == after[i].1 by {
                    if i != at {
                        let i0 = if !found && i > at { i - 1 } else { i };
                        assert(p[i0] == after[i]);
                        assert(self@.contains_key(p[i0].0));
                        text_less_irreflexive(k);
                        if i < at {
                            assert(text_less(after[i].0, after[at as int].0));
                        } else {
                            assert(text_less(after[at as int].0, after[i].0));
                        }
                    }
                }
                assert forall|x: Seq<char>| #[trigger] m.contains_key(x) implies exists|i: int|
                    0 <= i < after.len() && #[trigger] after[i].0 == x by {
                    if x == k {
                        assert(after[at as int].0 == x);
                    } else {
                        assert(self@.contains_key(x));
                        let i = choose|i: int| 0 <= i < p.len() && #[trigger] p[i].0 == x;
                        if !found && i >= at {
                            assert(after[i + 1].0 == x);
                        } else {
                            assert(after[i].0 == x);
                        }
                    }
                }
            }
            listed_map_is_equal(after, m);
            if found {
                assert(pairs(before.update(at as int, (key, value))) =~= after);
            } else {
                assert(pairs(before.insert(at as int, (key, value))) =~= after);
            }
        }
        let mut whole = TextMap::new();
        core::mem::swap(self, &mut whole);
        let mut entries = whole.entries;
        if found {
            entries.set(at, (key, value));
        } else {
            entries.insert(at, (key, value));
        }
        *self = TextMap { entries };
    }

    /// Takes the value at `key` out.
    pub fn remove(&mut self, key: &str) -> (r: Option<V>)
        ensures
            final(self)@ == old(self)@.remove(key@),
            match r {
                Some(v) => old(self)@.contains_key(key@) && old(self)@[key@] == v,
                None => !old(self)@.contains_key(key@),
            },
    {
        let (at, found) = self.position(key);
        proof {
            use_type_invariant(&*self);
            self.position_tells(key@, at as int, found);
        }
        if !found {
            assert(self@.remove(key@) =~= self@);
            return None;
        }
        let ghost before = self.entries@;
        let ghost m = self@.remove(key@);
        proof {
            let p = pairs(before);
            ascending_map(p);
            let after = p.remove(at as int);
            assert(ascending(after)) by {
                assert forall|i: int, j: int| 0 <= i < j < after.len() implies text_less(
                    #[trigger] after[i].0,
                    #[trigger] after[j].0,
                ) by {
                    let i0 = if i >= at { i + 1 } else { i };
                    let j0 = if j >= at { j + 1 } else { j };
                    assert(text_less(p[i0].0, p[j0].0));
                }
            }
            assert(lists(after, m)) by {
                assert forall|i: int| 0 <= i < after.len() implies m.contains_key(
                    #[trigger] after[i].0,
                ) && m[after[i].0] == after[i].1 by {
                    let i0 = if i >= at { i + 1 } else { i };
                    assert(p[i0] == after[i]);
                    assert(self@.contains_key(p[i0].0));
                    text_less_irreflexive(key@);
                    if i0 < at {
                        assert(text_less(p[i0].0, p[at as int].0));
                    } else {
                        assert(text_less(p[at as int].0, p[i0].0));
                    }
                }
                assert forall|x: Seq<char>| #[trigger] m.contains_key(x) implies exists|i: int|
                    0 <= i < after.len() && #[trigger] after[i].0 == x by {
                    assert(self@.contains_key(x));
                    let i = choose|i: int| 0 <= i < p.len() && #[trigger] p[i].0 == x;
                    if i > at {
                        assert(after[i - 1].0 == x);
                    } else {
                        assert(after[i].0 == x);
                    }
                }
            }
            listed_map_is_equal(after, m);
            assert(pairs(before.remove(at as int)) =~= after);
        }
        let mut whole = TextMap::new();
        core::mem::swap(self, &mut whole);
        let mut entries = whole.entries;
        let e = entries.remove(at);
        *self = TextMap { entries };
        Some(e.1)
    }

    /// The number of entries.
    pub fn len(&self) -> (r: usize)
        ensures
            r == self@.len(),
            r == in_order(self@).len(),
            lists(in_order(self@), self@),
    {
        proof {
            use_type_invariant(&*self);
            ascending_map(pairs(self.entries@));
            listing_is_unique(pairs(self.entries@), self@);
            listing_length(pairs(self.entries@), self@);
        }
        self.entries.len()
    }

    /// The entry at position `i` in the order of the keys.
    pub fn at(&self, i: usize) -> (r: (&String, &V))
        requires
            i < in_order(self@).len(),
        ensures
            (r.0@, *r.1) == in_order(self@)[i as int],
    {
        proof {
            use_type_invariant(&*self);
            ascending_map(pairs(self.entries@));
            listing_is_unique(pairs(self.entries@), self@);
        }
        let e = &self.entries[i];
        (&e.0, &e.1)
    }
}

} // verus!
