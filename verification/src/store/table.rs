//! Tables: rows by their keys.

use vstd::prelude::*;

use crate::errors::{conflict, conflict_error, outcome, ErrorView, KernelError};
use crate::text::same_text;

verus! {

/// A key of a table. Two keys are the same where their models are.
pub trait Key: Sized {
    type M;

    /// The model of the key.
    spec fn model(&self) -> Self::M;

    /// Whether the key is the same as `other`.
    fn same(&self, other: &Self) -> (r: bool)
        ensures
            r == (self.model() == other.model()),
    ;

    /// A copy of the key.
    fn copy_key(&self) -> (r: Self)
        ensures
            r.model() == self.model(),
    ;
}

impl Key for String {
    type M = Seq<char>;

    open spec fn model(&self) -> Seq<char> {
        self@
    }

    fn same(&self, other: &Self) -> (r: bool) {
        same_text(self.as_str(), other.as_str())
    }

    fn copy_key(&self) -> (r: Self) {
        self.clone()
    }
}

impl Key for u32 {
    type M = u32;

    open spec fn model(&self) -> u32 {
        *self
    }

    fn same(&self, other: &Self) -> (r: bool) {
        *self == *other
    }

    fn copy_key(&self) -> (r: Self) {
        *self
    }
}

impl Key for u64 {
    type M = u64;

    open spec fn model(&self) -> u64 {
        *self
    }

    fn same(&self, other: &Self) -> (r: bool) {
        *self == *other
    }

    fn copy_key(&self) -> (r: Self) {
        *self
    }
}

impl<A: Key, B: Key> Key for (A, B) {
    type M = (A::M, B::M);

    open spec fn model(&self) -> (A::M, B::M) {
        (self.0.model(), self.1.model())
    }

    fn same(&self, other: &Self) -> (r: bool) {
        self.0.same(&other.0) && self.1.same(&other.1)
    }

    fn copy_key(&self) -> (r: Self) {
        (self.0.copy_key(), self.1.copy_key())
    }
}

impl<A: Key, B: Key, C: Key> Key for (A, B, C) {
    type M = (A::M, B::M, C::M);

    open spec fn model(&self) -> (A::M, B::M, C::M) {
        (self.0.model(), self.1.model(), self.2.model())
    }

    fn same(&self, other: &Self) -> (r: bool) {
        self.0.same(&other.0) && self.1.same(&other.1) && self.2.same(&other.2)
    }

    fn copy_key(&self) -> (r: Self) {
        (self.0.copy_key(), self.1.copy_key(), self.2.copy_key())
    }
}

/// A row of a table, which can be copied.
pub trait Row: Sized {
    /// A copy of the row.
    fn copy_row(&self) -> (r: Self)
        ensures
            r == *self,
    ;
}

impl Row for u64 {
    fn copy_row(&self) -> (r: Self) {
        *self
    }
}

/// The pairs of `entries`, each key by its model.
pub open spec fn modelled<K: Key, V>(entries: Seq<(K, V)>) -> Seq<(K::M, V)> {
    entries.map_values(|e: (K, V)| (e.0.model(), e.1))
}

/// Whether no two pairs have one key.
pub open spec fn distinct<M, V>(s: Seq<(M, V)>) -> bool {
    forall|i: int, j: int| 0 <= i < s.len() && 0 <= j < s.len() && i != j ==> (#[trigger] s[i]).0 != (#[trigger] s[j]).0
}

/// The map that pairs make: the later of two with one key counts.
pub open spec fn pairs_map<M, V>(s: Seq<(M, V)>) -> Map<M, V>
    decreases s.len(),
{
    if s.len() == 0 {
        Map::empty()
    } else {
        pairs_map(s.drop_last()).insert(s.last().0, s.last().1)
    }
}

/// Whether `s` has each pair of `m`, once.
pub open spec fn covers<M, V>(s: Seq<(M, V)>, m: Map<M, V>) -> bool {
    &&& distinct(s)
    &&& forall|i: int| 0 <= i < s.len() ==> m.contains_key((#[trigger] s[i]).0) && m[s[i].0] == s[i].1
    &&& forall|k: M| #[trigger] m.contains_key(k) ==> exists|i: int| 0 <= i < s.len() && (#[trigger] s[i]).0 == k
}

proof fn distinct_covers<M, V>(s: Seq<(M, V)>)
    requires
        distinct(s),
    ensures
        covers(s, pairs_map(s)),
    decreases s.len(),
{
    if s.len() > 0 {
        let t = s.drop_last();
        assert forall|i: int, j: int| 0 <= i < t.len() && 0 <= j < t.len() && i != j implies (#[trigger] t[i]).0
            != (#[trigger] t[j]).0 by {
            assert(s[i].0 != s[j].0);
        }
        distinct_covers(t);
        let m = pairs_map(s);
        assert forall|i: int| 0 <= i < s.len() implies m.contains_key((#[trigger] s[i]).0) && m[s[i].0]
            == s[i].1 by {
            if i < t.len() {
                assert(t[i] == s[i]);
                assert(s[i].0 != s[s.len() - 1].0);
            }
        }
        assert forall|k: M| #[trigger] m.contains_key(k) implies exists|i: int|
            0 <= i < s.len() && (#[trigger] s[i]).0 == k by {
            if k == s.last().0 {
                assert(s[s.len() - 1].0 == k);
            } else {
                assert(pairs_map(t).contains_key(k));
                let i = choose|i: int| 0 <= i < t.len() && (#[trigger] t[i]).0 == k;
                assert(s[i].0 == k);
            }
        }
    }
}

proof fn covered_map_is_equal<M, V>(s: Seq<(M, V)>, m: Map<M, V>)
    requires
        covers(s, m),
    ensures
        pairs_map(s) == m,
{
    distinct_covers(s);
    let p = pairs_map(s);
    assert forall|k: M| p.contains_key(k) == m.contains_key(k) && (m.contains_key(k) ==> p[k] == m[k]) by {
        if p.contains_key(k) {
            let i = choose|i: int| 0 <= i < s.len() && (#[trigger] s[i]).0 == k;
            assert(m.contains_key(s[i].0));
        }
        if m.contains_key(k) {
            let i = choose|i: int| 0 <= i < s.len() && (#[trigger] s[i]).0 == k;
            assert(p.contains_key(s[i].0));
        }
    }
    assert(p =~= m);
}

/// Rows by their keys.
#[derive(Debug)]
pub struct Table<K: Key, V> {
    entries: Vec<(K, V)>,
}

impl<K: Key, V> View for Table<K, V> {
    type V = Map<K::M, V>;

    closed spec fn view(&self) -> Map<K::M, V> {
        pairs_map(modelled(self.entries@))
    }
}

impl<K: Key, V> Table<K, V> {
    #[verifier::type_invariant]
    spec fn unique(self) -> bool {
        distinct(modelled(self.entries@))
    }

    /// The rows of the table, in no particular order, with the models of their keys.
    pub closed spec fn pairs(&self) -> Seq<(K::M, V)> {
        modelled(self.entries@)
    }

    /// A table without rows.
    pub fn new() -> (r: Self)
        ensures
            r@ == Map::<K::M, V>::empty(),
    {
        Table { entries: Vec::new() }
    }

    fn position(&self, key: &K) -> (r: Option<usize>)
        ensures
            match r {
                Some(i) => i < self.entries.len() && self.entries@[i as int].0.model() == key.model()
                    && self@.contains_key(key.model()) && self@[key.model()] == self.entries@[i as int].1,
                None => !self@.contains_key(key.model()),
            },
    {
        proof {
            use_type_invariant(&*self);
            distinct_covers(modelled(self.entries@));
        }
        let ghost p = modelled(self.entries@);
        let mut i: usize = 0;
        while i < self.entries.len()
            invariant
                i <= self.entries.len(),
                p == modelled(self.entries@),
                covers(p, self@),
                forall|k: int| 0 <= k < i ==> (#[trigger] p[k]).0 != key.model(),
            decreases self.entries.len() - i,
        {
            if self.entries[i].0.same(key) {
                assert(p[i as int].0 == key.model());
                return Some(i);
            }
            i += 1;
        }
        None
    }

    /// The row at `key`.
    pub fn get(&self, key: &K) -> (r: Option<&V>)
        ensures
            match r {
                Some(v) => self@.contains_key(key.model()) && self@[key.model()] == *v,
                None => !self@.contains_key(key.model()),
            },
    {
        match self.position(key) {
            Some(i) => Some(&self.entries[i].1),
            None => None,
        }
    }

    /// Whether there is a row at `key`.
    pub fn contains(&self, key: &K) -> (r: bool)
        ensures
            r == self@.contains_key(key.model()),
    {
        self.position(key).is_some()
    }

    /// Sets the row at `key`.
    pub fn put(&mut self, key: K, row: V)
        ensures
            final(self)@ == old(self)@.insert(key.model(), row),
    {
        let at = self.position(&key);
        let ghost before = self.entries@;
        let ghost k = key.model();
        let ghost m = self@.insert(k, row);
        proof {
            use_type_invariant(&*self);
            let p = modelled(before);
            distinct_covers(p);
            let after = match at {
                Some(i) => p.update(i as int, (k, row)),
                None => p.push((k, row)),
            };
            let pos: int = match at {
                Some(i) => i as int,
                None => p.len() as int,
            };
            assert forall|i: int, j: int| 0 <= i < after.len() && 0 <= j < after.len() && i != j implies (
            #[trigger] after[i]).0 != (#[trigger] after[j]).0 by {
                if i < p.len() && j < p.len() {
                    assert(p[i].0 != p[j].0);
                } else if i < p.len() {
                    assert(self@.contains_key(p[i].0));
                } else {
                    assert(self@.contains_key(p[j].0));
                }
            }
            assert forall|i: int| 0 <= i < after.len() implies m.contains_key((#[trigger] after[i]).0)
                && m[after[i].0] == after[i].1 by {
                if i != pos {
                    assert(after[i] == p[i]);
                    assert(after[i].0 != after[pos].0);
                    assert(self@.contains_key(p[i].0));
                }
            }
            assert forall|x: K::M| #[trigger] m.contains_key(x) implies exists|i: int|
                0 <= i < after.len() && (#[trigger] after[i]).0 == x by {
                if x == k {
                    assert(after[pos].0 == x);
                } else {
                    assert(self@.contains_key(x));
                    let i = choose|i: int| 0 <= i < p.len() && (#[trigger] p[i]).0 == x;
                    assert(after[i].0 == x);
                }
            }
            covered_map_is_equal(after, m);
            match at {
                Some(i) => {
                    assert(modelled(before.update(i as int, (key, row))) =~= after);
                },
                None => {
                    assert(modelled(before.push((key, row))) =~= after);
                },
            }
        }
        let mut whole = Table::new();
        core::mem::swap(self, &mut whole);
        let mut entries = whole.entries;
        match at {
            Some(i) => {
                entries.set(i, (key, row));
            },
            None => {
                entries.push((key, row));
            },
        }
        *self = Table { entries };
    }

    /// The number of rows.
    pub fn len(&self) -> (r: usize)
        ensures
            r == self.pairs().len(),
            covers(self.pairs(), self@),
    {
        proof {
            use_type_invariant(&*self);
            distinct_covers(modelled(self.entries@));
        }
        self.entries.len()
    }

    /// The row at position `i`.
    pub fn row(&self, i: usize) -> (r: &V)
        requires
            i < self.pairs().len(),
        ensures
            *r == self.pairs()[i as int].1,
    {
        &self.entries[i].1
    }
}

impl<K: Key, V: Row> Table<K, V> {
    /// A copy of the table.
    pub fn copy_table(&self) -> (r: Self)
        ensures
            r@ == self@,
    {
        let mut entries: Vec<(K, V)> = Vec::new();
        let ghost p = modelled(self.entries@);
        let mut i: usize = 0;
        while i < self.entries.len()
            invariant
                i <= self.entries.len(),
                p == modelled(self.entries@),
                modelled(entries@) == p.take(i as int),
            decreases self.entries.len() - i,
        {
            let e = (self.entries[i].0.copy_key(), self.entries[i].1.copy_row());
            assert(modelled(entries@.push(e)) =~= modelled(entries@).push((e.0.model(), e.1)));
            assert(p.take(i + 1) =~= p.take(i as int).push(p[i as int]));
            entries.push(e);
            i += 1;
        }
        proof {
            use_type_invariant(&*self);
            assert(p.take(self.entries.len() as int) =~= p);
        }
        Table { entries }
    }
}

/// A map after a row was added to it, and what that returns: a row that is there
/// already stays.
pub open spec fn added<M, V>(m: Map<M, V>, key: M, row: V, message: Seq<char>) -> (Map<M, V>, Result<(), ErrorView>) {
    if m.contains_key(key) {
        (m, Err(conflict(message)))
    } else {
        (m.insert(key, row), Ok(()))
    }
}

/// Adds a row to a table; a row that is there already stays.
pub fn insert_unique<K: Key, V>(table: &mut Table<K, V>, key: K, row: V, message: &str) -> (r: Result<
    (),
    KernelError,
>)
    ensures
        (final(table)@, outcome(r)) == added(old(table)@, key.model(), row, message@),
{
    if table.contains(&key) {
        return Err(conflict_error(message));
    }
    table.put(key, row);
    Ok(())
}

// ---------------------------------------------------------------------------
// Selections
// ---------------------------------------------------------------------------

/// Whether `rows` are the rows of `m` that `pick` picks, each once, at `keys`.
pub open spec fn picked_at<M, V>(rows: Seq<V>, keys: Seq<M>, m: Map<M, V>, pick: spec_fn(V) -> bool) -> bool {
    &&& keys.no_duplicates()
    &&& keys.len() == rows.len()
    &&& forall|i: int| 0 <= i < keys.len() ==> m.contains_key(#[trigger] keys[i]) && pick(m[keys[i]]) && rows[i] == m[keys[i]]
    &&& forall|k: M| #[trigger] m.contains_key(k) && pick(m[k]) ==> keys.contains(k)
}

/// Whether no row stands behind one that it is before.
pub open spec fn in_sequence<V>(rows: Seq<V>, before: spec_fn(V, V) -> bool) -> bool {
    forall|i: int, j: int| 0 <= i < j < rows.len() ==> !before(#[trigger] rows[j], #[trigger] rows[i])
}

/// Whether `rows` are the rows of `m` that `pick` picks, each once, in the order
/// that `before` tells.
pub open spec fn selects<M, V>(
    rows: Seq<V>,
    m: Map<M, V>,
    pick: spec_fn(V) -> bool,
    before: spec_fn(V, V) -> bool,
) -> bool {
    &&& exists|keys: Seq<M>| picked_at(rows, keys, m, pick)
    &&& in_sequence(rows, before)
}

/// Whether some row of `m` satisfies `pick`.
pub open spec fn some_row<M, V>(m: Map<M, V>, pick: spec_fn(V) -> bool) -> bool {
    exists|k: M| #[trigger] m.contains_key(k) && pick(m[k])
}

impl<K: Key, V> Table<K, V> {
    /// Whether some row satisfies `test`.
    pub fn any<F: Fn(&V) -> bool>(&self, test: F, Ghost(pick): Ghost<spec_fn(V) -> bool>) -> (r: bool)
        requires
            forall|v: &V| test.requires((v,)),
            forall|v: &V, b: bool| test.ensures((v,), b) ==> b == pick(*v),
        ensures
            r == some_row(self@, pick),
    {
        let n: usize = self.len();
        let ghost p = self.pairs();
        let mut i: usize = 0;
        while i < n
            invariant
                i <= n,
                n == p.len(),
                p == self.pairs(),
                covers(p, self@),
                forall|k: int| 0 <= k < i ==> !pick((#[trigger] p[k]).1),
                forall|v: &V| test.requires((v,)),
                forall|v: &V, b: bool| test.ensures((v,), b) ==> b == pick(*v),
            decreases n - i,
        {
            if test(self.row(i)) {
                assert(self@.contains_key(p[i as int].0) && pick(self@[p[i as int].0]));
                return true;
            }
            i += 1;
        }
        proof {
            if some_row(self@, pick) {
                let k = choose|k: K::M| #[trigger] self@.contains_key(k) && pick(self@[k]);
                let a = choose|a: int| 0 <= a < p.len() && (#[trigger] p[a]).0 == k;
                assert(pick(p[a].1));
            }
        }
        false
    }
}

impl<K: Key, V: Row> Table<K, V> {
    /// The rows that `test` picks, in the order that `less` tells.
    pub fn select<F: Fn(&V) -> bool, L: Fn(&V, &V) -> bool>(
        &self,
        test: F,
        less: L,
        Ghost(pick): Ghost<spec_fn(V) -> bool>,
        Ghost(before): Ghost<spec_fn(V, V) -> bool>,
    ) -> (r: Vec<V>)
        requires
            forall|v: &V| test.requires((v,)),
            forall|v: &V, b: bool| test.ensures((v,), b) ==> b == pick(*v),
            forall|a: &V, b: &V| less.requires((a, b)),
            forall|a: &V, b: &V, c: bool| less.ensures((a, b), c) ==> c == before(*a, *b),
            forall|a: V| !(#[trigger] before(a, a)),
            forall|a: V, b: V, c: V| #[trigger] before(a, b) && #[trigger] before(b, c) ==> before(a, c),
        ensures
            selects(r@, self@, pick, before),
    {
        let n: usize = self.len();
        let ghost p = self.pairs();
        let ghost mut keys: Seq<K::M> = Seq::empty();
        let mut out: Vec<V> = Vec::new();
        let mut i: usize = 0;
        while i < n
            invariant
                i <= n,
                n == p.len(),
                p == self.pairs(),
                covers(p, self@),
                keys.no_duplicates(),
                keys.len() == out.len(),
                forall|k: int| 0 <= k < keys.len() ==> self@.contains_key(#[trigger] keys[k]) && pick(
                    self@[keys[k]],
                ) && out@[k] == self@[keys[k]],
                forall|a: int| 0 <= a < i && pick((#[trigger] p[a]).1) ==> keys.contains(p[a].0),
                forall|x: K::M| keys.contains(x) ==> exists|a: int| 0 <= a < i && (#[trigger] p[a]).0 == x,
                in_sequence(out@, before),
                forall|v: &V| test.requires((v,)),
                forall|v: &V, b: bool| test.ensures((v,), b) ==> b == pick(*v),
                forall|a: &V, b: &V| less.requires((a, b)),
                forall|a: &V, b: &V, c: bool| less.ensures((a, b), c) ==> c == before(*a, *b),
                forall|a: V| !(#[trigger] before(a, a)),
                forall|a: V, b: V, c: V| #[trigger] before(a, b) && #[trigger] before(b, c) ==> before(a, c),
            decreases n - i,
        {
            let row = self.row(i);
            if test(row) {
                let mut at: usize = 0;
                while at < out.len() && !less(row, &out[at])
                    invariant
                        at <= out.len(),
                        forall|k: int| 0 <= k < at ==> !before(*row, #[trigger] out@[k]),
                        forall|a: &V, b: &V| less.requires((a, b)),
                        forall|a: &V, b: &V, c: bool| less.ensures((a, b), c) ==> c == before(*a, *b),
                    ensures
                        at <= out.len(),
                        forall|k: int| 0 <= k < at ==> !before(*row, #[trigger] out@[k]),
                        at < out.len() ==> before(*row, out@[at as int]),
                    decreases out.len() - at,
                {
                    at += 1;
                }
                let ghost old_out = out@;
                let ghost old_keys = keys;
                let ghost key = p[i as int].0;
                let kept = row.copy_row();
                out.insert(at, kept);
                proof {
                    keys = old_keys.insert(at as int, key);
                    let now = out@;
                    assert(now =~= old_out.insert(at as int, *row));
                    assert(!old_keys.contains(key)) by {
                        if old_keys.contains(key) {
                            let a = choose|a: int| 0 <= a < i && (#[trigger] p[a]).0 == key;
                            assert(p[a].0 != p[i as int].0);
                        }
                    }
                    assert forall|x: int, y: int| 0 <= x < keys.len() && 0 <= y < keys.len() && x != y implies keys[x]
                        != keys[y] by {
                        let x0 = if x > at { x - 1 } else { x };
                        let y0 = if y > at { y - 1 } else { y };
                        if x != at && y != at {
                            assert(old_keys[x0] != old_keys[y0]);
                        } else if x == at {
                            assert(old_keys.contains(old_keys[y0]));
                        } else {
                            assert(old_keys.contains(old_keys[x0]));
                        }
                    }
                    assert forall|k: int| 0 <= k < keys.len() implies self@.contains_key(
                        #[trigger] keys[k],
                    ) && pick(self@[keys[k]]) && now[k] == self@[keys[k]] by {
                        let k0 = if k > at { k - 1 } else { k };
                        if k != at {
                            assert(keys[k] == old_keys[k0]);
                            assert(now[k] == old_out[k0]);
                        } else {
                            assert(self@.contains_key(p[i as int].0));
                        }
                    }
                    assert(keys[at as int] == key);
                    assert forall|a: int| 0 <= a < i + 1 && pick((#[trigger] p[a]).1) implies keys.contains(
                        p[a].0,
                    ) by {
                        if a < i {
                            let b = choose|b: int| 0 <= b < old_keys.len() && old_keys[b] == p[a].0;
                            if b < at {
                                assert(keys[b] == p[a].0);
                            } else {
                                assert(keys[b + 1] == p[a].0);
                            }
                        }
                    }
                    assert forall|x: K::M| keys.contains(x) implies exists|a: int|
                        0 <= a < i + 1 && (#[trigger] p[a]).0 == x by {
                        let b = choose|b: int| 0 <= b < keys.len() && keys[b] == x;
                        if b == at {
                            assert(p[i as int].0 == x);
                        } else {
                            let b0 = if b > at { b - 1 } else { b };
                            assert(old_keys[b0] == x);
                            assert(old_keys.contains(x));
                            let a = choose|a: int| 0 <= a < i && (#[trigger] p[a]).0 == x;
                            assert(p[a].0 == x);
                        }
                    }
                    assert forall|x: int, y: int| 0 <= x < y < now.len() implies !before(
                        #[trigger] now[y],
                        #[trigger] now[x],
                    ) by {
                        let x0 = if x > at { x - 1 } else { x };
                        let y0 = if y > at { y - 1 } else { y };
                        if x != at && y != at {
                            assert(now[x] == old_out[x0] && now[y] == old_out[y0]);
                            assert(!before(old_out[y0], old_out[x0]));
                        } else if y == at {
                            assert(now[x] == old_out[x0]);
                        } else {
                            assert(now[y] == old_out[y0]);
                            if before(old_out[y0], *row) {
                                assert(before(*row, old_out[at as int]));
                                assert(before(old_out[y0], old_out[at as int]));
                                if y0 > at {
                                    assert(!before(old_out[y0], old_out[at as int]));
                                } else {
                                    assert(before(*row, *row));
                                }
                            }
                        }
                    }
                }
            }
            i += 1;
        }
        proof {
            assert forall|k: K::M| #[trigger] self@.contains_key(k) && pick(self@[k]) implies keys.contains(k) by {
                let a = choose|a: int| 0 <= a < p.len() && (#[trigger] p[a]).0 == k;
                assert(pick(p[a].1));
            }
            assert(picked_at(out@, keys, self@, pick));
        }
        out
    }
}

} // verus!
