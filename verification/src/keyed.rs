//! Small keyed collections: a map and a set over keys that compare by their
//! model. No key occurs twice.

use crate::protocol::{ChatId, ProtocolId};
use vstd::prelude::*;

verus! {

/// A key: two keys are the same when their models are.
pub trait Key: DeepView + Sized {
    fn same(&self, other: &Self) -> (r: bool)
        ensures
            r == (self.deep_view() == other.deep_view()),
    ;
}

impl Key for String {
    fn same(&self, other: &Self) -> (r: bool) {
        *self == *other
    }
}

/// The models of the rows, in order.
pub open spec fn deep<T: DeepView>(rows: Seq<T>) -> Seq<T::V> {
    Seq::new(rows.len(), |i: int| rows[i].deep_view())
}

/// No key of `rows` occurs twice.
pub open spec fn distinct_keys<K: Key, V>(rows: Seq<(K, V)>) -> bool {
    forall|i: int, j: int|
        0 <= i < j < rows.len() ==> (#[trigger] rows[i]).0.deep_view() != (
        #[trigger] rows[j]).0.deep_view()
}

/// Row `i` holds key `k`.
pub open spec fn row_is<K: Key, V>(rows: Seq<(K, V)>, i: int, k: K::V) -> bool {
    0 <= i < rows.len() && rows[i].0.deep_view() == k
}

/// The map that `rows` write.
pub open spec fn map_of<K: Key, V: DeepView>(rows: Seq<(K, V)>) -> Map<K::V, V::V> {
    Map::new(
        |k: K::V| exists|i: int| row_is(rows, i, k),
        |k: K::V| rows[choose|i: int| row_is(rows, i, k)].1.deep_view(),
    )
}

/// A row is in the map, at its key.
proof fn lemma_row<K: Key, V: DeepView>(rows: Seq<(K, V)>, i: int)
    requires
        distinct_keys(rows),
        0 <= i < rows.len(),
    ensures
        map_of(rows).contains_key(rows[i].0.deep_view()),
        map_of(rows)[rows[i].0.deep_view()] == rows[i].1.deep_view(),
{
    let k = rows[i].0.deep_view();
    assert(row_is(rows, i, k));
    let j = choose|j: int| row_is(rows, j, k);
    assert(row_is(rows, j, k));
    if j != i {
        assert(rows[i].0.deep_view() != rows[j].0.deep_view());
    }
}

proof fn lemma_insert_new<K: Key, V: DeepView>(rows: Seq<(K, V)>, row: (K, V))
    requires
        distinct_keys(rows),
        !map_of(rows).contains_key(row.0.deep_view()),
    ensures
        distinct_keys(rows.push(row)),
        map_of(rows.push(row)) == map_of(rows).insert(row.0.deep_view(), row.1.deep_view()),
{
    let more = rows.push(row);
    assert forall|i: int, j: int| 0 <= i < j < more.len() implies (
    #[trigger] more[i]).0.deep_view() != (#[trigger] more[j]).0.deep_view() by {
        if j == rows.len() {
            lemma_row(rows, i);
        } else {
            assert(rows[i].0.deep_view() != rows[j].0.deep_view());
        }
    }
    let want = map_of(rows).insert(row.0.deep_view(), row.1.deep_view());
    assert forall|k: K::V| map_of(more).contains_key(k) == want.contains_key(k) by {
        if map_of(more).contains_key(k) {
            let i = choose|i: int| row_is(more, i, k);
            assert(row_is(more, i, k));
            if i < rows.len() {
                assert(row_is(rows, i, k));
            }
        }
        if want.contains_key(k) {
            if k == row.0.deep_view() {
                assert(row_is(more, rows.len() as int, k));
            } else {
                let i = choose|i: int| row_is(rows, i, k);
                assert(row_is(rows, i, k));
                assert(row_is(more, i, k));
            }
        }
    }
    assert forall|k: K::V| map_of(more).contains_key(k) implies map_of(more)[k] == want[k] by {
        let i = choose|i: int| row_is(more, i, k);
        assert(row_is(more, i, k));
        lemma_row(more, i);
        if i < rows.len() {
            lemma_row(rows, i);
        }
    }
    assert(map_of(more) =~= want);
}

proof fn lemma_replace<K: Key, V: DeepView>(rows: Seq<(K, V)>, at: int, row: (K, V))
    requires
        distinct_keys(rows),
        0 <= at < rows.len(),
        row.0.deep_view() == rows[at].0.deep_view(),
    ensures
        distinct_keys(rows.update(at, row)),
        map_of(rows.update(at, row)) == map_of(rows).insert(
            row.0.deep_view(),
            row.1.deep_view(),
        ),
{
    let next = rows.update(at, row);
    assert forall|i: int, j: int| 0 <= i < j < next.len() implies (
    #[trigger] next[i]).0.deep_view() != (#[trigger] next[j]).0.deep_view() by {
        assert(rows[i].0.deep_view() != rows[j].0.deep_view());
    }
    let want = map_of(rows).insert(row.0.deep_view(), row.1.deep_view());
    assert forall|k: K::V| map_of(next).contains_key(k) == want.contains_key(k) by {
        if map_of(next).contains_key(k) {
            let i = choose|i: int| row_is(next, i, k);
            assert(row_is(next, i, k));
            assert(row_is(rows, i, k));
        }
        if want.contains_key(k) {
            if k == row.0.deep_view() {
                assert(row_is(next, at, k));
            } else {
                let i = choose|i: int| row_is(rows, i, k);
                assert(row_is(rows, i, k));
                assert(row_is(next, i, k));
            }
        }
    }
    assert forall|k: K::V| map_of(next).contains_key(k) implies map_of(next)[k] == want[k] by {
        let i = choose|i: int| row_is(next, i, k);
        assert(row_is(next, i, k));
        lemma_row(next, i);
        lemma_row(rows, i);
    }
    assert(map_of(next) =~= want);
}

proof fn lemma_remove<K: Key, V: DeepView>(rows: Seq<(K, V)>, at: int)
    requires
        distinct_keys(rows),
        0 <= at < rows.len(),
    ensures
        distinct_keys(rows.remove(at)),
        map_of(rows.remove(at)) == map_of(rows).remove(rows[at].0.deep_view()),
{
    let next = rows.remove(at);
    assert forall|i: int, j: int| 0 <= i < j < next.len() implies (
    #[trigger] next[i]).0.deep_view() != (#[trigger] next[j]).0.deep_view() by {
        let a = if i < at { i } else { i + 1 };
        let b = if j < at { j } else { j + 1 };
        assert(rows[a].0.deep_view() != rows[b].0.deep_view());
    }
    let want = map_of(rows).remove(rows[at].0.deep_view());
    assert forall|k: K::V| map_of(next).contains_key(k) == want.contains_key(k) by {
        if map_of(next).contains_key(k) {
            let i = choose|i: int| row_is(next, i, k);
            assert(row_is(next, i, k));
            let a = if i < at { i } else { i + 1 };
            assert(row_is(rows, a, k));
            assert(rows[a].0.deep_view() != rows[at].0.deep_view());
        }
        if want.contains_key(k) {
            let i = choose|i: int| row_is(rows, i, k);
            assert(row_is(rows, i, k));
            let a = if i < at { i } else { i - 1 };
            assert(row_is(next, a, k));
        }
    }
    assert forall|k: K::V| map_of(next).contains_key(k) implies map_of(next)[k] == want[k] by {
        let i = choose|i: int| row_is(next, i, k);
        assert(row_is(next, i, k));
        lemma_row(next, i);
        let a = if i < at { i } else { i + 1 };
        lemma_row(rows, a);
    }
    assert(map_of(next) =~= want);
}

/// A map with few keys.
pub struct KeyMap<K: Key, V: DeepView> {
    rows: Vec<(K, V)>,
}

impl<K: Key, V: DeepView> DeepView for KeyMap<K, V> {
    type V = Map<K::V, V::V>;

    closed spec fn deep_view(&self) -> Map<K::V, V::V> {
        map_of(self.rows@)
    }
}

impl<K: Key, V: DeepView> KeyMap<K, V> {
    #[verifier::type_invariant]
    spec fn no_key_twice(self) -> bool {
        distinct_keys(self.rows@)
    }

    pub fn new() -> (r: Self)
        ensures
            r.deep_view() == Map::<K::V, V::V>::empty(),
    {
        let r = KeyMap { rows: Vec::new() };
        proof {
            assert forall|k: K::V| !map_of(r.rows@).contains_key(k) by {
                assert forall|i: int| !row_is(r.rows@, i, k) by {}
            }
            assert(map_of(r.rows@) =~= Map::empty());
        }
        r
    }

    /// Where the row of `key` stands, if there is one.
    fn position(&self, key: &K) -> (r: Option<usize>)
        ensures
            match r {
                Some(i) => i < self.rows.len() && self.rows@[i as int].0.deep_view()
                    == key.deep_view() && self.deep_view().contains_key(key.deep_view())
                    && self.deep_view()[key.deep_view()] == self.rows@[i as int].1.deep_view(),
                None => !self.deep_view().contains_key(key.deep_view()),
            },
    {
        proof {
            use_type_invariant(self);
        }
        let mut i: usize = 0;
        while i < self.rows.len()
            invariant
                i <= self.rows.len(),
                distinct_keys(self.rows@),
                forall|j: int|
                    0 <= j < i ==> (#[trigger] self.rows@[j]).0.deep_view() != key.deep_view(),
            decreases self.rows.len() - i,
        {
            if self.rows[i].0.same(key) {
                proof {
                    lemma_row(self.rows@, i as int);
                }
                return Some(i);
            }
            i = i + 1;
        }
        assert forall|j: int| !row_is(self.rows@, j, key.deep_view()) by {}
        None
    }

    pub fn contains_key(&self, key: &K) -> (r: bool)
        ensures
            r == self.deep_view().contains_key(key.deep_view()),
    {
        self.position(key).is_some()
    }

    pub fn get(&self, key: &K) -> (r: Option<&V>)
        ensures
            match r {
                Some(v) => self.deep_view().contains_key(key.deep_view()) && v.deep_view()
                    == self.deep_view()[key.deep_view()],
                None => !self.deep_view().contains_key(key.deep_view()),
            },
    {
        match self.position(key) {
            Some(i) => Some(&self.rows[i].1),
            None => None,
        }
    }

    pub fn insert(&mut self, key: K, value: V)
        ensures
            final(self).deep_view() == old(self).deep_view().insert(
                key.deep_view(),
                value.deep_view(),
            ),
    {
        let at = self.position(&key);
        proof {
            use_type_invariant(&*self);
        }
        let mut rows: Vec<(K, V)> = Vec::new();
        std::mem::swap(&mut rows, &mut self.rows);
        let ghost before = rows@;
        let ghost row = (key, value);
        match at {
            Some(i) => {
                proof {
                    lemma_replace(before, i as int, row);
                }
                rows[i] = (key, value);
            },
            None => {
                proof {
                    lemma_insert_new(before, row);
                }
                rows.push((key, value));
            },
        }
        self.rows = rows;
    }

    pub fn remove(&mut self, key: &K) -> (r: Option<V>)
        ensures
            final(self).deep_view() == old(self).deep_view().remove(key.deep_view()),
            match r {
                Some(v) => old(self).deep_view().contains_key(key.deep_view()) && v.deep_view()
                    == old(self).deep_view()[key.deep_view()],
                None => !old(self).deep_view().contains_key(key.deep_view()),
            },
    {
        match self.position(key) {
            Some(i) => {
                proof {
                    use_type_invariant(&*self);
                }
                let mut rows: Vec<(K, V)> = Vec::new();
                std::mem::swap(&mut rows, &mut self.rows);
                proof {
                    lemma_remove(rows@, i as int);
                }
                let row = rows.remove(i);
                self.rows = rows;
                Some(row.1)
            },
            None => {
                assert(self.deep_view().remove(key.deep_view()) =~= self.deep_view());
                None
            },
        }
    }

    pub fn is_empty(&self) -> (r: bool)
        ensures
            r == (self.deep_view() == Map::<K::V, V::V>::empty()),
    {
        proof {
            use_type_invariant(self);
            if self.rows@.len() > 0 {
                lemma_row(self.rows@, 0);
            } else {
                assert forall|k: K::V| !map_of(self.rows@).contains_key(k) by {
                    assert forall|i: int| !row_is(self.rows@, i, k) by {}
                }
                assert(map_of(self.rows@) =~= Map::empty());
            }
        }
        self.rows.is_empty()
    }

    pub fn clear(&mut self)
        ensures
            final(self).deep_view() == Map::<K::V, V::V>::empty(),
    {
        *self = KeyMap::new();
    }

    /// The rows in the order in which they stand, as pairs of models.
    pub closed spec fn rows_model(&self) -> Seq<(K::V, V::V)> {
        Seq::new(
            self.rows@.len(),
            |i: int| (self.rows@[i].0.deep_view(), self.rows@[i].1.deep_view()),
        )
    }

    /// How many rows there are.
    pub fn len(&self) -> (n: usize)
        ensures
            n == self.rows_model().len(),
            rows_are_map(self.rows_model(), self.deep_view()),
    {
        proof {
            use_type_invariant(self);
            let rows = self.rows_model();
            let map = self.deep_view();
            assert forall|i: int| 0 <= i < rows.len() implies map.contains_key(
                (#[trigger] rows[i]).0,
            ) && map[rows[i].0] == rows[i].1 by {
                lemma_row(self.rows@, i);
            }
            assert forall|i: int, j: int| 0 <= i < j < rows.len() implies (#[trigger] rows[i]).0
                != (#[trigger] rows[j]).0 by {
                assert(self.rows@[i].0.deep_view() != self.rows@[j].0.deep_view());
            }
            assert forall|k: K::V| #[trigger] map.contains_key(k) implies exists|i: int|
                0 <= i < rows.len() && (#[trigger] rows[i]).0 == k by {
                let i = choose|i: int| row_is(self.rows@, i, k);
                assert(row_is(self.rows@, i, k));
                assert(rows[i].0 == k);
            }
        }
        self.rows.len()
    }

    /// The row at index `i`.
    pub fn row(&self, i: usize) -> (r: (&K, &V))
        requires
            i < self.rows_model().len(),
        ensures
            r.0.deep_view() == self.rows_model()[i as int].0,
            r.1.deep_view() == self.rows_model()[i as int].1,
    {
        (&self.rows[i].0, &self.rows[i].1)
    }
}

/// `rows` writes `map`: each key stands once, with its value.
pub open spec fn rows_are_map<A, B>(rows: Seq<(A, B)>, map: Map<A, B>) -> bool {
    &&& forall|i: int|
        0 <= i < rows.len() ==> map.contains_key((#[trigger] rows[i]).0) && map[rows[i].0]
            == rows[i].1
    &&& forall|i: int, j: int|
        0 <= i < j < rows.len() ==> (#[trigger] rows[i]).0 != (#[trigger] rows[j]).0
    &&& forall|k: A| #[trigger]
        map.contains_key(k) ==> exists|i: int| 0 <= i < rows.len() && (#[trigger] rows[i]).0 == k
}

/// A set with few members.
pub struct KeySet<K: Key> {
    rows: Vec<K>,
}

/// The set that `rows` write.
pub open spec fn set_of<K: Key>(rows: Seq<K>) -> Set<K::V> {
    Set::new(|k: K::V| exists|i: int| 0 <= i < rows.len() && (#[trigger] rows[i]).deep_view() == k)
}

impl<K: Key> DeepView for KeySet<K> {
    type V = Set<K::V>;

    closed spec fn deep_view(&self) -> Set<K::V> {
        set_of(self.rows@)
    }
}

impl<K: Key> KeySet<K> {
    /// No member occurs twice.
    #[verifier::type_invariant]
    spec fn no_member_twice(self) -> bool {
        forall|i: int, j: int|
            0 <= i < j < self.rows@.len() ==> (#[trigger] self.rows@[i]).deep_view() != (
            #[trigger] self.rows@[j]).deep_view()
    }

    pub fn new() -> (r: Self)
        ensures
            r.deep_view() == Set::<K::V>::empty(),
    {
        let r = KeySet { rows: Vec::new() };
        assert(set_of(r.rows@) =~= Set::empty());
        r
    }

    /// Where `key` stands, if it is a member.
    fn position(&self, key: &K) -> (r: Option<usize>)
        ensures
            match r {
                Some(i) => i < self.rows.len() && self.rows@[i as int].deep_view()
                    == key.deep_view() && self.deep_view().contains(key.deep_view()),
                None => !self.deep_view().contains(key.deep_view()),
            },
    {
        let mut i: usize = 0;
        while i < self.rows.len()
            invariant
                i <= self.rows.len(),
                forall|j: int|
                    0 <= j < i ==> (#[trigger] self.rows@[j]).deep_view() != key.deep_view(),
            decreases self.rows.len() - i,
        {
            if self.rows[i].same(key) {
                return Some(i);
            }
            i = i + 1;
        }
        None
    }

    pub fn contains(&self, key: &K) -> (r: bool)
        ensures
            r == self.deep_view().contains(key.deep_view()),
    {
        self.position(key).is_some()
    }

    pub fn insert(&mut self, key: K)
        ensures
            final(self).deep_view() == old(self).deep_view().insert(key.deep_view()),
    {
        if self.contains(&key) {
            assert(self.deep_view().insert(key.deep_view()) =~= self.deep_view());
            return ;
        }
        proof {
            use_type_invariant(&*self);
        }
        let mut rows: Vec<K> = Vec::new();
        std::mem::swap(&mut rows, &mut self.rows);
        let ghost before = rows@;
        rows.push(key);
        proof {
            assert forall|k: K::V| set_of(rows@).contains(k) == set_of(before).insert(
                key.deep_view(),
            ).contains(k) by {
                if k == key.deep_view() {
                    assert(rows@[before.len() as int].deep_view() == k);
                } else if set_of(before).contains(k) {
                    let i = choose|i: int|
                        0 <= i < before.len() && (#[trigger] before[i]).deep_view() == k;
                    assert(rows@[i].deep_view() == k);
                } else if set_of(rows@).contains(k) {
                    let i = choose|i: int|
                        0 <= i < rows@.len() && (#[trigger] rows@[i]).deep_view() == k;
                    assert(before[i].deep_view() == k);
                }
            }
            assert(set_of(rows@) =~= set_of(before).insert(key.deep_view()));
        }
        self.rows = rows;
    }

    pub fn remove(&mut self, key: &K)
        ensures
            final(self).deep_view() == old(self).deep_view().remove(key.deep_view()),
    {
        match self.position(key) {
            Some(at) => {
                proof {
                    use_type_invariant(&*self);
                }
                let mut rows: Vec<K> = Vec::new();
                std::mem::swap(&mut rows, &mut self.rows);
                let ghost before = rows@;
                rows.remove(at);
                proof {
                    assert forall|k: K::V| set_of(rows@).contains(k) == set_of(before).remove(
                        key.deep_view(),
                    ).contains(k) by {
                        if set_of(rows@).contains(k) {
                            let i = choose|i: int|
                                0 <= i < rows@.len() && (#[trigger] rows@[i]).deep_view() == k;
                            let b = if i < at { i } else { i + 1 };
                            assert(before[b].deep_view() == k);
                            assert(before[at as int].deep_view() == key.deep_view());
                        }
                        if set_of(before).remove(key.deep_view()).contains(k) {
                            let i = choose|i: int|
                                0 <= i < before.len() && (#[trigger] before[i]).deep_view() == k;
                            let b = if i < at { i } else { i - 1 };
                            assert(rows@[b].deep_view() == k);
                        }
                    }
                    assert(set_of(rows@) =~= set_of(before).remove(key.deep_view()));
                    assert forall|i: int, j: int| 0 <= i < j < rows@.len() implies (
                    #[trigger] rows@[i]).deep_view() != (#[trigger] rows@[j]).deep_view() by {
                        let a = if i < at { i } else { i + 1 };
                        let b = if j < at { j } else { j + 1 };
                        assert(before[a].deep_view() != before[b].deep_view());
                    }
                }
                self.rows = rows;
            },
            None => {
                assert(self.deep_view().remove(key.deep_view()) =~= self.deep_view());
            },
        }
    }

    pub fn is_empty(&self) -> (r: bool)
        ensures
            r == (self.deep_view() == Set::<K::V>::empty()),
    {
        proof {
            if self.rows@.len() > 0 {
                assert(self.deep_view().contains(self.rows@[0].deep_view()));
            } else {
                assert(self.deep_view() =~= Set::empty());
            }
        }
        self.rows.is_empty()
    }

    pub fn clear(&mut self)
        ensures
            final(self).deep_view() == Set::<K::V>::empty(),
    {
        *self = KeySet::new();
    }

    /// The members in the order in which they came.
    pub closed spec fn rows_model(&self) -> Seq<K::V> {
        deep(self.rows@)
    }

    /// How many members there are.
    pub fn len(&self) -> (n: usize)
        ensures
            n == self.rows_model().len(),
            forall|k: K::V| #[trigger]
                self.deep_view().contains(k) == self.rows_model().contains(k),
            self.rows_model().no_duplicates(),
    {
        proof {
            use_type_invariant(self);
            let rows = self.rows_model();
            assert forall|k: K::V| #[trigger] self.deep_view().contains(k) == rows.contains(k) by {
                if self.deep_view().contains(k) {
                    let i = choose|i: int|
                        0 <= i < self.rows@.len() && (#[trigger] self.rows@[i]).deep_view() == k;
                    assert(rows[i] == k);
                }
                if rows.contains(k) {
                    let i = choose|i: int| 0 <= i < rows.len() && rows[i] == k;
                    assert(self.rows@[i].deep_view() == k);
                }
            }
            assert forall|i: int, j: int| 0 <= i < rows.len() && 0 <= j < rows.len() && i
                != j implies rows[i] != rows[j] by {
                if i < j {
                    assert(self.rows@[i].deep_view() != self.rows@[j].deep_view());
                } else {
                    assert(self.rows@[j].deep_view() != self.rows@[i].deep_view());
                }
            }
        }
        self.rows.len()
    }

    /// The member at index `i`.
    pub fn row(&self, i: usize) -> (r: &K)
        requires
            i < self.rows_model().len(),
        ensures
            r.deep_view() == self.rows_model()[i as int],
    {
        &self.rows[i]
    }
}

/// `map` without the keys of one protocol.
pub open spec fn without_owner<B>(map: Map<ChatId, B>, owner: ProtocolId) -> Map<ChatId, B> {
    Map::new(|k: ChatId| map.contains_key(k) && k.0 != owner, |k: ChatId| map[k])
}

/// `set` without the members of one protocol.
pub open spec fn without_owner_set(set: Set<ChatId>, owner: ProtocolId) -> Set<ChatId> {
    Set::new(|k: ChatId| set.contains(k) && k.0 != owner)
}

/// A member of `set` belongs to `owner`.
pub open spec fn owner_in(set: Set<ChatId>, owner: ProtocolId) -> bool {
    exists|k: ChatId| set.contains(k) && k.0 == owner
}

impl<V: DeepView> KeyMap<(ProtocolId, String), V> {
    /// Remove every key of one protocol.
    pub fn drop_owner(&mut self, owner: ProtocolId)
        ensures
            final(self).deep_view() == without_owner(old(self).deep_view(), owner),
    {
        proof {
            use_type_invariant(&*self);
        }
        let mut rows: Vec<((ProtocolId, String), V)> = Vec::new();
        std::mem::swap(&mut rows, &mut self.rows);
        let ghost all = map_of(rows@);
        let mut i: usize = 0;
        while i < rows.len()
            invariant
                i <= rows.len(),
                distinct_keys(rows@),
                forall|k: ChatId| #[trigger]
                    map_of(rows@).contains_key(k) ==> all.contains_key(k) && map_of(rows@)[k]
                        == all[k],
                forall|k: ChatId| #[trigger]
                    all.contains_key(k) && k.0 != owner ==> map_of(rows@).contains_key(k),
                forall|j: int| 0 <= j < i ==> (#[trigger] rows@[j]).0.0 != owner,
            decreases rows.len() - i,
        {
            if rows[i].0.0 == owner {
                proof {
                    lemma_remove(rows@, i as int);
                }
                rows.remove(i);
            } else {
                i = i + 1;
            }
        }
        proof {
            assert forall|k: ChatId| map_of(rows@).contains_key(k) == without_owner(
                all,
                owner,
            ).contains_key(k) by {
                if map_of(rows@).contains_key(k) {
                    let j = choose|j: int| row_is(rows@, j, k);
                    assert(row_is(rows@, j, k));
                    assert(rows@[j].0.0 != owner);
                }
            }
            assert(map_of(rows@) =~= without_owner(all, owner));
        }
        self.rows = rows;
    }

    /// True when a key of one protocol is there.
    pub fn has_owner(&self, owner: ProtocolId) -> (r: bool)
        ensures
            r == owner_in(self.deep_view().dom(), owner),
    {
        proof {
            use_type_invariant(self);
        }
        let mut i: usize = 0;
        while i < self.rows.len()
            invariant
                i <= self.rows.len(),
                distinct_keys(self.rows@),
                forall|j: int| 0 <= j < i ==> (#[trigger] self.rows@[j]).0.0 != owner,
            decreases self.rows.len() - i,
        {
            if self.rows[i].0.0 == owner {
                proof {
                    lemma_row(self.rows@, i as int);
                    let k = self.rows@[i as int].0.deep_view();
                    assert(self.deep_view().dom().contains(k) && k.0 == owner);
                }
                return true;
            }
            i = i + 1;
        }
        proof {
            if owner_in(self.deep_view().dom(), owner) {
                let k = choose|k: ChatId| self.deep_view().dom().contains(k) && k.0 == owner;
                let j = choose|j: int| row_is(self.rows@, j, k);
                assert(row_is(self.rows@, j, k));
            }
        }
        false
    }
}

impl KeySet<(ProtocolId, String)> {
    /// Remove every member of one protocol.
    pub fn drop_owner(&mut self, owner: ProtocolId)
        ensures
            final(self).deep_view() == without_owner_set(old(self).deep_view(), owner),
    {
        let mut kept: KeySet<(ProtocolId, String)> = KeySet::new();
        let mut i: usize = 0;
        let n = self.len();
        let ghost rows = self.rows_model();
        let ghost all = self.deep_view();
        while i < n
            invariant
                i <= n,
                n == self.rows@.len(),
                rows == self.rows_model(),
                forall|k: ChatId| #[trigger]
                    kept.deep_view().contains(k) ==> all.contains(k) && k.0 != owner,
                forall|k: ChatId| #[trigger] all.contains(k) == rows.contains(k),
                forall|j: int|
                    0 <= j < i ==> (#[trigger] rows[j]).0 == owner || kept.deep_view().contains(
                        rows[j],
                    ),
            decreases n - i,
        {
            if self.rows[i].0 != owner {
                proof {
                    assert(rows[i as int] == self.rows@[i as int].deep_view());
                    assert(rows.contains(rows[i as int]));
                    assert(all.contains(rows[i as int]));
                }
                kept.insert((self.rows[i].0, self.rows[i].1.clone()));
            }
            i = i + 1;
        }
        proof {
            assert forall|k: ChatId| kept.deep_view().contains(k) == without_owner_set(
                all,
                owner,
            ).contains(k) by {
                if all.contains(k) && k.0 != owner {
                    assert(rows.contains(k));
                    let j = choose|j: int| 0 <= j < rows.len() && rows[j] == k;
                    assert(kept.deep_view().contains(rows[j]));
                }
            }
            assert(kept.deep_view() =~= without_owner_set(all, owner));
        }
        *self = kept;
    }

    /// True when a member of one protocol is there.
    pub fn has_owner(&self, owner: ProtocolId) -> (r: bool)
        ensures
            r == owner_in(self.deep_view(), owner),
    {
        let n = self.len();
        let ghost rows = self.rows_model();
        let mut i: usize = 0;
        while i < n
            invariant
                i <= n,
                n == self.rows@.len(),
                rows == self.rows_model(),
                forall|k: ChatId| #[trigger] self.deep_view().contains(k) == rows.contains(k),
                forall|j: int| 0 <= j < i ==> (#[trigger] rows[j]).0 != owner,
            decreases n - i,
        {
            proof {
                assert(rows[i as int] == self.rows@[i as int].deep_view());
            }
            if self.rows[i].0 == owner {
                proof {
                    let k = rows[i as int];
                    assert(rows.contains(k));
                    assert(self.deep_view().contains(k) && k.0 == owner);
                }
                return true;
            }
            i = i + 1;
        }
        proof {
            if owner_in(self.deep_view(), owner) {
                let k = choose|k: ChatId| self.deep_view().contains(k) && k.0 == owner;
                assert(rows.contains(k));
            }
        }
        false
    }
}

} // verus!
