//! Searching, thinning, and sorting of lists, stated over the models of their
//! rows.

use vstd::prelude::*;

verus! {

/// The index of the first row with `p`, or the length when no row has it.
pub open spec fn first_index<A>(s: Seq<A>, p: spec_fn(A) -> bool) -> int
    decreases s.len(),
{
    if s.len() == 0 || p(s.first()) {
        0
    } else {
        1 + first_index(s.drop_first(), p)
    }
}

/// The first index is the one whose row has `p` while no row before it does.
pub proof fn lemma_first_index<A>(s: Seq<A>, p: spec_fn(A) -> bool)
    ensures
        0 <= first_index(s, p) <= s.len(),
        forall|j: int| 0 <= j < first_index(s, p) ==> !p(#[trigger] s[j]),
        first_index(s, p) < s.len() ==> p(s[first_index(s, p)]),
    decreases s.len(),
{
    if s.len() > 0 && !p(s.first()) {
        let rest = s.drop_first();
        lemma_first_index(rest, p);
        assert forall|j: int| 0 <= j < first_index(s, p) implies !p(#[trigger] s[j]) by {
            if j > 0 {
                assert(rest[j - 1] == s[j]);
            }
        }
    }
}

/// A row with `p` that has none before it stands at the first index.
pub proof fn lemma_first_index_is<A>(s: Seq<A>, p: spec_fn(A) -> bool, i: int)
    requires
        0 <= i <= s.len(),
        forall|j: int| 0 <= j < i ==> !p(#[trigger] s[j]),
        i < s.len() ==> p(s[i]),
    ensures
        first_index(s, p) == i,
{
    lemma_first_index(s, p);
    let f = first_index(s, p);
    if f < i {
        assert(!p(s[f]));
    }
    if i < f {
        assert(!p(s[i]));
    }
}

/// A row of `s` has `p`.
pub open spec fn some_row<A>(s: Seq<A>, p: spec_fn(A) -> bool) -> bool {
    first_index(s, p) < s.len()
}

/// A list has a row with `p` exactly when some index shows one.
pub proof fn lemma_some_row<A>(s: Seq<A>, p: spec_fn(A) -> bool)
    ensures
        some_row(s, p) == exists|i: int| 0 <= i < s.len() && p(#[trigger] s[i]),
{
    lemma_first_index(s, p);
    if some_row(s, p) {
        assert(p(s[first_index(s, p)]));
    }
}

/// Where the first row with `p` stands, if there is one.
pub fn position<T: DeepView, F: Fn(&T) -> bool>(
    list: &Vec<T>,
    test: F,
    Ghost(p): Ghost<spec_fn(T::V) -> bool>,
) -> (r: Option<usize>)
    requires
        forall|x: &T| #[trigger] test.requires((x,)),
        forall|x: &T, b: bool| #[trigger] test.ensures((x,), b) ==> b == p(x.deep_view()),
    ensures
        some_row(list.deep_view(), p) == r.is_some(),
        match r {
            Some(i) => i < list.len() && i == first_index(list.deep_view(), p) && p(
                list@[i as int].deep_view(),
            ),
            None => first_index(list.deep_view(), p) == list.len(),
        },
{
    let ghost s = list.deep_view();
    let mut i: usize = 0;
    while i < list.len()
        invariant
            i <= list.len(),
            s == list.deep_view(),
            forall|x: &T| #[trigger] test.requires((x,)),
            forall|x: &T, b: bool| #[trigger] test.ensures((x,), b) ==> b == p(x.deep_view()),
            forall|j: int| 0 <= j < i ==> !p(#[trigger] s[j]),
        decreases list.len() - i,
    {
        assert(s[i as int] == list@[i as int].deep_view());
        if test(&list[i]) {
            proof {
                lemma_first_index_is(s, p, i as int);
            }
            return Some(i);
        }
        i = i + 1;
    }
    proof {
        lemma_first_index_is(s, p, i as int);
    }
    None
}

/// One more row through a filter.
pub proof fn lemma_filter_step<A>(s: Seq<A>, p: spec_fn(A) -> bool, k: int)
    requires
        0 <= k < s.len(),
    ensures
        s.take(k + 1).filter(p) == (if p(s[k]) {
            s.take(k).filter(p).push(s[k])
        } else {
            s.take(k).filter(p)
        }),
{
    reveal(Seq::filter);
    assert(s.take(k + 1).drop_last() =~= s.take(k));
    assert(s.take(k + 1).last() == s[k]);
}

/// Keep the rows with `p`, in their order.
pub fn retain<T: DeepView, F: Fn(&T) -> bool>(
    list: &mut Vec<T>,
    test: F,
    Ghost(p): Ghost<spec_fn(T::V) -> bool>,
)
    requires
        forall|x: &T| #[trigger] test.requires((x,)),
        forall|x: &T, b: bool| #[trigger] test.ensures((x,), b) ==> b == p(x.deep_view()),
    ensures
        final(list).deep_view() == old(list).deep_view().filter(p),
{
    let ghost s = list.deep_view();
    let ghost mut k: int = 0;
    let mut i: usize = 0;
    proof {
        assert(s.take(0) =~= Seq::empty());
        reveal(Seq::filter);
        assert(s.take(0).filter(p) =~= Seq::empty());
        assert(Seq::empty() + s.skip(0) =~= s);
    }
    while i < list.len()
        invariant
            0 <= k <= s.len(),
            i <= list.len(),
            i == s.take(k).filter(p).len(),
            list.deep_view() == s.take(k).filter(p) + s.skip(k),
            forall|x: &T| #[trigger] test.requires((x,)),
            forall|x: &T, b: bool| #[trigger] test.ensures((x,), b) ==> b == p(x.deep_view()),
        decreases list.len() - i,
    {
        let ghost done = s.take(k).filter(p);
        let ghost before = list.deep_view();
        proof {
            assert(before.len() == list.len());
            assert(k < s.len());
            assert(before[i as int] == s[k]);
            assert(before[i as int] == list@[i as int].deep_view());
            lemma_filter_step(s, p, k);
        }
        if test(&list[i]) {
            proof {
                assert(done + s.skip(k) =~= done.push(s[k]) + s.skip(k + 1));
            }
            i = i + 1;
        } else {
            let ghost rows = list@;
            list.remove(i);
            proof {
                assert forall|j: int| 0 <= j < list@.len() implies #[trigger] list@[j].deep_view()
                    == (done + s.skip(k + 1))[j] by {
                    let b = if j < i { j } else { j + 1 };
                    assert(list@[j] == rows[b]);
                    assert(before[b] == rows[b].deep_view());
                }
                assert(list.deep_view() =~= done + s.skip(k + 1));
            }
        }
        proof {
            k = k + 1;
        }
    }
    proof {
        assert(list.deep_view().len() == list.len());
        assert(k == s.len());
        assert(s.take(k) =~= s);
        assert(s.take(k).filter(p) + s.skip(k) =~= s.filter(p));
    }
}

/// Rows with a rank: a row may stand before another of its own or a higher rank.
pub trait Ranked: DeepView + Sized {
    spec fn ranks(a: Self::V, b: Self::V) -> bool;

    fn may_precede(&self, other: &Self) -> (r: bool)
        ensures
            r == Self::ranks(self.deep_view(), other.deep_view()),
    ;
}

/// The rows of `s` after which a new row of this rank goes: as many from the
/// front as may stand before it.
pub open spec fn slot<T: Ranked>(s: Seq<T::V>, row: T::V) -> int
    decreases s.len(),
{
    if s.len() == 0 || T::ranks(s.last(), row) {
        s.len() as int
    } else {
        slot::<T>(s.drop_last(), row)
    }
}

/// `s` in rank order. Rows of one rank keep their order.
pub open spec fn ranked<T: Ranked>(s: Seq<T::V>) -> Seq<T::V>
    decreases s.len(),
{
    if s.len() == 0 {
        s
    } else {
        let rest = ranked::<T>(s.drop_last());
        rest.insert(slot::<T>(rest, s.last()), s.last())
    }
}

proof fn lemma_slot<T: Ranked>(s: Seq<T::V>, row: T::V)
    ensures
        0 <= slot::<T>(s, row) <= s.len(),
        slot::<T>(s, row) > 0 ==> T::ranks(s[slot::<T>(s, row) - 1], row),
        forall|j: int| slot::<T>(s, row) <= j < s.len() ==> !T::ranks(#[trigger] s[j], row),
    decreases s.len(),
{
    if s.len() > 0 && !T::ranks(s.last(), row) {
        let rest = s.drop_last();
        lemma_slot::<T>(rest, row);
        assert forall|j: int| slot::<T>(s, row) <= j < s.len() implies !T::ranks(
            #[trigger] s[j],
            row,
        ) by {
            if j < rest.len() {
                assert(rest[j] == s[j]);
            }
        }
    }
}

/// Sort the rows by rank. Rows of one rank keep their order.
pub fn sort_ranked<T: Ranked>(list: &mut Vec<T>)
    ensures
        final(list).deep_view() == ranked::<T>(old(list).deep_view()),
{
    let ghost s = list.deep_view();
    let mut left: Vec<T> = Vec::new();
    std::mem::swap(&mut left, list);
    let mut sorted: Vec<T> = Vec::new();
    let ghost mut k: int = 0;
    proof {
        assert(sorted.deep_view() =~= ranked::<T>(s.take(0)));
        assert(left.deep_view() =~= s.skip(0));
    }
    while left.len() > 0
        invariant
            0 <= k <= s.len(),
            left.deep_view() == s.skip(k),
            sorted.deep_view() == ranked::<T>(s.take(k)),
        decreases left.len(),
    {
        let ghost waiting = left@;
        let ghost done = sorted.deep_view();
        let row = left.remove(0);
        let mut at: usize = sorted.len();
        proof {
            assert(s.skip(k).len() == waiting.len());
            assert(s.skip(k)[0] == waiting[0].deep_view());
            assert(row.deep_view() == s[k]);
            assert(sorted.deep_view().take(at as int) =~= sorted.deep_view());
        }
        while at > 0 && !sorted[at - 1].may_precede(&row)
            invariant
                at <= sorted.len(),
                done == sorted.deep_view(),
                slot::<T>(done, row.deep_view()) == slot::<T>(
                    done.take(at as int),
                    row.deep_view(),
                ),
            decreases at,
        {
            proof {
                let part = done.take(at as int);
                assert(part.last() == sorted@[at - 1].deep_view());
                assert(part.drop_last() =~= done.take(at - 1));
            }
            at = at - 1;
        }
        proof {
            let part = done.take(at as int);
            if at > 0 {
                assert(part.last() == sorted@[at - 1].deep_view());
            }
            assert(slot::<T>(done, row.deep_view()) == at);
        }
        let ghost model = row.deep_view();
        sorted.insert(at, row);
        proof {
            assert(sorted.deep_view() =~= done.insert(at as int, model));
            let more = s.take(k + 1);
            assert(more.drop_last() =~= s.take(k));
            assert(more.last() == s[k]);
            assert forall|j: int| 0 <= j < left@.len() implies #[trigger] left@[j].deep_view()
                == s.skip(k + 1)[j] by {
                assert(left@[j] == waiting[j + 1]);
                assert(s.skip(k)[j + 1] == waiting[j + 1].deep_view());
            }
            assert(left.deep_view() =~= s.skip(k + 1));
            k = k + 1;
        }
    }
    proof {
        assert(left.deep_view().len() == left.len());
        assert(s.take(k) =~= s);
    }
    *list = sorted;
}

/// Sorting neither adds nor drops a row.
pub proof fn law_ranked_keeps_rows<T: Ranked>(s: Seq<T::V>)
    ensures
        ranked::<T>(s).to_multiset() == s.to_multiset(),
        ranked::<T>(s).len() == s.len(),
    decreases s.len(),
{
    if s.len() > 0 {
        let before = s.drop_last();
        law_ranked_keeps_rows::<T>(before);
        let rest = ranked::<T>(before);
        lemma_slot::<T>(rest, s.last());
        let at = slot::<T>(rest, s.last());
        let all = rest.insert(at, s.last());
        before.to_multiset_ensures();
        assert(before.push(s.last()) =~= s);
        all.to_multiset_ensures();
        assert(all.remove(at) =~= rest);
        assert(all[at] == s.last());
        assert(all.contains(s.last()));
        assert(all.to_multiset().remove(s.last()).insert(s.last()) =~= all.to_multiset());
    }
}

/// When the ranks form a total preorder, the sorted rows stand in rank order.
pub proof fn law_ranked_is_sorted<T: Ranked>(s: Seq<T::V>)
    requires
        forall|a: T::V, b: T::V| #[trigger] T::ranks(a, b) || T::ranks(b, a),
        forall|a: T::V, b: T::V, c: T::V|
            #![trigger T::ranks(a, b), T::ranks(b, c)]
            T::ranks(a, b) && T::ranks(b, c) ==> T::ranks(a, c),
    ensures
        forall|i: int, j: int|
            0 <= i < j < ranked::<T>(s).len() ==> T::ranks(
                #[trigger] ranked::<T>(s)[i],
                #[trigger] ranked::<T>(s)[j],
            ),
    decreases s.len(),
{
    if s.len() > 0 {
        law_ranked_is_sorted::<T>(s.drop_last());
        let rest = ranked::<T>(s.drop_last());
        let row = s.last();
        let at = slot::<T>(rest, row);
        lemma_slot::<T>(rest, row);
        let all = ranked::<T>(s);
        assert(all == rest.insert(at, row));
        assert forall|i: int, j: int| 0 <= i < j < all.len() implies T::ranks(
            #[trigger] all[i],
            #[trigger] all[j],
        ) by {
            let a = if i < at { i } else { i - 1 };
            let b = if j < at { j } else { j - 1 };
            if i == at {
                assert(all[j] == rest[b]);
                assert(!T::ranks(rest[b], row));
                assert(T::ranks(row, rest[b]) || T::ranks(rest[b], row));
            } else if j == at {
                assert(all[i] == rest[a]);
                assert(T::ranks(rest[at - 1], row));
                if a < at - 1 {
                    assert(T::ranks(rest[a], rest[at - 1]));
                }
            } else {
                assert(all[i] == rest[a]);
                assert(all[j] == rest[b]);
            }
        }
    }
}

/// A filtered list holds a row exactly when the list holds it and it passes.
pub proof fn lemma_filter_contains<A>(s: Seq<A>, p: spec_fn(A) -> bool, row: A)
    ensures
        s.filter(p).contains(row) == (s.contains(row) && p(row)),
    decreases s.len(),
{
    reveal(Seq::filter);
    if s.len() > 0 {
        lemma_filter_contains(s.drop_last(), p, row);
        let rest = s.drop_last();
        let sub = rest.filter(p);
        assert(s =~= rest.push(s.last()));
        if s.contains(row) {
            let i = choose|i: int| 0 <= i < s.len() && s[i] == row;
            if i < rest.len() {
                assert(rest[i] == row);
            }
        }
        if rest.contains(row) {
            let i = choose|i: int| 0 <= i < rest.len() && rest[i] == row;
            assert(s[i] == row);
        }
        if p(s.last()) {
            let all = sub.push(s.last());
            assert(all.last() == s.last());
            if sub.contains(row) {
                let i = choose|i: int| 0 <= i < sub.len() && sub[i] == row;
                assert(all[i] == row);
            }
            if all.contains(row) {
                let i = choose|i: int| 0 <= i < all.len() && all[i] == row;
                if i < sub.len() {
                    assert(sub[i] == row);
                }
            }
            assert(all[sub.len() as int] == s.last());
        }
        assert(s[s.len() - 1] == s.last());
    }
}

/// Every two rows of the list stand in this relation, the earlier one first.
pub open spec fn pairwise<A>(s: Seq<A>, r: spec_fn(A, A) -> bool) -> bool {
    forall|i: int, j: int| 0 <= i < j < s.len() ==> r(#[trigger] s[i], #[trigger] s[j])
}

/// Every row of the list passes.
pub open spec fn every<A>(s: Seq<A>, p: spec_fn(A) -> bool) -> bool {
    forall|i: int| 0 <= i < s.len() ==> p(#[trigger] s[i])
}

/// A filter keeps what holds of every two rows.
pub proof fn lemma_filter_pairwise<A>(s: Seq<A>, p: spec_fn(A) -> bool, r: spec_fn(A, A) -> bool)
    requires
        pairwise(s, r),
    ensures
        pairwise(s.filter(p), r),
    decreases s.len(),
{
    reveal(Seq::filter);
    if s.len() > 0 {
        let rest = s.drop_last();
        lemma_filter_pairwise(rest, p, r);
        let sub = rest.filter(p);
        if p(s.last()) {
            let all = sub.push(s.last());
            assert forall|i: int, j: int| 0 <= i < j < all.len() implies r(
                #[trigger] all[i],
                #[trigger] all[j],
            ) by {
                if j == sub.len() {
                    assert(sub.contains(sub[i]));
                    lemma_filter_contains(rest, p, sub[i]);
                    let k = choose|k: int| 0 <= k < rest.len() && rest[k] == sub[i];
                    assert(s[k] == sub[i]);
                    assert(r(s[k], s[s.len() - 1]));
                }
            }
        }
    }
}

/// A filter keeps what holds of every row.
pub proof fn lemma_filter_every<A>(s: Seq<A>, p: spec_fn(A) -> bool, q: spec_fn(A) -> bool)
    requires
        every(s, q),
    ensures
        every(s.filter(p), q),
{
    let less = s.filter(p);
    assert forall|i: int| 0 <= i < less.len() implies q(#[trigger] less[i]) by {
        assert(less.contains(less[i]));
        lemma_filter_contains(s, p, less[i]);
        let k = choose|k: int| 0 <= k < s.len() && s[k] == less[i];
        assert(q(s[k]));
    }
}

/// A sorted list holds the rows of the list.
pub proof fn lemma_ranked_contains<T: Ranked>(s: Seq<T::V>, row: T::V)
    ensures
        ranked::<T>(s).contains(row) == s.contains(row),
{
    law_ranked_keeps_rows::<T>(s);
    s.to_multiset_ensures();
    ranked::<T>(s).to_multiset_ensures();
    assert(s.contains(row) <==> s.to_multiset().count(row) > 0);
    assert(ranked::<T>(s).contains(row) <==> ranked::<T>(s).to_multiset().count(row) > 0);
}

/// Sorting keeps what holds of every row.
pub proof fn lemma_ranked_every<T: Ranked>(s: Seq<T::V>, q: spec_fn(T::V) -> bool)
    requires
        every(s, q),
    ensures
        every(ranked::<T>(s), q),
{
    let all = ranked::<T>(s);
    assert forall|i: int| 0 <= i < all.len() implies q(#[trigger] all[i]) by {
        assert(all.contains(all[i]));
        lemma_ranked_contains::<T>(s, all[i]);
        let k = choose|k: int| 0 <= k < s.len() && s[k] == all[i];
        assert(q(s[k]));
    }
}

/// Sorting keeps what holds of every two rows in either order.
pub proof fn lemma_ranked_pairwise<T: Ranked>(s: Seq<T::V>, r: spec_fn(T::V, T::V) -> bool)
    requires
        pairwise(s, r),
        forall|a: T::V, b: T::V| #[trigger] r(a, b) ==> r(b, a),
    ensures
        pairwise(ranked::<T>(s), r),
    decreases s.len(),
{
    if s.len() > 0 {
        let before = s.drop_last();
        lemma_ranked_pairwise::<T>(before, r);
        let rest = ranked::<T>(before);
        let row = s.last();
        let at = slot::<T>(rest, row);
        lemma_slot::<T>(rest, row);
        let all = rest.insert(at, row);
        assert forall|i: int| 0 <= i < rest.len() implies r(#[trigger] rest[i], row) by {
            assert(rest.contains(rest[i]));
            lemma_ranked_contains::<T>(before, rest[i]);
            let k = choose|k: int| 0 <= k < before.len() && before[k] == rest[i];
            assert(s[k] == rest[i]);
            assert(r(s[k], s[s.len() - 1]));
        }
        assert forall|i: int, j: int| 0 <= i < j < all.len() implies r(
            #[trigger] all[i],
            #[trigger] all[j],
        ) by {
            let a = if i < at { i } else { i - 1 };
            let b = if j < at { j } else { j - 1 };
            if i == at {
                assert(all[j] == rest[b]);
                assert(r(rest[b], row));
            } else if j == at {
                assert(all[i] == rest[a]);
            } else {
                assert(all[i] == rest[a]);
                assert(all[j] == rest[b]);
                assert(r(rest[a], rest[b]));
            }
        }
    }
}

/// The rows stand in order.
pub open spec fn in_order<T: Ranked>(s: Seq<T::V>) -> bool {
    forall|i: int, j: int|
        0 <= i < j < s.len() ==> T::ranks(#[trigger] s[i], #[trigger] s[j])
}

/// Rows that stand in order stay where they are, so rows that rank alike keep
/// the order in which they came.
pub proof fn law_ordered_rows_stay<T: Ranked>(s: Seq<T::V>)
    requires
        in_order::<T>(s),
    ensures
        ranked::<T>(s) == s,
    decreases s.len(),
{
    if s.len() > 0 {
        let front = s.drop_last();
        assert forall|i: int, j: int| 0 <= i < j < front.len() implies T::ranks(
            #[trigger] front[i],
            #[trigger] front[j],
        ) by {
            assert(front[i] == s[i] && front[j] == s[j]);
        }
        law_ordered_rows_stay::<T>(front);
        if front.len() > 0 {
            assert(T::ranks(s[front.len() - 1], s[s.len() - 1]));
        }
        assert(front.insert(front.len() as int, s.last()) =~= s);
    }
}

/// The place of a new row: right behind the last row that ranks before it or
/// like it.
pub open spec fn goes_behind<T: Ranked>(s: Seq<T::V>, row: T::V, at: int) -> bool {
    &&& 0 <= at <= s.len()
    &&& at > 0 ==> T::ranks(s[at - 1], row)
    &&& forall|k: int| at <= k < s.len() ==> !T::ranks(#[trigger] s[k], row)
}

/// A row that comes to rows in order moves none of them: it goes behind every
/// row that ranks before it or like it.
pub proof fn law_new_row_goes_behind_its_equals<T: Ranked>(s: Seq<T::V>, row: T::V)
    requires
        in_order::<T>(s),
    ensures
        exists|at: int| #[trigger]
            goes_behind::<T>(s, row, at) && ranked::<T>(s.push(row)) == s.insert(at, row),
{
    law_ordered_rows_stay::<T>(s);
    assert(s.push(row).drop_last() =~= s);
    lemma_slot::<T>(s, row);
    let at = slot::<T>(s, row);
    assert(goes_behind::<T>(s, row, at));
}

} // verus!
