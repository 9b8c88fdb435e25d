use crate::queue_index_range::QueueIndexRange;
use crate::queue_value::QueueValue;
use vstd::prelude::*;

verus! {

/// All integers from `lo` to `hi`, both included.
pub open spec fn span(lo: int, hi: int) -> Set<int> {
    Set::new(|v: int| lo <= v <= hi)
}

/// No interval of the list is empty.
pub open spec fn populated<T: QueueValue>(s: Seq<QueueIndexRange<T>>) -> bool {
    forall|i: int| 0 <= i < s.len() ==> !(#[trigger] s[i]).vacant()
}

/// Every interval of the list ends at least two steps before each later one
/// starts: between two intervals there is always a value that neither holds.
pub open spec fn spaced<T: QueueValue>(s: Seq<QueueIndexRange<T>>) -> bool {
    forall|i: int, j: int|
        0 <= i < j < s.len() ==> (#[trigger] s[i]).hi() + 1 < (#[trigger] s[j]).lo()
}

/// A list of one or more non-empty intervals in ascending order, of which no
/// two overlap or touch.
pub open spec fn coalesced<T: QueueValue>(s: Seq<QueueIndexRange<T>>) -> bool {
    &&& s.len() >= 1
    &&& populated(s)
    &&& spaced(s)
}

/// The list that stands for the empty set: one empty interval.
pub open spec fn placeholder<T: QueueValue>(s: Seq<QueueIndexRange<T>>) -> bool {
    &&& s.len() == 1
    &&& s[0].vacant()
}

/// The shape that every operation of the queue keeps: either the placeholder,
/// or a coalesced list.
pub open spec fn well_formed<T: QueueValue>(s: Seq<QueueIndexRange<T>>) -> bool {
    placeholder(s) || coalesced(s)
}

/// Some interval of the list holds the integer `v`.
pub open spec fn list_holds<T: QueueValue>(s: Seq<QueueIndexRange<T>>, v: int) -> bool {
    exists|i: int| 0 <= i < s.len() && (#[trigger] s[i]).holds(v)
}

/// The set of integers that the intervals of the list hold.
pub open spec fn members<T: QueueValue>(s: Seq<QueueIndexRange<T>>) -> Set<int> {
    Set::new(|v: int| list_holds(s, v))
}

/// The sum of the sizes of the intervals of the list.
pub open spec fn total<T: QueueValue>(s: Seq<QueueIndexRange<T>>) -> nat
    decreases s.len(),
{
    if s.len() == 0 {
        0
    } else {
        total(s.drop_last()) + s.last().count()
    }
}

/// Among non-empty intervals, keeping a gap between neighbours is the same as
/// keeping it between any two intervals of the list.
pub proof fn lemma_spaced_by_neighbours<T: QueueValue>(s: Seq<QueueIndexRange<T>>)
    requires
        populated(s),
    ensures
        spaced(s) <==> forall|i: int|
            0 <= i < s.len() - 1 ==> (#[trigger] s[i]).hi() + 1 < s[i + 1].lo(),
{
    if forall|i: int| 0 <= i < s.len() - 1 ==> (#[trigger] s[i]).hi() + 1 < s[i + 1].lo() {
        assert forall|i: int, j: int| 0 <= i < j < s.len() implies (#[trigger] s[i]).hi() + 1 < (
        #[trigger] s[j]).lo() by {
            lemma_neighbours_reach(s, i, j);
        }
    }
}

proof fn lemma_neighbours_reach<T: QueueValue>(s: Seq<QueueIndexRange<T>>, i: int, j: int)
    requires
        populated(s),
        forall|k: int| 0 <= k < s.len() - 1 ==> (#[trigger] s[k]).hi() + 1 < s[k + 1].lo(),
        0 <= i < j < s.len(),
    ensures
        s[i].hi() + 1 < s[j].lo(),
    decreases j - i,
{
    if j > i + 1 {
        lemma_neighbours_reach(s, i, j - 1);
    }
}

/// The intervals of a coalesced list are sorted by their starts, strictly.
pub proof fn lemma_starts_ascend<T: QueueValue>(s: Seq<QueueIndexRange<T>>)
    requires
        coalesced(s),
    ensures
        forall|i: int, j: int|
            0 <= i < j < s.len() ==> (#[trigger] s[i]).lo() < (#[trigger] s[j]).lo(),
{
}

/// In a coalesced list a value lies in at most one interval.
pub proof fn lemma_one_holder<T: QueueValue>(s: Seq<QueueIndexRange<T>>, v: int, i: int, j: int)
    requires
        spaced(s),
        0 <= i < s.len(),
        0 <= j < s.len(),
        s[i].holds(v),
        s[j].holds(v),
    ensures
        i == j,
{
}

/// Two coalesced lists that hold the same integers are the same list: a set
/// of values has one representation only.
pub proof fn lemma_one_representation<T: QueueValue>(
    a: Seq<QueueIndexRange<T>>,
    b: Seq<QueueIndexRange<T>>,
)
    requires
        coalesced(a),
        coalesced(b),
        members(a) == members(b),
    ensures
        a == b,
{
    lemma_same_prefix(a, b, a.len() as int);
}

proof fn lemma_holds_transfer<T: QueueValue>(
    a: Seq<QueueIndexRange<T>>,
    b: Seq<QueueIndexRange<T>>,
    i: int,
    v: int,
) -> (j: int)
    requires
        members(a) == members(b),
        0 <= i < a.len(),
        a[i].holds(v),
    ensures
        0 <= j < b.len(),
        b[j].holds(v),
{
    assert(members(a).contains(v));
    choose|j: int| 0 <= j < b.len() && (#[trigger] b[j]).holds(v)
}

/// A run of integers that a coalesced list holds lies within one interval.
proof fn lemma_run_in_one_interval<T: QueueValue>(
    b: Seq<QueueIndexRange<T>>,
    j: int,
    lo: int,
    hi: int,
)
    requires
        coalesced(b),
        0 <= j < b.len(),
        lo <= hi,
        b[j].holds(lo),
        forall|v: int| lo <= v <= hi ==> list_holds(b, v),
    ensures
        b[j].holds(hi),
    decreases hi - lo,
{
    if lo < hi {
        if b[j].hi() == lo {
            assert(list_holds(b, lo + 1));
            let k = choose|k: int| 0 <= k < b.len() && (#[trigger] b[k]).holds(lo + 1);
            if k > j {
                assert(b[j].hi() + 1 < b[k].lo());
            }
        }
        lemma_run_in_one_interval(b, j, lo + 1, hi);
    }
}

proof fn lemma_interval_within<T: QueueValue>(
    a: Seq<QueueIndexRange<T>>,
    b: Seq<QueueIndexRange<T>>,
    i: int,
) -> (j: int)
    requires
        coalesced(a),
        coalesced(b),
        members(a) == members(b),
        0 <= i < a.len(),
    ensures
        0 <= j < b.len(),
        b[j].lo() <= a[i].lo(),
        a[i].hi() <= b[j].hi(),
{
    let j = lemma_holds_transfer(a, b, i, a[i].lo());
    assert forall|v: int| a[i].lo() <= v <= a[i].hi() implies list_holds(b, v) by {
        lemma_holds_transfer(a, b, i, v);
    }
    lemma_run_in_one_interval(b, j, a[i].lo(), a[i].hi());
    j
}

proof fn lemma_same_interval<T: QueueValue>(
    a: Seq<QueueIndexRange<T>>,
    b: Seq<QueueIndexRange<T>>,
    i: int,
) -> (j: int)
    requires
        coalesced(a),
        coalesced(b),
        members(a) == members(b),
        0 <= i < a.len(),
    ensures
        0 <= j < b.len(),
        b[j] == a[i],
{
    let j = lemma_interval_within(a, b, i);
    lemma_interval_within(b, a, j);
    T::same_value(a[i].from_id, b[j].from_id);
    T::same_value(a[i].to_id, b[j].to_id);
    j
}

proof fn lemma_same_prefix<T: QueueValue>(
    a: Seq<QueueIndexRange<T>>,
    b: Seq<QueueIndexRange<T>>,
    n: int,
)
    requires
        coalesced(a),
        coalesced(b),
        members(a) == members(b),
        0 <= n <= a.len(),
    ensures
        n <= b.len(),
        forall|i: int| 0 <= i < n ==> a[i] == b[i],
        n == a.len() ==> a.len() == b.len(),
    decreases n,
{
    if n > 0 {
        lemma_same_prefix(a, b, n - 1);
        let i = n - 1;
        // The interval a[i] is some b[j]. It cannot be an earlier one, which
        // is an earlier one of a; were it a later one, b[i] would lie below
        // a[i] and yet be an interval of a that is none of the first i.
        let j = lemma_same_interval(a, b, i);
        if j > i {
            lemma_same_interval(b, a, i);
        }
    }
    if n == a.len() && b.len() > n {
        // One more interval of b would be an interval of a above all of a.
        lemma_same_interval(b, a, n);
    }
}

/// The list `s` with the intervals at the indices `first` to `last`, both
/// included, replaced by the one interval `x`.
pub open spec fn replaced<T: QueueValue>(
    s: Seq<QueueIndexRange<T>>,
    first: int,
    last: int,
    x: QueueIndexRange<T>,
) -> Seq<QueueIndexRange<T>> {
    s.subrange(0, first).push(x) + s.subrange(last + 1, s.len() as int)
}

/// The list `s` without the intervals at the indices from `first` up to, but
/// not including, `end`.
pub open spec fn without<T: QueueValue>(s: Seq<QueueIndexRange<T>>, first: int, end: int) -> Seq<
    QueueIndexRange<T>,
> {
    s.subrange(0, first) + s.subrange(end, s.len() as int)
}

/// Putting the range from `from` to `to` into a coalesced list: the range
/// reaches, by overlap or by touching, the intervals at `first` to `last` and
/// no other, and `x` spans the range and those intervals. Replacing them by
/// `x` gives the coalesced list of the old values and the range.
pub proof fn lemma_replaced<T: QueueValue>(
    s: Seq<QueueIndexRange<T>>,
    first: int,
    last: int,
    x: QueueIndexRange<T>,
    from: int,
    to: int,
)
    requires
        coalesced(s),
        0 <= first <= last < s.len(),
        from <= to,
        x.lo() == if from < s[first].lo() {
            from
        } else {
            s[first].lo()
        },
        x.hi() == if to > s[last].hi() {
            to
        } else {
            s[last].hi()
        },
        from <= s[first].hi() + 1,
        s[last].lo() <= to + 1,
        first > 0 ==> s[first - 1].hi() + 1 < from,
        last + 1 < s.len() ==> to + 1 < s[last + 1].lo(),
    ensures
        coalesced(replaced(s, first, last, x)),
        members(replaced(s, first, last, x)) == members(s).union(span(from, to)),
{
    let r = replaced(s, first, last, x);
    let shift = last - first;
    assert(forall|k: int| 0 <= k < first ==> r[k] == s[k]);
    assert(r[first] == x);
    assert forall|v: int| list_holds(r, v) <==> (list_holds(s, v) || from <= v <= to) by {
        if list_holds(r, v) {
            let k = choose|k: int| 0 <= k < r.len() && (#[trigger] r[k]).holds(v);
        }
        if list_holds(s, v) {
            let k = choose|k: int| 0 <= k < s.len() && (#[trigger] s[k]).holds(v);
            if k > last {
                assert(r[k - shift].holds(v));
            }
        }
    }
}

/// Putting a non-empty interval `x` into the gap before the interval at
/// index `at` of a coalesced list, where `x` touches neither neighbour,
/// gives the coalesced list of the old values and those of `x`.
pub proof fn lemma_inserted<T: QueueValue>(
    s: Seq<QueueIndexRange<T>>,
    at: int,
    x: QueueIndexRange<T>,
)
    requires
        coalesced(s),
        0 <= at <= s.len(),
        !x.vacant(),
        at > 0 ==> s[at - 1].hi() + 1 < x.lo(),
        at < s.len() ==> x.hi() + 1 < s[at].lo(),
    ensures
        coalesced(s.insert(at, x)),
        members(s.insert(at, x)) == members(s).union(span(x.lo(), x.hi())),
{
    let r = s.insert(at, x);
    assert(forall|k: int| 0 <= k < at ==> r[k] == s[k]);
    assert(r[at] == x);
    assert forall|v: int| list_holds(r, v) <==> (list_holds(s, v) || x.holds(v)) by {
        if list_holds(r, v) {
            let k = choose|k: int| 0 <= k < r.len() && (#[trigger] r[k]).holds(v);
        }
        if list_holds(s, v) {
            let k = choose|k: int| 0 <= k < s.len() && (#[trigger] s[k]).holds(v);
            if k >= at {
                assert(r[k + 1].holds(v));
            }
        }
    }
}

/// Taking the range from `from` to `to` out of a coalesced list, where the
/// range starts in the gap before the interval at `first` and ends in the gap
/// before the interval at `end`: what is left is the list without the
/// intervals in between. Nothing is claimed of its length: it may be empty.
pub proof fn lemma_without<T: QueueValue>(
    s: Seq<QueueIndexRange<T>>,
    first: int,
    end: int,
    from: int,
    to: int,
)
    requires
        coalesced(s),
        0 <= first <= end <= s.len(),
        first > 0 ==> s[first - 1].hi() < from,
        first < end ==> from <= s[first].lo(),
        first < end ==> s[end - 1].hi() <= to,
        end < s.len() ==> to < s[end].lo(),
    ensures
        populated(without(s, first, end)),
        spaced(without(s, first, end)),
        members(without(s, first, end)) == members(s).difference(span(from, to)),
{
    let r = without(s, first, end);
    let shift = end - first;
    assert(forall|k: int| 0 <= k < first ==> r[k] == s[k]);
    assert forall|v: int| list_holds(r, v) <==> (list_holds(s, v) && !(from <= v <= to)) by {
        if list_holds(r, v) {
            let k = choose|k: int| 0 <= k < r.len() && (#[trigger] r[k]).holds(v);
        }
        if list_holds(s, v) && !(from <= v <= to) {
            let k = choose|k: int| 0 <= k < s.len() && (#[trigger] s[k]).holds(v);
            if k >= end {
                assert(r[k - shift].holds(v));
            }
        }
    }
}

/// Replacing the interval at index `at` of a coalesced list by a non-empty
/// part `x` of it, where the range from `from` to `to` covers what `x` leaves
/// out and meets no other interval, takes that range out of the list.
pub proof fn lemma_narrowed<T: QueueValue>(
    s: Seq<QueueIndexRange<T>>,
    at: int,
    x: QueueIndexRange<T>,
    from: int,
    to: int,
)
    requires
        coalesced(s),
        0 <= at < s.len(),
        !x.vacant(),
        s[at].lo() <= x.lo(),
        x.hi() <= s[at].hi(),
        forall|v: int| s[at].holds(v) ==> (x.holds(v) <==> !(from <= v <= to)),
        at > 0 ==> s[at - 1].hi() < from,
        at + 1 < s.len() ==> to < s[at + 1].lo(),
    ensures
        coalesced(s.update(at, x)),
        members(s.update(at, x)) == members(s).difference(span(from, to)),
{
    let r = s.update(at, x);
    assert forall|v: int| list_holds(r, v) <==> (list_holds(s, v) && !(from <= v <= to)) by {
        if list_holds(r, v) {
            let k = choose|k: int| 0 <= k < r.len() && (#[trigger] r[k]).holds(v);
        }
        if list_holds(s, v) && !(from <= v <= to) {
            let k = choose|k: int| 0 <= k < s.len() && (#[trigger] s[k]).holds(v);
            assert(r[k].holds(v));
        }
    }
}

/// Taking a range from strictly inside the interval at index `at` of a
/// coalesced list leaves two intervals in its place: `left`, the part below
/// the range, and `right`, the part above it.
pub proof fn lemma_split<T: QueueValue>(
    s: Seq<QueueIndexRange<T>>,
    at: int,
    left: QueueIndexRange<T>,
    right: QueueIndexRange<T>,
    from: int,
    to: int,
)
    requires
        coalesced(s),
        0 <= at < s.len(),
        s[at].lo() < from <= to < s[at].hi(),
        left.lo() == s[at].lo(),
        left.hi() == from - 1,
        right.lo() == to + 1,
        right.hi() == s[at].hi(),
    ensures
        coalesced(s.update(at, left).insert(at + 1, right)),
        members(s.update(at, left).insert(at + 1, right)) == members(s).difference(
            span(from, to),
        ),
{
    lemma_narrowed(s, at, left, from, s[at].hi());
    lemma_inserted(s.update(at, left), at + 1, right);
}

/// In a well-formed list the first interval starts at the smallest value
/// and the last one ends at the largest.
pub proof fn lemma_ends<T: QueueValue>(s: Seq<QueueIndexRange<T>>)
    requires
        well_formed(s),
    ensures
        forall|v: int| list_holds(s, v) ==> s[0].lo() <= v <= s.last().hi(),
{
}

/// The sum of the sizes is the size of the first interval and the sum of the
/// sizes of the others.
pub proof fn lemma_total_first<T: QueueValue>(s: Seq<QueueIndexRange<T>>)
    requires
        s.len() > 0,
    ensures
        total(s) == s[0].count() + total(s.subrange(1, s.len() as int)),
    decreases s.len(),
{
    let rest = s.subrange(1, s.len() as int);
    if s.len() == 1 {
        assert(s.drop_last() =~= rest);
    } else {
        lemma_total_first(s.drop_last());
        assert(rest.drop_last() =~= s.drop_last().subrange(1, s.len() - 1));
    }
}

/// The sizes of the first `n` intervals add up to no more than those of all.
pub proof fn lemma_total_grows<T: QueueValue>(s: Seq<QueueIndexRange<T>>, n: int)
    requires
        0 <= n <= s.len(),
    ensures
        total(s.subrange(0, n)) <= total(s),
    decreases s.len() - n,
{
    if n < s.len() {
        lemma_total_grows(s, n + 1);
        assert(s.subrange(0, n + 1).drop_last() =~= s.subrange(0, n));
    } else {
        assert(s.subrange(0, n) =~= s);
    }
}

/// The starts of the intervals ascend; equal starts may follow each other.
pub open spec fn ascending<T: QueueValue>(s: Seq<QueueIndexRange<T>>) -> bool {
    forall|i: int, j: int| 0 <= i < j < s.len() ==> (#[trigger] s[i]).lo() <= (#[trigger] s[j]).lo()
}

/// The test whether an interval starts at `start`.
pub open spec fn starts_at<T: QueueValue>(start: int) -> spec_fn(QueueIndexRange<T>) -> bool {
    |x: QueueIndexRange<T>| x.lo() == start
}

/// The intervals of the list that start at `start`, in their order.
pub open spec fn starting_at<T: QueueValue>(s: Seq<QueueIndexRange<T>>, start: int) -> Seq<
    QueueIndexRange<T>,
> {
    s.filter(starts_at(start))
}

/// `r` is `s` sorted by the starts of the intervals, where intervals with
/// the same start keep the order that they have in `s`.
pub open spec fn sorted_from<T: QueueValue>(
    r: Seq<QueueIndexRange<T>>,
    s: Seq<QueueIndexRange<T>>,
) -> bool {
    &&& ascending(r)
    &&& forall|start: int| #[trigger] starting_at(r, start) == starting_at(s, start)
}

/// Sorting a list whose starts ascend already changes nothing.
pub proof fn lemma_sorted_already<T: QueueValue>(
    r: Seq<QueueIndexRange<T>>,
    s: Seq<QueueIndexRange<T>>,
)
    requires
        ascending(s),
        sorted_from(r, s),
    ensures
        r == s,
    decreases r.len(),
{
    reveal(Seq::filter);
    if r.len() == 0 {
        if s.len() > 0 {
            let n = s.last().lo();
            assert(starting_at(r, n) == starting_at(s, n));
        }
    } else {
        let x = r.last();
        let m = x.lo();
        assert(starting_at(r, m) == starting_at(r.drop_last(), m).push(x));
        let y = s.last();
        let n = y.lo();
        // The last interval of each list occurs in the other, so neither
        // starts above the other.
        assert(n <= m) by {
            assert(starting_at(r, n).last() == y);
            r.lemma_filter_contains_rev(starts_at(n), y);
            let i = choose|i: int| 0 <= i < r.len() && r[i] == y;
        }
        assert(m <= n) by {
            assert(starting_at(s, m).last() == x);
            s.lemma_filter_contains_rev(starts_at(m), x);
            let i = choose|i: int| 0 <= i < s.len() && s[i] == x;
        }
        let shorter = starting_at(r.drop_last(), m);
        assert(shorter.push(x).last() == x);
        assert(shorter.push(x).drop_last() =~= shorter);
        assert forall|start: int| #[trigger]
            starting_at(r.drop_last(), start) == starting_at(s.drop_last(), start) by {
            assert(starting_at(r, start) == starting_at(s, start));
        }
        lemma_sorted_already(r.drop_last(), s.drop_last());
        assert(r =~= r.drop_last().push(x));
    }
}

/// A well-formed list holds no value exactly if it is the placeholder.
pub proof fn lemma_empty_is_placeholder<T: QueueValue>(s: Seq<QueueIndexRange<T>>)
    requires
        well_formed(s),
    ensures
        placeholder(s) <==> members(s) =~= Set::<int>::empty(),
{
    if !placeholder(s) {
        assert(members(s).contains(s[0].lo()));
    }
}

/// A well-formed list has exactly one interval if and only if what it holds
/// is nothing or one unbroken run of values.
pub proof fn lemma_one_interval_is_one_run<T: QueueValue>(s: Seq<QueueIndexRange<T>>)
    requires
        well_formed(s),
    ensures
        s.len() == 1 <==> (members(s) =~= Set::<int>::empty() || exists|lo: int, hi: int|
            lo <= hi && #[trigger] span(lo, hi) =~= members(s)),
{
    if s.len() == 1 {
        if !s[0].vacant() {
            assert(span(s[0].lo(), s[0].hi()) =~= members(s));
        }
    } else {
        lemma_empty_is_placeholder(s);
        if exists|lo: int, hi: int| lo <= hi && #[trigger] span(lo, hi) =~= members(s) {
            let (lo, hi) = choose|lo: int, hi: int|
                lo <= hi && #[trigger] span(lo, hi) =~= members(s);
            let gap = s[0].hi() + 1;
            assert(members(s).contains(s[0].hi()));
            assert(members(s).contains(s[1].lo()));
            assert(span(lo, hi).contains(gap));
            let k = choose|k: int| 0 <= k < s.len() && (#[trigger] s[k]).holds(gap);
        }
    }
}

} // verus!
