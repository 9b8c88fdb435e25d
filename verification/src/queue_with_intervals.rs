use crate::index_to_insert_value::IndexToInsertValue;
use crate::index_to_remove_value::IndexToRemoveValue;
use crate::interval_list::{
    lemma_empty_is_placeholder, lemma_inserted, lemma_narrowed, lemma_replaced, lemma_split,
    lemma_total_first, lemma_total_grows, lemma_without, list_holds, members, placeholder,
    replaced, sorted_from, span, total, well_formed, without,
};
use crate::iterator::QueueWithIntervalsIterator;
use crate::queue_index_range::QueueIndexRange;
use crate::queue_value::QueueValue;
use vstd::pervasive::unreached;
use vstd::prelude::*;

verus! {

/// Why a value could not be taken out of a queue, or put into it.
#[derive(Debug)]
pub enum QueueWithIntervalsError {
    /// The queue does not hold the value.
    MessagesNotFound,
    /// The queue holds nothing.
    QueueIsEmpty,
    /// The queue holds the value already.
    MessageExists,
}

impl Clone for QueueWithIntervalsError {
    fn clone(&self) -> (r: Self)
        ensures
            r == *self,
    {
        match self {
            QueueWithIntervalsError::MessagesNotFound => QueueWithIntervalsError::MessagesNotFound,
            QueueWithIntervalsError::QueueIsEmpty => QueueWithIntervalsError::QueueIsEmpty,
            QueueWithIntervalsError::MessageExists => QueueWithIntervalsError::MessageExists,
        }
    }
}

/// A set of values, kept as a sorted list of intervals of which no two
/// overlap or touch. The list is never empty: the empty set is one empty
/// interval, whose upper bound remembers the last value that left the set.
#[derive(Debug)]
pub struct QueueWithIntervals<T: QueueValue = i64> {
    pub intervals: Vec<QueueIndexRange<T>>,
}

impl<T: QueueValue> Default for QueueWithIntervals<T> {
    fn default() -> (r: Self)
        ensures
            r.intervals@.len() == 1,
            r.intervals@[0].anchored_at(0),
            r.wf(),
    {
        Self::new()
    }
}

impl<T: QueueValue> Clone for QueueWithIntervals<T> {
    fn clone(&self) -> (r: Self)
        ensures
            r.intervals@ == self.intervals@,
    {
        let mut intervals: Vec<QueueIndexRange<T>> = Vec::new();
        let mut index: usize = 0;
        while index < self.intervals.len()
            invariant
                index <= self.intervals.len(),
                intervals@ == self.intervals@.subrange(0, index as int),
            decreases self.intervals.len() - index,
        {
            intervals.push(self.intervals[index].clone());
            index += 1;
        }
        Self { intervals }
    }
}

impl<T: QueueValue> QueueWithIntervals<T> {
    /// The list of intervals is the placeholder or is coalesced.
    pub open spec fn wf(self) -> bool {
        well_formed(self.intervals@)
    }

    /// The integers of the values in the queue.
    pub open spec fn members(self) -> Set<int> {
        members(self.intervals@)
    }

    /// The queue holds the integer `v`.
    pub open spec fn has(self, v: int) -> bool {
        self.members().contains(v)
    }

    /// The queue is well formed and holds what `before` held but for the
    /// integers from `from` to `to`. If that took the last values of `before`,
    /// the queue is the placeholder that remembers the highest of them.
    pub open spec fn lost(self, before: Self, from: int, to: int) -> bool {
        &&& self.wf()
        &&& self.members() == before.members().difference(span(from, to))
        &&& placeholder(self.intervals@) && !placeholder(before.intervals@)
            ==> self.intervals@[0].emptied_at(before.intervals@.last().hi())
    }

    /// Unless the queue became the placeholder, its first `n` intervals are
    /// those of `before`.
    pub open spec fn kept_below(self, before: Self, n: int) -> bool {
        n > 0 ==> {
            &&& self.intervals@.len() >= n
            &&& forall|k: int| 0 <= k < n ==> self.intervals@[k] == before.intervals@[k]
        }
    }

    /// What `get_snapshot` gives: the intervals of the queue, or none if the
    /// queue is empty.
    pub open spec fn snapshot(self) -> Seq<QueueIndexRange<T>> {
        if placeholder(self.intervals@) {
            Seq::<QueueIndexRange<T>>::empty()
        } else {
            self.intervals@
        }
    }

    /// What `restore` makes of `intervals`: the empty queue if there are
    /// none, else the intervals sorted by their starts, those with the same
    /// start in the order in which they were given.
    pub open spec fn restored_from(self, intervals: Seq<QueueIndexRange<T>>) -> bool {
        if intervals.len() == 0 {
            &&& self.intervals@.len() == 1
            &&& self.intervals@[0].anchored_at(0)
        } else {
            sorted_from(self.intervals@, intervals)
        }
    }

    /// The empty queue, with its placeholder at zero.
    pub fn new() -> (r: QueueWithIntervals<T>)
        ensures
            r.intervals@.len() == 1,
            r.intervals@[0].anchored_at(0),
            r.wf(),
    {
        Self { intervals: vec![QueueIndexRange::new_empty(T::zero())] }
    }

    /// The interval at `index`, if there is one.
    pub fn get_interval(&self, index: usize) -> (r: Option<&QueueIndexRange<T>>)
        ensures
            index < self.intervals@.len() ==> r == Some(&self.intervals@[index as int]),
            index >= self.intervals@.len() ==> r.is_none(),
    {
        if index < self.intervals.len() {
            Some(&self.intervals[index])
        } else {
            None
        }
    }

    /// All intervals of the queue, in ascending order.
    pub fn get_intervals(&self) -> (r: &[QueueIndexRange<T>])
        ensures
            r@ == self.intervals@,
    {
        self.intervals.as_slice()
    }

    /// A queue of the one interval from `from_id` to `to_id`.
    pub fn from_single_interval(from_id: T, to_id: T) -> (r: Self)
        ensures
            r.intervals@ == seq![QueueIndexRange { from_id, to_id }],
            r.wf(),
    {
        Self { intervals: vec![QueueIndexRange { from_id, to_id }] }
    }

    /// Empties the queue. What is left is the placeholder, which keeps the
    /// upper bound of the last interval.
    pub fn clean(&mut self)
        requires
            old(self).intervals@.len() > 0,
        ensures
            final(self).intervals@.len() == 1,
            final(self).intervals@[0].emptied_at(old(self).intervals@.last().hi()),
            old(self).intervals@.last().hi() < T::highest() ==> final(self).intervals@[0].to_id
                == old(self).intervals@.last().to_id,
            final(self).wf(),
    {
        let to_id = self.intervals[self.intervals.len() - 1].to_id;

        self.intervals.truncate(1);
        self.intervals[0].to_id = to_id;
        self.intervals[0].make_empty();
    }

    /// Whether the queue holds no value: its list is the placeholder.
    pub fn is_empty(&self) -> (r: bool)
        ensures
            r == placeholder(self.intervals@),
    {
        if self.intervals.len() == 1 {
            return self.intervals[0].is_empty();
        }
        false
    }

    /// Removes the interval at `index`. The last interval of the list is not
    /// removed but emptied.
    pub(crate) fn remove_interval(&mut self, index: usize)
        requires
            index < old(self).intervals@.len(),
        ensures
            old(self).intervals@.len() > 1 ==>
                final(self).intervals@ == old(self).intervals@.remove(index as int),
            old(self).intervals@.len() == 1 && old(self).intervals@[0].vacant() ==>
                final(self).intervals@ == old(self).intervals@,
            old(self).intervals@.len() == 1 && !old(self).intervals@[0].vacant() ==>
                final(self).intervals@.len() == 1 && final(self).intervals@[0].emptied_at(
                old(self).intervals@[0].hi(),
            ),
    {
        if self.intervals.len() > 1 {
            self.intervals.remove(index);
            return ;
        }
        if !self.intervals[0].is_empty() {
            self.intervals[0].make_empty()
        }
    }

    /// Whether the queue holds `id`.
    pub fn has_message(&self, id: T) -> (r: bool)
        ensures
            r == self.has(id.as_int()),
    {
        let mut index: usize = 0;
        while index < self.intervals.len()
            invariant
                index <= self.intervals.len(),
                forall|j: int| 0 <= j < index ==>
                    !(#[trigger] self.intervals@[j]).holds(id.as_int()),
            decreases self.intervals.len() - index,
        {
            if self.intervals[index].is_in_my_interval(id) {
                return true;
            }
            index += 1;
        }
        false
    }

    /// Puts all values of `other` into the queue.
    pub fn merge(&mut self, other: Self)
        requires
            old(self).wf(),
        ensures
            final(self).wf(),
            final(self).members() == old(self).members().union(other.members()),
            other.members() =~= Set::<int>::empty() ==>
                final(self).intervals@ == old(self).intervals@,
    {
        let mut index = other.intervals.len();
        assert(other.intervals@.subrange(index as int, other.intervals@.len() as int) =~= Seq::<
            QueueIndexRange<T>,
        >::empty());
        assert(self.members() =~= old(self).members().union(
            members(other.intervals@.subrange(index as int, other.intervals@.len() as int)),
        ));
        while index > 0
            invariant
                index <= other.intervals.len(),
                self.wf(),
                self.members() == old(self).members().union(
                    members(other.intervals@.subrange(index as int, other.intervals@.len() as int)),
                ),
                members(other.intervals@.subrange(index as int, other.intervals@.len() as int))
                    =~= Set::<int>::empty() ==> self.intervals@ == old(self).intervals@,
            decreases index,
        {
            index -= 1;
            let other_interval = other.intervals[index].clone();
            self.enqueue_range(other_interval);
            proof {
                let rest = other.intervals@.subrange(index + 1, other.intervals@.len() as int);
                let now = other.intervals@.subrange(index as int, other.intervals@.len() as int);
                assert forall|v: int| list_holds(now, v) <==> (list_holds(rest, v)
                    || other_interval.holds(v)) by {
                    if list_holds(now, v) {
                        let k = choose|k: int| 0 <= k < now.len() && (#[trigger] now[k]).holds(v);
                        if k > 0 {
                            assert(rest[k - 1].holds(v));
                        }
                    }
                    if list_holds(rest, v) {
                        let k = choose|k: int| 0 <= k < rest.len() && (#[trigger] rest[k]).holds(v);
                        assert(now[k + 1].holds(v));
                    }
                    if other_interval.holds(v) {
                        assert(now[0].holds(v));
                    }
                }
                assert(members(now) =~= members(rest).union(
                    span(other_interval.lo(), other_interval.hi()),
                ));
                if members(now) =~= Set::<int>::empty() {
                    assert(members(rest) =~= Set::<int>::empty());
                    assert(!members(now).contains(other_interval.lo()));
                }
            }
        }
        assert(other.intervals@.subrange(0, other.intervals@.len() as int) =~= other.intervals@);
    }

    /// A queue of the given intervals, in the order of their starts.
    /// Intervals that start at the same value stay in the order in which they
    /// were given. Nothing is checked: whether the queue is well formed is up
    /// to the caller. Without intervals the queue is the empty one.
    pub fn restore(intervals: Vec<QueueIndexRange<T>>) -> (r: Self)
        ensures
            r.restored_from(intervals@),
    {
        let mut intervals = intervals;
        if intervals.len() == 0 {
            return Self { intervals: vec![QueueIndexRange::new_empty(T::zero())] };
        }
        sort_by_from_id(&mut intervals);
        Self { intervals }
    }

    /// Replaces what the queue holds by the given intervals, in the order of
    /// their starts, as `restore` does. Without intervals the queue is cleaned.
    pub fn reset(&mut self, intervals: Vec<QueueIndexRange<T>>)
        requires
            old(self).intervals@.len() > 0,
        ensures
            intervals@.len() == 0 ==>
                final(self).intervals@.len() == 1
                && final(self).intervals@[0].emptied_at(old(self).intervals@.last().hi()),
            intervals@.len() > 0 ==> sorted_from(final(self).intervals@, intervals@),
    {
        let mut intervals = intervals;
        if intervals.len() == 0 {
            self.clean();
            return ;
        }
        sort_by_from_id(&mut intervals);
        self.intervals = intervals;
    }

    /// Takes `value` out of the queue.
    pub fn remove(&mut self, value: T) -> (r: Result<(), QueueWithIntervalsError>)
        requires
            old(self).wf(),
        ensures
            placeholder(old(self).intervals@) ==> r matches Err(
                QueueWithIntervalsError::QueueIsEmpty,
            ),
            !placeholder(old(self).intervals@) && !old(self).has(value.as_int()) ==> r matches Err(
                QueueWithIntervalsError::MessagesNotFound,
            ),
            old(self).has(value.as_int()) ==> r is Ok,
            r is Err ==> final(self).intervals@ == old(self).intervals@,
            r is Ok ==> final(self).lost(*old(self), value.as_int(), value.as_int()),
            r is Ok ==> (placeholder(final(self).intervals@) <==> old(self).members() =~= set![
                value.as_int(),
            ]),
    {
        if self.is_empty() {
            return Err(QueueWithIntervalsError::QueueIsEmpty);
        }
        let index = IndexToRemoveValue::new(&self.intervals, value);
        let ghost s = self.intervals@;
        let ghost v = value.as_int();

        match index {
            IndexToRemoveValue::IncLeft(index) => {
                proof {
                    T::order_laws();
                }
                match self.intervals[index].from_id.checked_add_one() {
                    Some(next) => {
                        self.intervals[index].from_id = next;
                    },
                    None => unreached(),
                }
                proof {
                    lemma_narrowed(s, index as int, self.intervals@[index as int], v, v);
                }
            },
            IndexToRemoveValue::DecRight(index) => {
                proof {
                    T::order_laws();
                }
                match self.intervals[index].to_id.checked_sub_one() {
                    Some(prev) => {
                        self.intervals[index].to_id = prev;
                    },
                    None => unreached(),
                }
                proof {
                    lemma_narrowed(s, index as int, self.intervals@[index as int], v, v);
                }
            },
            IndexToRemoveValue::Split { index, left, right } => {
                proof {
                    lemma_split(s, index as int, left, right, v, v);
                    assert(s.len() == self.intervals.len());
                }
                self.intervals.insert(index + 1, right);
                self.intervals[index].from_id = left.from_id;
                self.intervals[index].to_id = left.to_id;
                assert(self.intervals@ =~= s.update(index as int, left).insert(index + 1, right));
            },
            IndexToRemoveValue::Remove(index) => {
                proof {
                    lemma_without(s, index as int, index + 1, v, v);
                }
                self.remove_interval(index);
                proof {
                    if s.len() == 1 {
                        assert(without(s, 0, 1) =~= Seq::<QueueIndexRange<T>>::empty());
                        assert(self.members() =~= old(self).members().difference(span(v, v)));
                    }
                }
            },
            IndexToRemoveValue::NoValue => return Err(QueueWithIntervalsError::MessagesNotFound),
        }
        proof {
            lemma_empty_is_placeholder(self.intervals@);
        }

        Ok(())
    }

    /// Puts `value` into the queue. Nothing changes if the queue holds it
    /// already.
    pub fn enqueue(&mut self, value: T)
        requires
            old(self).wf(),
        ensures
            final(self).wf(),
            final(self).members() == old(self).members().insert(value.as_int()),
            old(self).has(value.as_int()) ==> final(self).intervals@ == old(self).intervals@,
    {
        let ghost s = self.intervals@;
        let ghost v = value.as_int();
        if self.intervals[0].is_empty() {
            self.intervals[0].from_id = value;
            self.intervals[0].to_id = value;
            return ;
        }

        match IndexToInsertValue::new(&self.intervals, value) {
            IndexToInsertValue::MergeToLeft(index) => {
                self.intervals[index].from_id = value;
                proof {
                    assert(self.intervals@ =~= replaced(
                        s,
                        index as int,
                        index as int,
                        self.intervals@[index as int],
                    ));
                    assert(!s[index as int].vacant());
                    lemma_replaced(
                        s,
                        index as int,
                        index as int,
                        self.intervals@[index as int],
                        v,
                        v,
                    );
                }
            },
            IndexToInsertValue::MergeToRight(index) => {
                self.intervals[index].to_id = value;
                proof {
                    assert(self.intervals@ =~= replaced(
                        s,
                        index as int,
                        index as int,
                        self.intervals@[index as int],
                    ));
                    assert(index > 0 ==> s[index - 1].hi() + 1 < s[index as int].lo());
                    lemma_replaced(
                        s,
                        index as int,
                        index as int,
                        self.intervals@[index as int],
                        v,
                        v,
                    );
                }
            },
            IndexToInsertValue::InsertAsNewInterval(index) => {
                let single = QueueIndexRange { from_id: value, to_id: value };
                proof {
                    lemma_inserted(s, index as int, single);
                }
                self.intervals.insert(index, single);
            },
            IndexToInsertValue::MergeTwoIntervals(index) => {
                proof {
                    assert(s.len() == self.intervals.len());
                }
                let right = self.intervals.remove(index + 1);
                self.intervals[index].to_id = right.to_id;
                proof {
                    assert(self.intervals@ =~= replaced(
                        s,
                        index as int,
                        index + 1,
                        self.intervals@[index as int],
                    ));
                    lemma_replaced(
                        s,
                        index as int,
                        index + 1,
                        self.intervals@[index as int],
                        v,
                        v,
                    );
                }
            },
            IndexToInsertValue::HasValue => {
            },
        }
    }

    /// What `dequeue` makes of the list `before` when its first interval is
    /// not empty: the first interval loses its lowest value, and leaves the
    /// list if that was its only one. A list of one interval keeps it, emptied.
    pub open spec fn advanced(self, before: Self) -> bool {
        let s = before.intervals@;
        if s[0].lo() < s[0].hi() {
            &&& self.intervals@.len() == s.len()
            &&& self.intervals@[0].lo() == s[0].lo() + 1
            &&& self.intervals@[0].to_id == s[0].to_id
            &&& forall|k: int| 1 <= k < s.len() ==> self.intervals@[k] == s[k]
        } else if s.len() > 1 {
            self.intervals@ == s.subrange(1, s.len() as int)
        } else {
            &&& self.intervals@.len() == 1
            &&& self.intervals@[0].emptied_at(s[0].hi())
        }
    }

    /// Takes the lowest value out of the first interval and returns it, or
    /// returns `None` if the first interval is empty. Of a well-formed queue
    /// this is the smallest value, and `None` says that the queue is empty.
    pub fn dequeue(&mut self) -> (r: Option<T>)
        requires
            old(self).intervals@.len() > 0,
        ensures
            old(self).intervals@[0].vacant() ==>
                r.is_none() && final(self).intervals@ == old(self).intervals@,
            !old(self).intervals@[0].vacant() ==> r == Some(old(self).intervals@[0].from_id)
                && final(self).advanced(*old(self)),
            old(self).wf() ==> final(self).wf(),
            old(self).wf() ==> forall|v: int| old(self).has(v) ==>
                old(self).intervals@[0].lo() <= v,
            old(self).wf() && r.is_some() ==> final(self).lost(
                *old(self),
                old(self).intervals@[0].lo(),
                old(self).intervals@[0].lo(),
            ) && total(final(self).intervals@) == total(old(self).intervals@) - 1,
    {
        let ghost s = self.intervals@;
        proof {
            T::order_laws();
            lemma_total_first(s);
        }
        if self.intervals[0].is_empty() {
            return None;
        }
        let result = self.intervals[0].from_id;
        let ghost v = result.as_int();
        match result.checked_add_one() {
            Some(next) => {
                self.intervals[0].from_id = next;
            },
            None => {
                self.intervals[0].make_empty();
            },
        }
        let is_empty = self.intervals[0].is_empty();
        proof {
            lemma_total_first(self.intervals@);
            assert(self.intervals@.subrange(1, s.len() as int) =~= s.subrange(1, s.len() as int));
            if old(self).wf() {
                if !is_empty {
                    lemma_narrowed(s, 0, self.intervals@[0], v, v);
                } else {
                    lemma_without(s, 0, 1, v, v);
                }
            }
        }
        if is_empty {
            self.remove_interval(0);
            proof {
                if s.len() == 1 {
                    if old(self).wf() {
                        assert(self.members() =~= old(self).members().difference(span(v, v)));
                    }
                }
            }
        }
        Some(result)
    }

    /// The smallest value of the queue, or `None` if the queue is empty.
    pub fn peek(&self) -> (r: Option<T>)
        requires
            self.intervals@.len() > 0,
        ensures
            r == if self.intervals@[0].vacant() {
                None
            } else {
                Some(self.intervals@[0].from_id)
            },
            self.wf() ==> forall|v: int| self.has(v) ==> self.intervals@[0].lo() <= v,
    {
        let result = &self.intervals[0];
        if result.is_empty() {
            return None;
        }
        Some(result.from_id)
    }

    /// The intervals of the queue, copied. An empty queue gives no interval.
    pub fn get_snapshot(&self) -> (r: Vec<QueueIndexRange<T>>)
        ensures
            r@ == self.snapshot(),
    {
        if self.is_empty() {
            return vec![];
        }
        self.clone().intervals
    }

    /// The smallest value of the queue, or `None` if the queue is empty.
    pub fn get_min_id(&self) -> (r: Option<T>)
        requires
            self.intervals@.len() > 0,
        ensures
            r == if self.intervals@[0].vacant() {
                None
            } else {
                Some(self.intervals@[0].from_id)
            },
            self.wf() ==> forall|v: int| self.has(v) ==> self.intervals@[0].lo() <= v,
    {
        let first = &self.intervals[0];
        if first.is_empty() {
            return None;
        }
        Some(first.from_id)
    }

    /// The largest value of the queue, or `None` if the queue is empty.
    pub fn get_max_id(&self) -> (r: Option<T>)
        requires
            self.intervals@.len() > 0,
        ensures
            r == if self.intervals@.last().vacant() {
                None
            } else {
                Some(self.intervals@.last().to_id)
            },
            self.wf() ==> forall|v: int| self.has(v) ==> v <= self.intervals@.last().hi(),
    {
        let last = &self.intervals[self.intervals.len() - 1];
        if last.is_empty() {
            return None;
        }
        Some(last.to_id)
    }

    /// The number of values in the queue.
    pub fn queue_size(&self) -> (r: usize)
        requires
            total(self.intervals@) <= usize::MAX,
        ensures
            r == total(self.intervals@),
    {
        let mut result: usize = 0;
        let mut index: usize = 0;
        while index < self.intervals.len()
            invariant
                index <= self.intervals.len(),
                total(self.intervals@) <= usize::MAX,
                result == total(self.intervals@.subrange(0, index as int)),
            decreases self.intervals.len() - index,
        {
            proof {
                lemma_total_grows(self.intervals@, index + 1);
                assert(self.intervals@.subrange(0, index + 1).drop_last()
                    =~= self.intervals@.subrange(0, index as int));
            }
            result += self.intervals[index].len();
            index += 1;
        }
        assert(self.intervals@.subrange(0, index as int) =~= self.intervals@);
        result
    }

    /// An iterator over a copy of the queue: it yields the values in ascending
    /// order and leaves the queue as it is.
    pub fn iter(&self) -> (r: QueueWithIntervalsIterator<T>)
        ensures
            r.queue().intervals@ == self.intervals@,
    {
        QueueWithIntervalsIterator::new(self.clone())
    }

    /// The same as `iter`.
    pub fn into_iter(&self) -> (r: QueueWithIntervalsIterator<T>)
        ensures
            r.queue().intervals@ == self.intervals@,
    {
        QueueWithIntervalsIterator::new(self.clone())
    }

    /// The number of values in the queue, or `usize::MAX` if there are more
    /// than that.
    pub fn len(&self) -> (r: usize)
        ensures
            r == if total(self.intervals@) <= usize::MAX {
                total(self.intervals@)
            } else {
                usize::MAX as nat
            },
    {
        let mut result: usize = 0;
        let mut index: usize = 0;
        while index < self.intervals.len()
            invariant
                index <= self.intervals.len(),
                result == if total(self.intervals@.subrange(0, index as int)) <= usize::MAX {
                    total(self.intervals@.subrange(0, index as int))
                } else {
                    usize::MAX as nat
                },
            decreases self.intervals.len() - index,
        {
            proof {
                assert(self.intervals@.subrange(0, index + 1).drop_last()
                    =~= self.intervals@.subrange(0, index as int));
            }
            result = result.saturating_add(self.intervals[index].len());
            index += 1;
        }
        assert(self.intervals@.subrange(0, index as int) =~= self.intervals@);
        result
    }
}

/// `slice::sort_by_key` of std, with the start of an interval as the key.
/// Its contract is taken on trust: the sort is in place and stable, so
/// afterwards the starts ascend, and for every start the intervals that begin
/// there are those of before, in their order of before.
#[verifier::external_body]
fn sort_by_from_id<T: QueueValue>(intervals: &mut Vec<QueueIndexRange<T>>)
    ensures
        sorted_from(final(intervals)@, old(intervals)@),
{
    intervals.sort_by_key(|itm| itm.from_id);
}

} // verus!
