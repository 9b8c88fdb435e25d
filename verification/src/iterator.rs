use crate::interval_list::{placeholder, total};
use crate::queue_index_range::QueueIndexRange;
use crate::queue_value::QueueValue;
use crate::queue_with_intervals::QueueWithIntervals;
use vstd::prelude::*;

verus! {

/// Yields the values of a queue in ascending order, taking them out of a
/// queue of its own.
pub struct QueueWithIntervalsIterator<T: QueueValue> {
    intervals: QueueWithIntervals<T>,
}

impl<T: QueueValue> QueueWithIntervalsIterator<T> {
    /// The queue of the values that are still to come.
    pub closed spec fn queue(self) -> QueueWithIntervals<T> {
        self.intervals
    }

    /// An iterator that yields what `intervals` holds.
    pub fn new(intervals: QueueWithIntervals<T>) -> (r: Self)
        ensures
            r.queue() == intervals,
    {
        Self { intervals }
    }

    /// The next value: what `dequeue` takes out of the queue of the values
    /// that are still to come.
    pub fn next(&mut self) -> (r: Option<T>)
        requires
            old(self).queue().intervals@.len() > 0,
        ensures
            old(self).queue().intervals@[0].vacant() ==>
                r.is_none() && final(self).queue().intervals@ == old(self).queue().intervals@,
            !old(self).queue().intervals@[0].vacant() ==> r == Some(
                old(self).queue().intervals@[0].from_id,
            ) && final(self).queue().advanced(old(self).queue()),
            old(self).queue().wf() ==> final(self).queue().wf(),
            old(self).queue().wf() && r.is_some() ==> final(self).queue().lost(
                old(self).queue(),
                old(self).queue().intervals@[0].lo(),
                old(self).queue().intervals@[0].lo(),
            ) && total(final(self).queue().intervals@) == total(old(self).queue().intervals@) - 1,
    {
        self.intervals.dequeue()
    }

    /// All values that are still to come, in ascending order: what calling
    /// `next` until it returns `None` yields.
    pub fn collect(self) -> (r: Vec<T>)
        requires
            self.queue().wf(),
        ensures
            r@.len() == total(self.queue().intervals@),
            forall|i: int, j: int| 0 <= i < j < r@.len() ==> r@[i].as_int() < r@[j].as_int(),
            forall|k: int| 0 <= k < r@.len() ==> self.queue().has(#[trigger] r@[k].as_int()),
            forall|v: int|
                self.queue().has(v) ==> exists|k: int|
                    0 <= k < r@.len() && #[trigger] r@[k].as_int() == v,
    {
        let mut rest = self;
        let mut values: Vec<T> = Vec::new();
        loop
            invariant
                self.queue().wf(),
                rest.queue().wf(),
                values@.len() + total(rest.queue().intervals@) == total(self.queue().intervals@),
                forall|i: int, j: int|
                    0 <= i < j < values@.len() ==> values@[i].as_int() < values@[j].as_int(),
                forall|k: int|
                    0 <= k < values@.len() ==> self.queue().has(#[trigger] values@[k].as_int())
                        && !rest.queue().has(values@[k].as_int()),
                forall|v: int| rest.queue().has(v) ==> self.queue().has(v),
                forall|k: int, v: int|
                    #![trigger values@[k], rest.queue().has(v)]
                    0 <= k < values@.len() && rest.queue().has(v) ==> values@[k].as_int() < v,
                forall|v: int|
                    self.queue().has(v) ==> rest.queue().has(v) || exists|k: int|
                        0 <= k < values@.len() && #[trigger] values@[k].as_int() == v,
            ensures
                placeholder(rest.queue().intervals@),
            decreases total(rest.queue().intervals@),
        {
            let ghost before = rest.queue();
            let ghost listed = values@;
            match rest.next() {
                Some(value) => {
                    values.push(value);
                    proof {
                        assert(before.has(before.intervals@[0].lo()));
                        assert forall|v: int| self.queue().has(v) implies rest.queue().has(v)
                            || exists|k: int|
                            0 <= k < values@.len() && #[trigger] values@[k].as_int() == v by {
                            if self.queue().has(v) && !rest.queue().has(v) {
                                if before.has(v) {
                                    assert(values@[listed.len() as int].as_int() == v);
                                } else {
                                    let k = choose|k: int|
                                        0 <= k < listed.len() && #[trigger] listed[k].as_int()
                                            == v;
                                    assert(values@[k].as_int() == v);
                                }
                            }
                        }
                    }
                },
                None => {
                    break ;
                },
            }
        }
        assert(total(rest.queue().intervals@.drop_last()) == 0);
        values
    }
}

/// Yields the values of an interval in ascending order.
pub struct QueueIndexRangeIterator<T: QueueValue> {
    from_id: T,
    to_id: T,
}

impl<T: QueueValue> QueueIndexRangeIterator<T> {
    /// The interval of the values that are still to come.
    pub closed spec fn rest(self) -> QueueIndexRange<T> {
        QueueIndexRange { from_id: self.from_id, to_id: self.to_id }
    }

    /// An iterator that yields what `range` holds.
    pub fn new(range: &QueueIndexRange<T>) -> (r: Self)
        ensures
            r.rest() == *range,
    {
        Self { from_id: range.from_id, to_id: range.to_id }
    }

    /// The next value: the smallest that is still to come.
    pub fn next(&mut self) -> (r: Option<T>)
        ensures
            old(self).rest().vacant() ==> r.is_none() && final(self).rest() == old(self).rest(),
            !old(self).rest().vacant() ==> r == Some(old(self).rest().from_id),
            !old(self).rest().vacant() && old(self).rest().lo() < T::highest() ==>
                final(self).rest().lo() == old(self).rest().lo() + 1
                && final(self).rest().to_id == old(self).rest().to_id,
            !old(self).rest().vacant() && old(self).rest().lo() == T::highest() ==>
                final(self).rest().emptied_at(old(self).rest().hi()),
    {
        let mut rest = QueueIndexRange { from_id: self.from_id, to_id: self.to_id };
        let result = rest.dequeue();
        self.from_id = rest.from_id;
        self.to_id = rest.to_id;
        result
    }

    /// All values that are still to come, in ascending order: what calling
    /// `next` until it returns `None` yields.
    pub fn collect(self) -> (r: Vec<T>)
        ensures
            r@.len() == self.rest().count(),
            forall|k: int| 0 <= k < r@.len() ==> #[trigger] r@[k].as_int() == self.rest().lo() + k,
    {
        let mut rest = self;
        let mut values: Vec<T> = Vec::new();
        loop
            invariant
                values@.len() + rest.rest().count() == self.rest().count(),
                !rest.rest().vacant() ==> rest.rest().lo() == self.rest().lo() + values@.len()
                    && rest.rest().hi() == self.rest().hi(),
                forall|k: int|
                    0 <= k < values@.len() ==> #[trigger] values@[k].as_int() == self.rest().lo()
                        + k,
            ensures
                rest.rest().vacant(),
            decreases rest.rest().count(),
        {
            proof {
                T::order_laws();
            }
            match rest.next() {
                Some(value) => {
                    values.push(value);
                },
                None => {
                    break ;
                },
            }
        }
        values
    }
}

} // verus!
