use crate::index_range::IndexRange;
use crate::interval_list::{
    coalesced, lemma_empty_is_placeholder, lemma_narrowed, lemma_split, lemma_without, placeholder,
    span, without,
};
use crate::queue_index_range::QueueIndexRange;
use crate::queue_value::QueueValue;
use crate::queue_with_intervals::QueueWithIntervals;
use vstd::pervasive::unreached;
use vstd::prelude::*;

verus! {

/// The edit that taking a range out of the list of intervals comes down to.
pub enum IndexToRemoveRange<T: QueueValue> {
    /// The range meets no interval.
    NothingToDo,
    /// The intervals from `from_index` up to, but not including, `to_index`
    /// are removed.
    RemoveIntervals { from_index: usize, to_index: usize },
    /// The intervals from `start_index_to_remove` up to, but not including,
    /// `index` are removed, and the interval at `index` gets the bounds
    /// `from_id` and `to_id`.
    UpdateInterval { start_index_to_remove: usize, index: usize, from_id: T, to_id: T },
}

impl<T: QueueValue> QueueWithIntervals<T> {
    /// Takes all values of `range_to_remove` out of the queue. Intervals
    /// that the range covers are removed, an interval that it covers in part
    /// is trimmed, and one that it cuts through the middle becomes two.
    pub fn remove_range(&mut self, range_to_remove: &QueueIndexRange<T>)
        requires
            old(self).wf(),
        ensures
            final(self).lost(*old(self), range_to_remove.lo(), range_to_remove.hi()),
            range_to_remove.vacant() || placeholder(old(self).intervals@) ==> final(self).intervals@
                == old(self).intervals@,
            !range_to_remove.vacant() && range_to_remove.lo() <= old(self).intervals@[0].lo()
                && old(self).intervals@.last().hi() <= range_to_remove.hi() ==> placeholder(
                final(self).intervals@,
            ),
    {
        if range_to_remove.is_empty() {
            assert(span(range_to_remove.lo(), range_to_remove.hi()) =~= Set::<int>::empty());
            assert(self.members().difference(Set::<int>::empty()) =~= self.members());
            return ;
        }
        if self.is_empty() {
            assert(self.members().difference(span(range_to_remove.lo(), range_to_remove.hi()))
                =~= self.members());
            return ;
        }
        let (from_index, to_index) = IndexRange::new(&self.intervals, range_to_remove);
        let count = self.intervals.len();
        let ghost from = range_to_remove.lo();
        match from_index {
            IndexRange::Exact(exact_index) => {
                self.left_is_exact(exact_index, to_index, range_to_remove);
            },
            IndexRange::First => self.left_is_between(0, to_index, range_to_remove, Ghost(from)),
            IndexRange::Last => self.left_is_between(
                count,
                to_index,
                range_to_remove,
                Ghost(from),
            ),
            IndexRange::Between { left_index: _, right_index } => self.left_is_between(
                right_index,
                to_index,
                range_to_remove,
                Ghost(from),
            ),
            IndexRange::JoinToIndexFrom(from_index) => self.left_is_between(
                from_index,
                to_index,
                range_to_remove,
                Ghost(from),
            ),
            IndexRange::JoinToIndexTo(from_index) => self.left_is_between(
                from_index + 1,
                to_index,
                range_to_remove,
                Ghost(from),
            ),
            IndexRange::MergeIntervals(from_index) => self.left_is_between(
                from_index + 1,
                to_index,
                range_to_remove,
                Ghost(from),
            ),
        }
        proof {
            lemma_empty_is_placeholder(self.intervals@);
        }
    }

    /// Takes out of the intervals from `from_index` on all values up to the
    /// end of the range. `from` is where the cut starts: a value in the gap
    /// before the interval at `from_index`, or the start of that interval.
    fn left_is_between(
        &mut self,
        from_index: usize,
        to_index: IndexRange,
        range_to_remove: &QueueIndexRange<T>,
        Ghost(from): Ghost<int>,
    )
        requires
            coalesced(old(self).intervals@),
            from_index <= old(self).intervals@.len(),
            from <= range_to_remove.hi(),
            from_index > 0 ==> old(self).intervals@[from_index - 1].hi() < from,
            from_index < old(self).intervals@.len() ==>
                from <= old(self).intervals@[from_index as int].lo(),
            to_index.marks(old(self).intervals@, range_to_remove.hi()),
        ensures
            final(self).lost(*old(self), from, range_to_remove.hi()),
            final(self).kept_below(*old(self), from_index as int),
    {
        let count = self.intervals.len();
        match to_index {
            IndexRange::Exact(index) => {
                self.remove_and_update(from_index, index, range_to_remove, Ghost(from));
            },
            IndexRange::JoinToIndexFrom(index) => {
                self.remove_intervals(from_index, index, Ghost(from), Ghost(range_to_remove.hi()));
            },
            IndexRange::JoinToIndexTo(index) => {
                self.remove_intervals(
                    from_index,
                    index + 1,
                    Ghost(from),
                    Ghost(range_to_remove.hi()),
                );
            },
            IndexRange::First => {
                self.remove_intervals(0, 0, Ghost(from), Ghost(range_to_remove.hi()));
            },
            IndexRange::Last => {
                self.remove_intervals(from_index, count, Ghost(from), Ghost(range_to_remove.hi()));
            },
            IndexRange::Between { left_index: _, right_index } => {
                self.remove_intervals(
                    from_index,
                    right_index,
                    Ghost(from),
                    Ghost(range_to_remove.hi()),
                );
            },
            IndexRange::MergeIntervals(index) => {
                self.remove_intervals(
                    from_index,
                    index + 1,
                    Ghost(from),
                    Ghost(range_to_remove.hi()),
                );
            },
        }
    }

    /// The range starts inside the interval at `from_index`.
    fn left_is_exact(
        &mut self,
        from_index: usize,
        to_index: IndexRange,
        range_to_remove: &QueueIndexRange<T>,
    )
        requires
            coalesced(old(self).intervals@),
            !range_to_remove.vacant(),
            IndexRange::Exact(from_index).marks(old(self).intervals@, range_to_remove.lo()),
            to_index.marks(old(self).intervals@, range_to_remove.hi()),
        ensures
            final(self).lost(*old(self), range_to_remove.lo(), range_to_remove.hi()),
    {
        proof {
            T::order_laws();
            assert(self.intervals@.len() == self.intervals.len());
        }
        if range_to_remove.from_id <= self.intervals[from_index].from_id {
            // Nothing of the interval lies below the range.
            self.left_is_between(
                from_index,
                to_index,
                range_to_remove,
                Ghost(range_to_remove.lo()),
            );
            return ;
        }
        let from_minus_one = match range_to_remove.from_id.checked_sub_one() {
            Some(from_minus_one) => from_minus_one,
            None => unreached(),
        };
        let ghost before = self.intervals@;
        let ghost first = self.intervals@[from_index as int];
        match to_index {
            IndexRange::Exact(to_index) => {
                if to_index == from_index {
                    if range_to_remove.to_id >= self.intervals[from_index].to_id {
                        self.intervals[from_index].to_id = from_minus_one;
                        proof {
                            lemma_narrowed(
                                before,
                                from_index as int,
                                self.intervals@[from_index as int],
                                range_to_remove.lo(),
                                range_to_remove.hi(),
                            );
                        }
                    } else {
                        let to_plus_one = match range_to_remove.to_id.checked_add_one() {
                            Some(to_plus_one) => to_plus_one,
                            None => unreached(),
                        };
                        let right = QueueIndexRange {
                            from_id: to_plus_one,
                            to_id: self.intervals[from_index].to_id,
                        };
                        self.intervals[from_index].to_id = from_minus_one;
                        proof {
                            lemma_split(
                                before,
                                from_index as int,
                                self.intervals@[from_index as int],
                                right,
                                range_to_remove.lo(),
                                range_to_remove.hi(),
                            );
                        }
                        self.intervals.insert(from_index + 1, right);
                    }
                    return ;
                }
            },
            IndexRange::First => unreached(),
            IndexRange::Last => {},
            IndexRange::Between { left_index: _, right_index: _ } => {},
            IndexRange::JoinToIndexFrom(_) => {},
            IndexRange::JoinToIndexTo(_) => {},
            IndexRange::MergeIntervals(_) => {},
        }
        // The range reaches beyond the interval: first what lies above the
        // interval goes, then its upper part.
        self.left_is_between(
            from_index + 1,
            to_index,
            range_to_remove,
            Ghost(first.hi() + 1),
        );
        let ghost above = self.intervals@;
        self.intervals[from_index].to_id = from_minus_one;
        proof {
            lemma_narrowed(
                above,
                from_index as int,
                self.intervals@[from_index as int],
                range_to_remove.lo(),
                first.hi(),
            );
            assert(self.members() =~= old(self).members().difference(
                span(range_to_remove.lo(), range_to_remove.hi()),
            ));
        }
    }

    /// The range ends inside the interval at `to_index`: that interval
    /// keeps what lies above the range, and the intervals from `from_index`
    /// up to it are removed.
    fn remove_and_update(
        &mut self,
        from_index: usize,
        to_index: usize,
        range_to_remove: &QueueIndexRange<T>,
        Ghost(from): Ghost<int>,
    )
        requires
            coalesced(old(self).intervals@),
            from_index <= to_index < old(self).intervals@.len(),
            from_index > 0 ==> old(self).intervals@[from_index - 1].hi() < from,
            from <= old(self).intervals@[from_index as int].lo(),
            old(self).intervals@[to_index as int].holds(range_to_remove.hi()),
        ensures
            final(self).lost(*old(self), from, range_to_remove.hi()),
            final(self).kept_below(*old(self), from_index as int),
    {
        proof {
            T::order_laws();
            assert(self.intervals@.len() == self.intervals.len());
        }
        if self.intervals[to_index].to_id == range_to_remove.to_id {
            self.remove_intervals(
                from_index,
                to_index + 1,
                Ghost(from),
                Ghost(range_to_remove.hi()),
            );
        } else {
            let ghost before = self.intervals@;
            match range_to_remove.to_id.checked_add_one() {
                Some(to_plus_one) => {
                    self.intervals[to_index].from_id = to_plus_one;
                },
                None => unreached(),
            }
            proof {
                lemma_narrowed(
                    before,
                    to_index as int,
                    self.intervals@[to_index as int],
                    before[to_index as int].lo(),
                    range_to_remove.hi(),
                );
            }
            self.remove_intervals(from_index, to_index, Ghost(from), Ghost(range_to_remove.hi()));
            proof {
                assert(self.members() =~= old(self).members().difference(
                    span(from, range_to_remove.hi()),
                ));
            }
        }
    }

    /// Removes the intervals from `from_index` up to, but not including,
    /// `to_index`. If these are all the intervals there are, the queue is
    /// cleaned instead. `from` and `to` are the ends of the range that covers
    /// the removed intervals, and nothing else of the queue.
    fn remove_intervals(
        &mut self,
        from_index: usize,
        to_index: usize,
        Ghost(from): Ghost<int>,
        Ghost(to): Ghost<int>,
    )
        requires
            coalesced(old(self).intervals@),
            from_index <= to_index <= old(self).intervals@.len(),
            from_index > 0 ==> old(self).intervals@[from_index - 1].hi() < from,
            from_index < to_index ==> from <= old(self).intervals@[from_index as int].lo(),
            from_index < to_index ==> old(self).intervals@[to_index - 1].hi() <= to,
            to_index < old(self).intervals@.len() ==>
                to < old(self).intervals@[to_index as int].lo(),
        ensures
            final(self).lost(*old(self), from, to),
            final(self).kept_below(*old(self), from_index as int),
            !(from_index == 0 && to_index == old(self).intervals@.len()) ==>
                final(self).intervals@
                == without(old(self).intervals@, from_index as int, to_index as int),
    {
        proof {
            lemma_without(self.intervals@, from_index as int, to_index as int, from, to);
        }
        if from_index == 0 && to_index == self.intervals.len() {
            self.clean();
            proof {
                assert(self.members() =~= old(self).members().difference(span(from, to)));
            }
            return ;
        }
        let mut removed: usize = 0;
        while removed < to_index - from_index
            invariant
                from_index <= to_index <= old(self).intervals@.len(),
                removed <= to_index - from_index,
                self.intervals@ == without(
                    old(self).intervals@,
                    from_index as int,
                    from_index + removed,
                ),
            decreases to_index - from_index - removed,
        {
            self.intervals.remove(from_index);
            removed += 1;
        }
    }
}

} // verus!
