use crate::index_range::IndexRange;
use crate::interval_list::{
    coalesced, lemma_inserted, lemma_one_representation, lemma_replaced, replaced, span,
};
use crate::queue_index_range::QueueIndexRange;
use crate::queue_value::QueueValue;
use crate::queue_with_intervals::QueueWithIntervals;
use vstd::pervasive::unreached;
use vstd::prelude::*;

verus! {

impl<T: QueueValue> QueueWithIntervals<T> {
    /// The queue is coalesced and holds what `before` held and the values of
    /// `range`.
    pub open spec fn gained(self, before: Self, range: QueueIndexRange<T>) -> bool {
        &&& coalesced(self.intervals@)
        &&& self.members() == before.members().union(span(range.lo(), range.hi()))
    }

    /// Puts all values of `range_to_insert` into the queue. Intervals that
    /// the range overlaps or touches become one interval with it.
    pub fn enqueue_range(&mut self, range_to_insert: QueueIndexRange<T>)
        requires
            old(self).wf(),
        ensures
            final(self).wf(),
            final(self).members() == old(self).members().union(
                span(range_to_insert.lo(), range_to_insert.hi()),
            ),
            range_to_insert.vacant() || span(range_to_insert.lo(), range_to_insert.hi()).subset_of(
                old(self).members(),
            ) ==> final(self).intervals@ == old(self).intervals@,
    {
        if range_to_insert.is_empty() {
            return ;
        }
        if self.is_empty() {
            self.intervals[0].from_id = range_to_insert.from_id;
            self.intervals[0].to_id = range_to_insert.to_id;
            proof {
                assert(span(range_to_insert.lo(), range_to_insert.hi()).contains(
                    range_to_insert.lo(),
                ));
            }
            return ;
        }
        let (from_index, to_index) = IndexRange::new(&self.intervals, &range_to_insert);

        match from_index {
            IndexRange::First => {
                self.enqueue_as_first_as_between(0, to_index, range_to_insert);
            },
            IndexRange::Exact(from_index) => {
                self.enqueue_as_left_as_exact(from_index, to_index, range_to_insert);
            },
            IndexRange::Last => {
                self.enqueue_as_first_as_last(to_index, range_to_insert);
            },
            IndexRange::Between { left_index: _, right_index } => {
                self.enqueue_as_first_as_between(right_index, to_index, range_to_insert);
            },
            IndexRange::JoinToIndexFrom(from_index) => {
                self.enqueue_as_left_as_joint_to_index_from(from_index, to_index, range_to_insert)
            },
            IndexRange::JoinToIndexTo(from_index) => {
                self.enqueue_as_left_as_join_to_index_to(from_index, to_index, range_to_insert)
            },
            IndexRange::MergeIntervals(index) => {
                self.enqueue_as_first_merge_intervals(index, to_index, range_to_insert);
            },
        }
        proof {
            if span(range_to_insert.lo(), range_to_insert.hi()).subset_of(old(self).members()) {
                assert(self.members() =~= old(self).members());
                lemma_one_representation(self.intervals@, old(self).intervals@);
            }
        }
    }

    /// The range starts at the only value between the intervals at
    /// `from_index` and `from_index + 1`.
    fn enqueue_as_first_merge_intervals(
        &mut self,
        from_index: usize,
        to_index: IndexRange,
        range_to_insert: QueueIndexRange<T>,
    )
        requires
            coalesced(old(self).intervals@),
            !range_to_insert.vacant(),
            IndexRange::MergeIntervals(from_index).marks(
                old(self).intervals@,
                range_to_insert.lo(),
            ),
            to_index.marks(old(self).intervals@, range_to_insert.hi()),
        ensures
            final(self).gained(*old(self), range_to_insert),
    {
        let last_index = self.intervals.len() - 1;
        match to_index {
            IndexRange::Exact(index) => {
                self.do_update(from_index, index, None, None, Ghost(range_to_insert));
            },
            IndexRange::JoinToIndexFrom(index) => {
                self.do_update(from_index, index, None, None, Ghost(range_to_insert));
            },
            IndexRange::JoinToIndexTo(index) => {
                self.do_update(
                    from_index,
                    index,
                    None,
                    Some(range_to_insert.to_id),
                    Ghost(range_to_insert),
                );
            },
            IndexRange::First => unreached(),
            IndexRange::Last => {
                self.do_update(
                    from_index,
                    last_index,
                    None,
                    Some(range_to_insert.to_id),
                    Ghost(range_to_insert),
                );
            },
            IndexRange::Between { left_index, right_index: _ } => {
                self.do_update(
                    from_index,
                    left_index,
                    None,
                    Some(range_to_insert.to_id),
                    Ghost(range_to_insert),
                );
            },
            IndexRange::MergeIntervals(index) => {
                self.do_update(from_index, index + 1, None, None, Ghost(range_to_insert));
            },
        }
    }

    /// The range starts above the last interval, without touching it.
    fn enqueue_as_first_as_last(
        &mut self,
        to_index: IndexRange,
        range_to_insert: QueueIndexRange<T>,
    )
        requires
            coalesced(old(self).intervals@),
            !range_to_insert.vacant(),
            IndexRange::Last.marks(old(self).intervals@, range_to_insert.lo()),
            to_index.marks(old(self).intervals@, range_to_insert.hi()),
        ensures
            final(self).gained(*old(self), range_to_insert),
    {
        match to_index {
            IndexRange::Last => {
                proof {
                    lemma_inserted(
                        self.intervals@,
                        self.intervals@.len() as int,
                        range_to_insert,
                    );
                    assert(self.intervals@.insert(self.intervals@.len() as int, range_to_insert)
                        =~= self.intervals@.push(range_to_insert));
                }
                self.intervals.push(range_to_insert);
            },
            IndexRange::Exact(_) => unreached(),
            IndexRange::First => unreached(),
            IndexRange::Between { left_index: _, right_index: _ } => unreached(),
            IndexRange::JoinToIndexFrom(_) => unreached(),
            IndexRange::JoinToIndexTo(_) => unreached(),
            IndexRange::MergeIntervals(_) => unreached(),
        }
    }

    /// The range starts in the gap before the interval at `left_index_to`,
    /// touching neither that interval nor the one before it.
    fn enqueue_as_first_as_between(
        &mut self,
        left_index_to: usize,
        to_index: IndexRange,
        range_to_insert: QueueIndexRange<T>,
    )
        requires
            coalesced(old(self).intervals@),
            !range_to_insert.vacant(),
            left_index_to == 0 ==> IndexRange::First.marks(
                old(self).intervals@,
                range_to_insert.lo(),
            ),
            left_index_to > 0 ==> (IndexRange::Between {
                left_index: (left_index_to - 1) as usize,
                right_index: left_index_to,
            }).marks(old(self).intervals@, range_to_insert.lo()),
            to_index.marks(old(self).intervals@, range_to_insert.hi()),
        ensures
            final(self).gained(*old(self), range_to_insert),
    {
        proof {
            to_index.lemma_slot(self.intervals@, range_to_insert.hi());
        }
        let last_index = self.intervals.len() - 1;
        match to_index {
            IndexRange::Exact(to_index) => {
                self.do_update(
                    left_index_to,
                    to_index,
                    Some(range_to_insert.from_id),
                    None,
                    Ghost(range_to_insert),
                );
            },
            IndexRange::First => {
                proof {
                    lemma_inserted(self.intervals@, 0, range_to_insert);
                }
                self.intervals.insert(0, range_to_insert);
            },
            IndexRange::Last => {
                self.do_update(
                    left_index_to,
                    last_index,
                    Some(range_to_insert.from_id),
                    Some(range_to_insert.to_id),
                    Ghost(range_to_insert),
                );
            },
            IndexRange::Between { left_index: to_left_index, right_index: to_right_index } => {
                if left_index_to == to_right_index {
                    proof {
                        lemma_inserted(self.intervals@, to_right_index as int, range_to_insert);
                    }
                    self.intervals.insert(to_right_index, range_to_insert);
                    return ;
                }
                self.do_update(
                    left_index_to,
                    to_left_index,
                    Some(range_to_insert.from_id),
                    Some(range_to_insert.to_id),
                    Ghost(range_to_insert),
                );
            },
            IndexRange::JoinToIndexFrom(index) => {
                self.do_update(
                    left_index_to,
                    index,
                    Some(range_to_insert.from_id),
                    None,
                    Ghost(range_to_insert),
                );
            },
            IndexRange::JoinToIndexTo(index) => {
                self.do_update(
                    left_index_to,
                    index,
                    Some(range_to_insert.from_id),
                    Some(range_to_insert.to_id),
                    Ghost(range_to_insert),
                );
            },
            IndexRange::MergeIntervals(index) => {
                self.do_update(
                    left_index_to,
                    index + 1,
                    Some(range_to_insert.from_id),
                    None,
                    Ghost(range_to_insert),
                );
            },
        }
    }

    /// The range starts one step below the interval at `from_index`.
    fn enqueue_as_left_as_joint_to_index_from(
        &mut self,
        from_index: usize,
        to_index: IndexRange,
        range_to_insert: QueueIndexRange<T>,
    )
        requires
            coalesced(old(self).intervals@),
            !range_to_insert.vacant(),
            IndexRange::JoinToIndexFrom(from_index).marks(
                old(self).intervals@,
                range_to_insert.lo(),
            ),
            to_index.marks(old(self).intervals@, range_to_insert.hi()),
        ensures
            final(self).gained(*old(self), range_to_insert),
    {
        proof {
            to_index.lemma_slot(self.intervals@, range_to_insert.hi());
        }
        let last_index = self.intervals.len() - 1;
        match to_index {
            IndexRange::Exact(to_index) => {
                self.do_update(
                    from_index,
                    to_index,
                    Some(range_to_insert.from_id),
                    None,
                    Ghost(range_to_insert),
                );
            },
            IndexRange::First => unreached(),
            IndexRange::Last => {
                self.do_update(
                    from_index,
                    last_index,
                    Some(range_to_insert.from_id),
                    Some(range_to_insert.to_id),
                    Ghost(range_to_insert),
                );
            },
            IndexRange::Between { left_index, right_index: _ } => {
                self.do_update(
                    from_index,
                    left_index,
                    Some(range_to_insert.from_id),
                    Some(range_to_insert.to_id),
                    Ghost(range_to_insert),
                );
            },
            IndexRange::JoinToIndexFrom(to_index) => {
                self.do_update(
                    from_index,
                    to_index,
                    Some(range_to_insert.from_id),
                    None,
                    Ghost(range_to_insert),
                );
            },
            IndexRange::JoinToIndexTo(to_index) => {
                self.do_update(
                    from_index,
                    to_index,
                    Some(range_to_insert.from_id),
                    Some(range_to_insert.to_id),
                    Ghost(range_to_insert),
                );
            },
            IndexRange::MergeIntervals(index) => {
                self.do_update(
                    from_index,
                    index + 1,
                    Some(range_to_insert.from_id),
                    None,
                    Ghost(range_to_insert),
                );
            },
        }
    }

    /// The range starts one step above the interval at `from_index`, without
    /// touching the next one.
    fn enqueue_as_left_as_join_to_index_to(
        &mut self,
        from_index: usize,
        to_index: IndexRange,
        range_to_insert: QueueIndexRange<T>,
    )
        requires
            coalesced(old(self).intervals@),
            !range_to_insert.vacant(),
            IndexRange::JoinToIndexTo(from_index).marks(
                old(self).intervals@,
                range_to_insert.lo(),
            ),
            to_index.marks(old(self).intervals@, range_to_insert.hi()),
        ensures
            final(self).gained(*old(self), range_to_insert),
    {
        proof {
            to_index.lemma_slot(self.intervals@, range_to_insert.hi());
        }
        let last_index = self.intervals.len() - 1;
        match to_index {
            IndexRange::Exact(to_index) => {
                self.do_update(from_index, to_index, None, None, Ghost(range_to_insert));
            },
            IndexRange::First => unreached(),
            IndexRange::Last => {
                self.do_update(
                    from_index,
                    last_index,
                    None,
                    Some(range_to_insert.to_id),
                    Ghost(range_to_insert),
                );
            },
            IndexRange::Between { left_index, right_index: _ } => {
                self.do_update(
                    from_index,
                    left_index,
                    None,
                    Some(range_to_insert.to_id),
                    Ghost(range_to_insert),
                );
            },
            IndexRange::JoinToIndexFrom(to_index) => {
                self.do_update(from_index, to_index, None, None, Ghost(range_to_insert));
            },
            IndexRange::JoinToIndexTo(index) => {
                self.do_update(
                    from_index,
                    index,
                    None,
                    Some(range_to_insert.to_id),
                    Ghost(range_to_insert),
                );
            },
            IndexRange::MergeIntervals(index) => {
                self.do_update(from_index, index + 1, None, None, Ghost(range_to_insert));
            },
        }
    }

    /// The range starts inside the interval at `from_index`.
    fn enqueue_as_left_as_exact(
        &mut self,
        from_index: usize,
        to_index: IndexRange,
        range_to_insert: QueueIndexRange<T>,
    )
        requires
            coalesced(old(self).intervals@),
            !range_to_insert.vacant(),
            IndexRange::Exact(from_index).marks(old(self).intervals@, range_to_insert.lo()),
            to_index.marks(old(self).intervals@, range_to_insert.hi()),
        ensures
            final(self).gained(*old(self), range_to_insert),
    {
        let last_index = self.intervals.len() - 1;
        match to_index {
            IndexRange::Exact(to_index) => {
                self.do_update(from_index, to_index, None, None, Ghost(range_to_insert));
            },
            IndexRange::First => unreached(),
            IndexRange::Last => {
                self.do_update(
                    from_index,
                    last_index,
                    None,
                    Some(range_to_insert.to_id),
                    Ghost(range_to_insert),
                );
            },
            IndexRange::Between { left_index, right_index: _ } => {
                self.do_update(
                    from_index,
                    left_index,
                    None,
                    Some(range_to_insert.to_id),
                    Ghost(range_to_insert),
                );
            },
            IndexRange::JoinToIndexFrom(index) => {
                self.do_update(from_index, index, None, None, Ghost(range_to_insert));
            },
            IndexRange::JoinToIndexTo(to_index) => {
                self.do_update(
                    from_index,
                    to_index,
                    None,
                    Some(range_to_insert.to_id),
                    Ghost(range_to_insert),
                );
            },
            IndexRange::MergeIntervals(index) => {
                self.do_update(from_index, index + 1, None, None, Ghost(range_to_insert));
            },
        }
    }

    /// Replaces the intervals at `from_index` to `to_index` by one interval.
    /// It starts at `override_from_id` if that is given, else where the
    /// interval at `from_index` starts, and ends at `override_to_id` if that
    /// is given, else where the interval at `to_index` ends.
    fn do_update(
        &mut self,
        from_index: usize,
        to_index: usize,
        override_from_id: Option<T>,
        override_to_id: Option<T>,
        Ghost(range): Ghost<QueueIndexRange<T>>,
    )
        requires
            coalesced(old(self).intervals@),
            from_index <= to_index < old(self).intervals@.len(),
            !range.vacant(),
            match override_from_id {
                Some(from_id) => from_id == range.from_id
                    && range.lo() < old(self).intervals@[from_index as int].lo(),
                None => old(self).intervals@[from_index as int].lo() <= range.lo()
                    <= old(self).intervals@[from_index as int].hi() + 1,
            },
            match override_to_id {
                Some(to_id) => to_id == range.to_id && old(self).intervals@[to_index as int].hi()
                    < range.hi(),
                None => old(self).intervals@[to_index as int].lo() - 1 <= range.hi()
                    <= old(self).intervals@[to_index as int].hi(),
            },
            from_index > 0 ==> old(self).intervals@[from_index - 1].hi() + 1 < range.lo(),
            to_index + 1 < old(self).intervals@.len() ==>
                range.hi() + 1 < old(self).intervals@[to_index + 1].lo(),
        ensures
            final(self).intervals@ == replaced(
                old(self).intervals@,
                from_index as int,
                to_index as int,
                QueueIndexRange {
                    from_id: match override_from_id {
                        Some(from_id) => from_id,
                        None => old(self).intervals@[from_index as int].from_id,
                    },
                    to_id: match override_to_id {
                        Some(to_id) => to_id,
                        None => old(self).intervals@[to_index as int].to_id,
                    },
                },
            ),
            final(self).gained(*old(self), range),
    {
        let to_id = if let Some(override_to_id) = override_to_id {
            override_to_id
        } else {
            self.intervals[to_index].to_id
        };

        let mut removed: usize = 0;
        while removed < to_index - from_index
            invariant
                from_index <= to_index < old(self).intervals@.len(),
                removed <= to_index - from_index,
                self.intervals@ == old(self).intervals@.subrange(0, from_index + 1)
                    + old(self).intervals@.subrange(
                    from_index + 1 + removed,
                    old(self).intervals@.len() as int,
                ),
            decreases to_index - from_index - removed,
        {
            self.intervals.remove(from_index + 1);
            removed += 1;
        }

        if let Some(from_id) = override_from_id {
            self.intervals[from_index].from_id = from_id;
        }
        self.intervals[from_index].to_id = to_id;

        proof {
            let merged = self.intervals@[from_index as int];
            assert(self.intervals@ =~= replaced(
                old(self).intervals@,
                from_index as int,
                to_index as int,
                merged,
            ));
            lemma_replaced(
                old(self).intervals@,
                from_index as int,
                to_index as int,
                merged,
                range.lo(),
                range.hi(),
            );
        }
    }
}

} // verus!
