use crate::interval_list::{coalesced, placeholder, well_formed};
use crate::queue_index_range::QueueIndexRange;
use crate::queue_value::QueueValue;
use vstd::pervasive::unreached;
use vstd::prelude::*;

verus! {

/// Where one endpoint of a range falls relative to a list of intervals.
#[derive(Debug)]
pub enum IndexRange {
    /// Inside the interval at this index.
    Exact(usize),
    /// One step below the interval at this index, and not touching the
    /// interval before it.
    JoinToIndexFrom(usize),
    /// One step above the interval at this index, and not touching the
    /// interval after it.
    JoinToIndexTo(usize),
    /// Below the first interval, without touching it.
    First,
    /// Above the last interval, without touching it.
    Last,
    /// In the gap between two neighbouring intervals, touching neither.
    Between { left_index: usize, right_index: usize },
    /// The only value in the gap between the interval at this index and the
    /// next one: it touches both.
    MergeIntervals(usize),
}

impl IndexRange {
    /// The tag describes where the integer `e` falls relative to the list `s`.
    ///
    /// Against the placeholder nothing can be inside or touching: a value
    /// below the placeholder's start is `First`, any other is `Last`.
    pub open spec fn marks<T: QueueValue>(self, s: Seq<QueueIndexRange<T>>, e: int) -> bool {
        if placeholder(s) {
            match self {
                IndexRange::First => e < s[0].lo(),
                IndexRange::Last => e >= s[0].lo(),
                _ => false,
            }
        } else {
            match self {
                IndexRange::Exact(i) => i < s.len() && s[i as int].holds(e),
                IndexRange::JoinToIndexFrom(i) => {
                    &&& i < s.len()
                    &&& e + 1 == s[i as int].lo()
                    &&& i > 0 ==> s[i - 1].hi() + 1 < e
                },
                IndexRange::JoinToIndexTo(i) => {
                    &&& i < s.len()
                    &&& s[i as int].hi() + 1 == e
                    &&& i + 1 < s.len() ==> e + 1 < s[i + 1].lo()
                },
                IndexRange::First => s.len() > 0 && e + 1 < s[0].lo(),
                IndexRange::Last => s.len() > 0 && s[s.len() - 1].hi() + 1 < e,
                IndexRange::Between { left_index, right_index } => {
                    &&& right_index == left_index + 1
                    &&& right_index < s.len()
                    &&& s[left_index as int].hi() + 1 < e
                    &&& e + 1 < s[right_index as int].lo()
                },
                IndexRange::MergeIntervals(i) => {
                    &&& i + 1 < s.len()
                    &&& s[i as int].hi() + 1 == e
                    &&& e + 1 == s[i + 1].lo()
                },
            }
        }
    }

    /// The number of intervals of a list of `len` intervals that end below the
    /// value, as the tag tells it: the index of the first interval that ends
    /// at or above the value, or `len` if there is none.
    pub open spec fn slot(self, len: int) -> int {
        match self {
            IndexRange::Exact(i) => i as int,
            IndexRange::JoinToIndexFrom(i) => i as int,
            IndexRange::JoinToIndexTo(i) => i + 1,
            IndexRange::First => 0,
            IndexRange::Last => len,
            IndexRange::Between { left_index, right_index } => right_index as int,
            IndexRange::MergeIntervals(i) => i + 1,
        }
    }

    /// The intervals before the slot of a tag end below the value, the others
    /// end at or above it.
    pub proof fn lemma_slot<T: QueueValue>(self, s: Seq<QueueIndexRange<T>>, e: int)
        requires
            coalesced(s),
            self.marks(s, e),
        ensures
            0 <= self.slot(s.len() as int) <= s.len(),
            forall|k: int| 0 <= k < self.slot(s.len() as int) ==> (#[trigger] s[k]).hi() < e,
            forall|k: int| self.slot(s.len() as int) <= k < s.len() ==> e <= (#[trigger] s[k]).hi(),
    {
    }

    /// Against a well-formed list every value has exactly one tag.
    pub proof fn lemma_marks_unique<T: QueueValue>(
        a: IndexRange,
        b: IndexRange,
        s: Seq<QueueIndexRange<T>>,
        e: int,
    )
        requires
            well_formed(s),
            a.marks(s, e),
            b.marks(s, e),
        ensures
            a == b,
    {
    }

    /// The tags of two values come in the order of the values: the tag of
    /// the higher value names no earlier place in the list.
    pub proof fn lemma_marks_in_order<T: QueueValue>(
        a: IndexRange,
        b: IndexRange,
        s: Seq<QueueIndexRange<T>>,
        from: int,
        to: int,
    )
        requires
            well_formed(s),
            a.marks(s, from),
            b.marks(s, to),
            from <= to,
        ensures
            a.slot(s.len() as int) <= b.slot(s.len() as int),
    {
    }

    /// Where the two ends of `other_range` fall relative to `intervals`: the
    /// first tag is that of `other_range.from_id`, the second that of
    /// `other_range.to_id`.
    pub fn new<T: QueueValue>(
        intervals: &Vec<QueueIndexRange<T>>,
        other_range: &QueueIndexRange<T>,
    ) -> (r: (Self, Self))
        requires
            well_formed(intervals@),
        ensures
            r.0.marks(intervals@, other_range.lo()),
            r.1.marks(intervals@, other_range.hi()),
            !other_range.vacant() ==> r.0.slot(intervals@.len() as int) <= r.1.slot(
                intervals@.len() as int,
            ),
    {
        proof {
            T::order_laws();
        }
        if intervals.len() == 1 && intervals[0].is_empty() {
            let from_index = if other_range.from_id < intervals[0].from_id {
                IndexRange::First
            } else {
                IndexRange::Last
            };
            let to_index = if other_range.to_id < intervals[0].from_id {
                IndexRange::First
            } else {
                IndexRange::Last
            };
            return (from_index, to_index);
        }
        let mut from_index: Option<IndexRange> = None;
        let mut to_index: Option<IndexRange> = None;

        let mut index: usize = 0;
        while index < intervals.len() && (from_index.is_none() || to_index.is_none())
            invariant
                coalesced(intervals@),
                index <= intervals.len(),
                match from_index {
                    Some(tag) => tag.marks(intervals@, other_range.lo()),
                    None => index > 0 ==> intervals@[index - 1].hi() < other_range.lo(),
                },
                match to_index {
                    Some(tag) => tag.marks(intervals@, other_range.hi()),
                    None => index > 0 ==> intervals@[index - 1].hi() < other_range.hi(),
                },
            decreases intervals.len() - index,
        {
            if from_index.is_none() {
                from_index = Self::at_interval(intervals, index, other_range.from_id);
            }
            if to_index.is_none() {
                to_index = Self::at_interval(intervals, index, other_range.to_id);
            }
            index += 1;
        }

        let from_index = match from_index {
            Some(from_index) => from_index,
            None => Self::after_last(intervals, other_range.from_id),
        };
        let to_index = match to_index {
            Some(to_index) => to_index,
            None => Self::after_last(intervals, other_range.to_id),
        };

        (from_index, to_index)
    }

    /// The tag of a value that lies above the interval before `index`, if the
    /// interval at `index` settles it: `None` says that the value lies above
    /// that interval too.
    fn at_interval<T: QueueValue>(
        intervals: &Vec<QueueIndexRange<T>>,
        index: usize,
        value: T,
    ) -> (r: Option<IndexRange>)
        requires
            coalesced(intervals@),
            index < intervals.len(),
            index > 0 ==> intervals@[index - 1].hi() < value.as_int(),
        ensures
            match r {
                Some(tag) => tag.marks(intervals@, value.as_int()),
                None => intervals@[index as int].hi() < value.as_int(),
            },
    {
        proof {
            T::order_laws();
        }
        let interval = &intervals[index];
        if value > interval.to_id {
            return None;
        }
        if value >= interval.from_id {
            return Some(IndexRange::Exact(index));
        }
        let touches_next = match value.checked_add_one() {
            Some(value_plus_one) => value_plus_one == interval.from_id,
            None => false,
        };
        if index == 0 {
            return Some(
                if touches_next {
                    IndexRange::JoinToIndexFrom(0)
                } else {
                    IndexRange::First
                },
            );
        }
        let prev_interval = &intervals[index - 1];
        let touches_prev = match prev_interval.to_id.checked_add_one() {
            Some(prev_to_plus_one) => prev_to_plus_one == value,
            None => false,
        };
        Some(
            if touches_prev && touches_next {
                IndexRange::MergeIntervals(index - 1)
            } else if touches_prev {
                IndexRange::JoinToIndexTo(index - 1)
            } else if touches_next {
                IndexRange::JoinToIndexFrom(index)
            } else {
                IndexRange::Between { left_index: index - 1, right_index: index }
            },
        )
    }

    /// The tag of a value that lies above the last interval.
    fn after_last<T: QueueValue>(intervals: &Vec<QueueIndexRange<T>>, value: T) -> (r: IndexRange)
        requires
            coalesced(intervals@),
            intervals@[intervals.len() - 1].hi() < value.as_int(),
        ensures
            r.marks(intervals@, value.as_int()),
    {
        proof {
            T::order_laws();
        }
        let last = &intervals[intervals.len() - 1];
        match last.to_id.checked_add_one() {
            Some(last_to_plus_one) => {
                if last_to_plus_one == value {
                    IndexRange::JoinToIndexTo(intervals.len() - 1)
                } else {
                    IndexRange::Last
                }
            },
            None => IndexRange::Last,
        }
    }

    pub fn unwrap_as_exact(&self) -> (r: usize)
        requires
            self is Exact,
        ensures
            *self == IndexRange::Exact(r),
    {
        match self {
            Self::Exact(index) => *index,
            _ => unreached(),
        }
    }

    pub fn unwrap_as_merge_intervals(&self) -> (r: usize)
        requires
            self is MergeIntervals,
        ensures
            *self == IndexRange::MergeIntervals(r),
    {
        match self {
            Self::MergeIntervals(index) => *index,
            _ => unreached(),
        }
    }

    pub fn unwrap_as_between(&self) -> (r: (usize, usize))
        requires
            self is Between,
        ensures
            *self == (IndexRange::Between { left_index: r.0, right_index: r.1 }),
    {
        match self {
            Self::Between { left_index, right_index } => (*left_index, *right_index),
            _ => unreached(),
        }
    }

    pub fn is_first(&self) -> (r: bool)
        ensures
            r == (self is First),
    {
        match self {
            Self::First => true,
            _ => false,
        }
    }

    pub fn unwrap_as_join_to_index_from(&self) -> (r: usize)
        requires
            self is JoinToIndexFrom,
        ensures
            *self == IndexRange::JoinToIndexFrom(r),
    {
        match self {
            Self::JoinToIndexFrom(index) => *index,
            _ => unreached(),
        }
    }

    pub fn unwrap_as_join_to_index_to(&self) -> (r: usize)
        requires
            self is JoinToIndexTo,
        ensures
            *self == IndexRange::JoinToIndexTo(r),
    {
        match self {
            Self::JoinToIndexTo(index) => *index,
            _ => unreached(),
        }
    }

    pub fn is_last(&self) -> (r: bool)
        ensures
            r == (self is Last),
    {
        match self {
            Self::Last => true,
            _ => false,
        }
    }
}

} // verus!
