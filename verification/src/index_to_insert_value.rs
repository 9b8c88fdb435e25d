use crate::interval_list::{coalesced, list_holds};
use crate::queue_index_range::QueueIndexRange;
use crate::queue_value::QueueValue;
use vstd::pervasive::unreached;
use vstd::prelude::*;

verus! {

/// What putting one value into a coalesced list of intervals takes.
#[derive(Debug)]
pub enum IndexToInsertValue {
    /// The value lies one step below the interval at this index and does not
    /// touch the interval before it: that interval grows downwards.
    MergeToLeft(usize),
    /// The value lies one step above the interval at this index and does not
    /// touch the interval after it: that interval grows upwards.
    MergeToRight(usize),
    /// The value touches no interval: it becomes an interval of its own at
    /// this index.
    InsertAsNewInterval(usize),
    /// The value is the only one between the interval at this index and the
    /// next: the two become one.
    MergeTwoIntervals(usize),
    /// Some interval holds the value already.
    HasValue,
}

impl IndexToInsertValue {
    /// The tag describes how the integer `v` relates to the list `s`.
    pub open spec fn fits<T: QueueValue>(self, s: Seq<QueueIndexRange<T>>, v: int) -> bool {
        match self {
            IndexToInsertValue::MergeToLeft(i) => {
                &&& i < s.len()
                &&& v + 1 == s[i as int].lo()
                &&& i > 0 ==> s[i - 1].hi() + 1 < v
            },
            IndexToInsertValue::MergeToRight(i) => {
                &&& i < s.len()
                &&& s[i as int].hi() + 1 == v
                &&& i + 1 < s.len() ==> v + 1 < s[i + 1].lo()
            },
            IndexToInsertValue::InsertAsNewInterval(i) => {
                &&& i <= s.len()
                &&& i > 0 ==> s[i - 1].hi() + 1 < v
                &&& i < s.len() ==> v + 1 < s[i as int].lo()
            },
            IndexToInsertValue::MergeTwoIntervals(i) => {
                &&& i + 1 < s.len()
                &&& s[i as int].hi() + 1 == v
                &&& v + 1 == s[i + 1].lo()
            },
            IndexToInsertValue::HasValue => list_holds(s, v),
        }
    }

    /// What the first pass finds: as `fits`, but it does not look at the
    /// interval after the one that the value touches from above, and so never
    /// answers `MergeTwoIntervals`.
    pub open spec fn detects<T: QueueValue>(self, s: Seq<QueueIndexRange<T>>, v: int) -> bool {
        match self {
            IndexToInsertValue::MergeToRight(i) => i < s.len() && s[i as int].hi() + 1 == v,
            IndexToInsertValue::MergeTwoIntervals(_) => false,
            _ => self.fits(s, v),
        }
    }

    /// Against a coalesced list every value has exactly one tag.
    pub proof fn lemma_fits_unique<T: QueueValue>(
        a: IndexToInsertValue,
        b: IndexToInsertValue,
        s: Seq<QueueIndexRange<T>>,
        v: int,
    )
        requires
            coalesced(s),
            a.fits(s, v),
            b.fits(s, v),
        ensures
            a == b,
    {
        a.lemma_slot(s, v);
        b.lemma_slot(s, v);
    }

    /// The index of the first interval that ends at or after the value (the
    /// length of the list if there is none), which every tag determines.
    proof fn lemma_slot<T: QueueValue>(self, s: Seq<QueueIndexRange<T>>, v: int) -> (k: int)
        requires
            coalesced(s),
            self.fits(s, v),
        ensures
            0 <= k <= s.len(),
            k < s.len() ==> v <= s[k].hi(),
            k > 0 ==> s[k - 1].hi() < v,
            match self {
                IndexToInsertValue::MergeToLeft(i) => k == i,
                IndexToInsertValue::MergeToRight(i) => k == i + 1,
                IndexToInsertValue::InsertAsNewInterval(i) => k == i,
                IndexToInsertValue::MergeTwoIntervals(i) => k == i + 1,
                IndexToInsertValue::HasValue => k < s.len() && s[k].holds(v),
            },
    {
        match self {
            IndexToInsertValue::MergeToLeft(i) => i as int,
            IndexToInsertValue::MergeToRight(i) => i + 1,
            IndexToInsertValue::InsertAsNewInterval(i) => i as int,
            IndexToInsertValue::MergeTwoIntervals(i) => i + 1,
            IndexToInsertValue::HasValue => choose|k: int|
                0 <= k < s.len() && (#[trigger] s[k]).holds(v),
        }
    }

    /// What putting `value` into `intervals` takes.
    pub fn new<T: QueueValue>(intervals: &Vec<QueueIndexRange<T>>, value: T) -> (r: Self)
        requires
            coalesced(intervals@),
        ensures
            r.fits(intervals@, value.as_int()),
    {
        proof {
            T::order_laws();
        }
        let result = Self::detect_interval(intervals, value);

        match &result {
            IndexToInsertValue::MergeToRight(index) => {
                let index = *index;
                if index < intervals.len() - 1 {
                    let right_interval = &intervals[index + 1];
                    if let Some(value_plus_one) = value.checked_add_one() {
                        if value_plus_one == right_interval.from_id {
                            return Self::MergeTwoIntervals(index);
                        }
                    }
                }
            },
            IndexToInsertValue::MergeToLeft(_) => {},
            IndexToInsertValue::InsertAsNewInterval(_) => {},
            IndexToInsertValue::MergeTwoIntervals(_) => {},
            IndexToInsertValue::HasValue => {},
        }

        result
    }

    /// One pass over the intervals: the first that holds `value`, touches it
    /// or lies above it decides.
    fn detect_interval<T: QueueValue>(intervals: &Vec<QueueIndexRange<T>>, value: T) -> (r: Self)
        requires
            coalesced(intervals@),
        ensures
            r.detects(intervals@, value.as_int()),
    {
        let mut index: usize = 0;
        while index < intervals.len()
            invariant
                coalesced(intervals@),
                index <= intervals.len(),
                index > 0 ==> intervals@[index - 1].hi() + 1 < value.as_int(),
            decreases intervals.len() - index,
        {
            proof {
                T::order_laws();
            }
            let itm = &intervals[index];
            if itm.from_id <= value && value <= itm.to_id {
                return Self::HasValue;
            }
            if let Some(value_plus_one) = value.checked_add_one() {
                if value_plus_one == itm.from_id {
                    return Self::MergeToLeft(index);
                }
            }
            if let Some(to_plus_one) = itm.to_id.checked_add_one() {
                if to_plus_one == value {
                    return Self::MergeToRight(index);
                }
            }
            if value < itm.from_id {
                return Self::InsertAsNewInterval(index);
            }
            index += 1;
        }

        Self::InsertAsNewInterval(intervals.len())
    }

    pub fn unwrap_as_merge_to_right(&self) -> (r: usize)
        requires
            self is MergeToRight,
        ensures
            *self == IndexToInsertValue::MergeToRight(r),
    {
        match self {
            IndexToInsertValue::MergeToRight(index) => *index,
            _ => unreached(),
        }
    }

    pub fn unwrap_as_merge_to_left(&self) -> (r: usize)
        requires
            self is MergeToLeft,
        ensures
            *self == IndexToInsertValue::MergeToLeft(r),
    {
        match self {
            IndexToInsertValue::MergeToLeft(index) => *index,
            _ => unreached(),
        }
    }

    pub fn unwrap_as_merge_two_intervals(&self) -> (r: usize)
        requires
            self is MergeTwoIntervals,
        ensures
            *self == IndexToInsertValue::MergeTwoIntervals(r),
    {
        match self {
            IndexToInsertValue::MergeTwoIntervals(index) => *index,
            _ => unreached(),
        }
    }

    pub fn unwrap_insert_as_new_interval(&self) -> (r: usize)
        requires
            self is InsertAsNewInterval,
        ensures
            *self == IndexToInsertValue::InsertAsNewInterval(r),
    {
        match self {
            IndexToInsertValue::InsertAsNewInterval(index) => *index,
            _ => unreached(),
        }
    }

    pub fn unwrap_as_has_value(&self)
        requires
            self is HasValue,
    {
        match self {
            IndexToInsertValue::HasValue => {},
            _ => unreached(),
        }
    }
}

} // verus!
