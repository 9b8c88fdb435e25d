use crate::queue_index_range::QueueIndexRange;
use crate::queue_value::QueueValue;
use vstd::pervasive::unreached;
use vstd::prelude::*;

verus! {

/// What taking one value out of a list of intervals takes.
#[derive(Debug)]
pub enum IndexToRemoveValue<T: QueueValue> {
    /// The value is the lower bound of the interval at this index, which
    /// holds more than it: the bound moves up.
    IncLeft(usize),
    /// The value is the upper bound of the interval at this index, which
    /// holds more than it: the bound moves down.
    DecRight(usize),
    /// The value lies strictly inside the interval at `index`, which is to be
    /// replaced by `left`, the part below the value, and `right`, the part
    /// above it.
    Split { index: usize, left: QueueIndexRange<T>, right: QueueIndexRange<T> },
    /// The value is all that the interval at this index holds.
    Remove(usize),
    /// No interval holds the value.
    NoValue,
}

impl<T: QueueValue> IndexToRemoveValue<T> {
    /// The tag names the first interval of `s` that holds the integer `v`
    /// and says where in it `v` lies, or says that no interval holds `v`.
    pub open spec fn fits(self, s: Seq<QueueIndexRange<T>>, v: int) -> bool {
        match self {
            IndexToRemoveValue::IncLeft(i) => {
                &&& Self::first_holder(s, v, i as int)
                &&& s[i as int].lo() == v < s[i as int].hi()
            },
            IndexToRemoveValue::DecRight(i) => {
                &&& Self::first_holder(s, v, i as int)
                &&& s[i as int].lo() < v == s[i as int].hi()
            },
            IndexToRemoveValue::Split { index, left, right } => {
                &&& Self::first_holder(s, v, index as int)
                &&& s[index as int].lo() < v < s[index as int].hi()
                &&& left.from_id == s[index as int].from_id
                &&& left.hi() == v - 1
                &&& right.lo() == v + 1
                &&& right.to_id == s[index as int].to_id
            },
            IndexToRemoveValue::Remove(i) => {
                &&& Self::first_holder(s, v, i as int)
                &&& s[i as int].lo() == v == s[i as int].hi()
            },
            IndexToRemoveValue::NoValue => forall|j: int|
                0 <= j < s.len() ==> !(#[trigger] s[j]).holds(v),
        }
    }

    /// The interval at index `i` holds `v`, and none before it does.
    pub open spec fn first_holder(s: Seq<QueueIndexRange<T>>, v: int, i: int) -> bool {
        &&& 0 <= i < s.len()
        &&& s[i].holds(v)
        &&& forall|j: int| 0 <= j < i ==> !(#[trigger] s[j]).holds(v)
    }

    /// What taking `value` out of `intervals` takes.
    pub fn new(intervals: &Vec<QueueIndexRange<T>>, value: T) -> (r: Self)
        ensures
            r.fits(intervals@, value.as_int()),
    {
        let mut index: usize = 0;
        while index < intervals.len()
            invariant
                index <= intervals.len(),
                forall|j: int| 0 <= j < index ==> !(#[trigger] intervals@[j]).holds(value.as_int()),
            decreases intervals.len() - index,
        {
            proof {
                T::order_laws();
            }
            let interval = &intervals[index];
            if interval.from_id <= value && value <= interval.to_id {
                if interval.from_id == value {
                    if interval.to_id == value {
                        return Self::Remove(index);
                    }
                    return Self::IncLeft(index);
                }
                if interval.to_id == value {
                    return Self::DecRight(index);
                }
                match (value.checked_sub_one(), value.checked_add_one()) {
                    (Some(value_minus_one), Some(value_plus_one)) => {
                        return Self::Split {
                            index,
                            left: QueueIndexRange {
                                from_id: interval.from_id,
                                to_id: value_minus_one,
                            },
                            right: QueueIndexRange {
                                from_id: value_plus_one,
                                to_id: interval.to_id,
                            },
                        };
                    },
                    _ => unreached(),
                }
            }
            index += 1;
        }

        Self::NoValue
    }

    pub fn is_no_value(&self) -> (r: bool)
        ensures
            r == (self is NoValue),
    {
        match self {
            IndexToRemoveValue::NoValue => true,
            _ => false,
        }
    }

    pub fn unwrap_as_inc_left(&self) -> (r: usize)
        requires
            self is IncLeft,
        ensures
            *self == IndexToRemoveValue::<T>::IncLeft(r),
    {
        match self {
            IndexToRemoveValue::IncLeft(index) => *index,
            _ => unreached(),
        }
    }

    pub fn unwrap_as_dec_right(&self) -> (r: usize)
        requires
            self is DecRight,
        ensures
            *self == IndexToRemoveValue::<T>::DecRight(r),
    {
        match self {
            IndexToRemoveValue::DecRight(index) => *index,
            _ => unreached(),
        }
    }

    pub fn unwrap_as_remove(&self) -> (r: usize)
        requires
            self is Remove,
        ensures
            *self == IndexToRemoveValue::<T>::Remove(r),
    {
        match self {
            IndexToRemoveValue::Remove(index) => *index,
            _ => unreached(),
        }
    }

    pub fn unwrap_as_split(&self) -> (r: (usize, &QueueIndexRange<T>, &QueueIndexRange<T>))
        requires
            self is Split,
        ensures
            *self == (IndexToRemoveValue::Split { index: r.0, left: *r.1, right: *r.2 }),
    {
        match self {
            IndexToRemoveValue::Split { index, left, right } => (*index, left, right),
            _ => unreached(),
        }
    }
}

} // verus!
