use crate::iterator::QueueIndexRangeIterator;
use crate::queue_value::QueueValue;
use vstd::pervasive::unreached;
use vstd::prelude::*;

verus! {

/// Where a value lies relative to a non-empty interval.
#[derive(Debug, PartialEq)]
pub enum QueueIndexRangeCompare {
    Below,
    Inside,
    Above,
}

/// What the owner of an interval has to do after one value was removed from it.
pub enum RemoveResult<T: QueueValue> {
    /// A boundary was shrunk; the interval stays where it is.
    NoUpdate,
    /// The interval was cut in two: it now holds the lower part, and the upper
    /// part given here has to be inserted right after it.
    InsertNew(QueueIndexRange<T>),
    /// The interval lost its only value and is empty now.
    RemoveItem,
}

/// The closed interval of all values from `from_id` to `to_id`, both included.
/// It is empty when `from_id` is greater than `to_id`.
#[derive(Debug)]
pub struct QueueIndexRange<T: QueueValue> {
    pub from_id: T,
    pub to_id: T,
}

impl<T: QueueValue> Clone for QueueIndexRange<T> {
    fn clone(&self) -> (r: Self)
        ensures
            r == *self,
    {
        QueueIndexRange { from_id: self.from_id, to_id: self.to_id }
    }
}

impl<T: QueueValue> QueueIndexRange<T> {
    /// The integer of the lower bound.
    pub open spec fn lo(self) -> int {
        self.from_id.as_int()
    }

    /// The integer of the upper bound.
    pub open spec fn hi(self) -> int {
        self.to_id.as_int()
    }

    /// The interval holds no value.
    pub open spec fn vacant(self) -> bool {
        self.hi() < self.lo()
    }

    /// The interval holds the integer `v`.
    pub open spec fn holds(self, v: int) -> bool {
        self.lo() <= v <= self.hi()
    }

    /// How many values the interval holds.
    pub open spec fn count(self) -> nat {
        if self.vacant() {
            0
        } else {
            (self.hi() - self.lo() + 1) as nat
        }
    }

    /// The empty interval that `make_empty` leaves behind an interval ending
    /// at `to`: it keeps `to` as its upper bound and starts one above it. Where
    /// `to` is the largest value, both bounds are moved down by one instead.
    pub open spec fn emptied_at(self, to: int) -> bool {
        &&& self.lo() == self.hi() + 1
        &&& self.hi() == if to < T::highest() {
            to
        } else {
            to - 1
        }
    }

    /// The empty interval that `new_empty` makes for `start`: it starts at
    /// `start` and ends one below it. Where `start` is the smallest value, both
    /// bounds are moved up by one instead.
    pub open spec fn anchored_at(self, start: int) -> bool {
        &&& self.lo() == self.hi() + 1
        &&& self.hi() == if start > T::lowest() {
            start - 1
        } else {
            start
        }
    }

    /// The interval from `from_id` to `to_id`.
    pub fn restore(from_id: T, to_id: T) -> (r: QueueIndexRange<T>)
        ensures
            r.from_id == from_id,
            r.to_id == to_id,
    {
        QueueIndexRange { from_id, to_id }
    }

    /// An empty interval that starts at `start_id` and ends just below it.
    /// Where `start_id` is the smallest value, it starts one above `start_id`
    /// and ends at `start_id`.
    pub fn new_empty(start_id: T) -> (r: QueueIndexRange<T>)
        ensures
            r.anchored_at(start_id.as_int()),
    {
        proof {
            T::order_laws();
            T::arith_laws();
        }
        if let Some(prev) = start_id.checked_sub_one() {
            QueueIndexRange { from_id: start_id, to_id: prev }
        } else {
            QueueIndexRange { from_id: start_id + T::one(), to_id: start_id }
        }
    }

    /// The interval that holds `value` and nothing else.
    pub fn new_with_single_value(value: T) -> (r: QueueIndexRange<T>)
        ensures
            r.from_id == value,
            r.to_id == value,
    {
        QueueIndexRange { from_id: value, to_id: value }
    }

    /// Whether the interval holds `id`.
    pub fn is_in_my_interval(&self, id: T) -> (r: bool)
        ensures
            r == self.holds(id.as_int()),
    {
        proof {
            T::order_laws();
        }
        id >= self.from_id && id <= self.to_id
    }

    /// Whether `id` lies inside the interval or exactly one step outside
    /// either bound.
    pub fn is_in_my_interval_to_enqueue(&self, id: T) -> (r: bool)
        ensures
            r == (self.holds(id.as_int()) || id.as_int() == self.lo() - 1 || id.as_int()
                == self.hi() + 1),
    {
        proof {
            T::order_laws();
        }
        if id >= self.from_id && id <= self.to_id {
            return true;
        }
        if let Some(from_minus_one) = self.from_id.checked_sub_one() {
            if id == from_minus_one {
                return true;
            }
        }
        if let Some(to_plus_one) = self.to_id.checked_add_one() {
            if id == to_plus_one {
                return true;
            }
        }
        false
    }

    /// Whether `id` lies inside the interval or exactly one step below it.
    pub fn can_be_joined_to_interval_from_the_left(&self, id: T) -> (r: bool)
        ensures
            r == (self.lo() - 1 <= id.as_int() <= self.hi()),
    {
        proof {
            T::order_laws();
        }
        if let Some(from_minus_one) = self.from_id.checked_sub_one() {
            from_minus_one <= id && id <= self.to_id
        } else {
            self.from_id <= id && id <= self.to_id
        }
    }

    /// Whether `id` lies inside the interval or exactly one step above it.
    pub fn can_be_joined_to_interval_from_the_right(&self, id: T) -> (r: bool)
        ensures
            r == (self.lo() <= id.as_int() <= self.hi() + 1),
    {
        proof {
            T::order_laws();
        }
        if let Some(to_plus_one) = self.to_id.checked_add_one() {
            self.from_id <= id && id <= to_plus_one
        } else {
            self.from_id <= id && id <= self.to_id
        }
    }

    /// Whether the interval, which is not empty, holds `id`.
    pub fn is_my_interval_to_remove(&self, id: T) -> (r: bool)
        requires
            !self.vacant(),
        ensures
            r == self.holds(id.as_int()),
    {
        proof {
            T::order_laws();
        }
        id >= self.from_id && id <= self.to_id
    }

    /// Takes `message_id` out of the interval that holds it.
    pub fn remove(&mut self, message_id: T) -> (r: RemoveResult<T>)
        requires
            old(self).holds(message_id.as_int()),
        ensures
            match r {
                RemoveResult::RemoveItem => {
                    &&& old(self).lo() == old(self).hi()
                    &&& final(self).emptied_at(old(self).hi())
                },
                RemoveResult::NoUpdate => {
                    &&& old(self).lo() < old(self).hi()
                    &&& message_id.as_int() == old(self).lo()
                        || message_id.as_int() == old(self).hi()
                    &&& final(self).lo() == if message_id.as_int() == old(self).lo() {
                        old(self).lo() + 1
                    } else {
                        old(self).lo()
                    }
                    &&& final(self).hi() == if message_id.as_int() == old(self).hi() {
                        old(self).hi() - 1
                    } else {
                        old(self).hi()
                    }
                },
                RemoveResult::InsertNew(upper) => {
                    &&& old(self).lo() < message_id.as_int() < old(self).hi()
                    &&& final(self).lo() == old(self).lo()
                    &&& final(self).hi() == message_id.as_int() - 1
                    &&& upper.lo() == message_id.as_int() + 1
                    &&& upper.hi() == old(self).hi()
                },
            },
    {
        proof {
            T::order_laws();
        }
        if self.from_id == message_id && self.to_id == message_id {
            self.make_empty();
            return RemoveResult::RemoveItem;
        }
        if self.from_id == message_id {
            match self.from_id.checked_add_one() {
                Some(next) => {
                    self.from_id = next;
                },
                None => unreached(),
            }
            return RemoveResult::NoUpdate;
        }
        if self.to_id == message_id {
            match self.to_id.checked_sub_one() {
                Some(prev) => {
                    self.to_id = prev;
                },
                None => unreached(),
            }
            return RemoveResult::NoUpdate;
        }
        match (message_id.checked_add_one(), message_id.checked_sub_one()) {
            (Some(msg_plus_one), Some(msg_minus_one)) => {
                let new_item = QueueIndexRange { from_id: msg_plus_one, to_id: self.to_id };
                self.to_id = msg_minus_one;
                RemoveResult::InsertNew(new_item)
            },
            _ => unreached(),
        }
    }

    /// Takes the smallest value out of the interval.
    pub fn dequeue(&mut self) -> (r: Option<T>)
        ensures
            old(self).vacant() ==> r.is_none() && *final(self) == *old(self),
            !old(self).vacant() ==> r == Some(old(self).from_id),
            !old(self).vacant() && old(self).lo() < T::highest() ==>
                final(self).lo() == old(self).lo() + 1 && final(self).to_id == old(self).to_id,
            !old(self).vacant() && old(self).lo() == T::highest() ==> final(self).emptied_at(
                old(self).hi(),
            ),
    {
        proof {
            T::order_laws();
        }
        if self.from_id > self.to_id {
            return None;
        }
        let result = self.from_id;
        match self.from_id.checked_add_one() {
            Some(next) => {
                self.from_id = next;
            },
            None => {
                self.make_empty();
            },
        }
        Some(result)
    }

    /// The smallest value of the interval, unless it is empty.
    pub fn peek(&self) -> (r: Option<T>)
        ensures
            r == if self.vacant() {
                None
            } else {
                Some(self.from_id)
            },
    {
        proof {
            T::order_laws();
        }
        if self.from_id > self.to_id {
            return None;
        }
        Some(self.from_id)
    }

    /// Puts `id` into the interval: an empty interval becomes the single value
    /// `id`, any other grows by one at the bound that `id` touches.
    pub fn enqueue(&mut self, id: T)
        requires
            old(self).vacant() || id.as_int() == old(self).lo() - 1
                || id.as_int() == old(self).hi() + 1,
        ensures
            old(self).vacant() ==> final(self).from_id == id && final(self).to_id == id,
            !old(self).vacant() && id.as_int() == old(self).hi() + 1 ==> final(self).from_id
                == old(self).from_id && final(self).to_id == id,
            !old(self).vacant() && id.as_int() == old(self).lo() - 1 ==> final(self).from_id
                == id && final(self).to_id == old(self).to_id,
    {
        proof {
            T::order_laws();
        }
        if self.is_empty() {
            self.from_id = id;
            self.to_id = id;
            return ;
        }
        if let Some(to_plus_one) = self.to_id.checked_add_one() {
            if to_plus_one == id {
                self.to_id = id;
                return ;
            }
        }
        self.from_id = id;
    }

    /// The interval from the start of `self` to the end of `next_item`, if
    /// `next_item` starts right after `self` ends.
    pub fn try_to_merge_with_next_item(&self, next_item: &QueueIndexRange<T>) -> (r: Option<
        QueueIndexRange<T>,
    >)
        ensures
            self.hi() + 1 == next_item.lo() ==> r == Some(
                QueueIndexRange { from_id: self.from_id, to_id: next_item.to_id },
            ),
            self.hi() + 1 != next_item.lo() ==> r.is_none(),
    {
        proof {
            T::order_laws();
        }
        if let Some(to_plus_one) = self.to_id.checked_add_one() {
            if to_plus_one == next_item.from_id {
                return Some(QueueIndexRange { from_id: self.from_id, to_id: next_item.to_id });
            }
        }
        None
    }

    /// Puts `id_to_join` into the interval if the interval is empty or the
    /// value touches one of its bounds, and says whether it did.
    pub fn try_join(&mut self, id_to_join: T) -> (r: bool)
        ensures
            r == (old(self).vacant() || id_to_join.as_int() == old(self).lo() - 1
                || id_to_join.as_int() == old(self).hi() + 1),
            !r ==> *final(self) == *old(self),
            old(self).vacant() ==> final(self).from_id == id_to_join && final(self).to_id
                == id_to_join,
            !old(self).vacant() && id_to_join.as_int() == old(self).lo() - 1 ==>
                final(self).from_id == id_to_join && final(self).to_id == old(self).to_id,
            !old(self).vacant() && id_to_join.as_int() == old(self).hi() + 1 ==>
                final(self).from_id == old(self).from_id && final(self).to_id == id_to_join,
    {
        proof {
            T::order_laws();
        }
        if self.is_empty() {
            self.from_id = id_to_join;
            self.to_id = id_to_join;
            return true;
        }
        if let Some(from_minus_one) = self.from_id.checked_sub_one() {
            if id_to_join == from_minus_one {
                self.from_id = id_to_join;
                return true;
            }
        }
        if let Some(to_plus_one) = self.to_id.checked_add_one() {
            if id_to_join == to_plus_one {
                self.to_id = id_to_join;
                return true;
            }
        }
        false
    }

    /// Whether the interval holds no value.
    pub fn is_empty(&self) -> (r: bool)
        ensures
            r == self.vacant(),
    {
        proof {
            T::order_laws();
        }
        self.to_id < self.from_id
    }

    /// Empties the interval, keeping its upper bound as a mark of the last
    /// value it held.
    pub fn make_empty(&mut self)
        ensures
            final(self).emptied_at(old(self).hi()),
            old(self).hi() < T::highest() ==> final(self).to_id == old(self).to_id,
    {
        proof {
            T::order_laws();
        }
        match self.to_id.checked_add_one() {
            Some(to_plus_one) => {
                self.from_id = to_plus_one;
            },
            None => {
                self.from_id = self.to_id;
                match self.to_id.checked_sub_one() {
                    Some(prev) => {
                        self.to_id = prev;
                    },
                    None => unreached(),
                }
            },
        }
    }

    /// Whether `id` lies below the interval without touching it.
    pub fn is_before(&self, id: T) -> (r: bool)
        ensures
            r == (id.as_int() < self.lo() - 1),
    {
        proof {
            T::order_laws();
        }
        if let Some(from_minus_one) = self.from_id.checked_sub_one() {
            id < from_minus_one
        } else {
            id < self.from_id
        }
    }

    /// On which side of the interval `id` lies, or that it lies inside.
    /// Against an empty interval there is no answer.
    pub fn compare_with(&self, id: T) -> (r: Option<QueueIndexRangeCompare>)
        ensures
            self.vacant() <==> r.is_none(),
            !self.vacant() && id.as_int() < self.lo() ==> r == Some(QueueIndexRangeCompare::Below),
            !self.vacant() && id.as_int() > self.hi() ==> r == Some(QueueIndexRangeCompare::Above),
            self.holds(id.as_int()) ==> r == Some(QueueIndexRangeCompare::Inside),
    {
        proof {
            T::order_laws();
        }
        if self.is_empty() {
            return None;
        }
        if id < self.from_id {
            return Some(QueueIndexRangeCompare::Below);
        }
        if id > self.to_id {
            return Some(QueueIndexRangeCompare::Above);
        }
        Some(QueueIndexRangeCompare::Inside)
    }

    /// Whether `range_to_insert` reaches from the start of `self`, or below
    /// it, to its end, or above it.
    pub fn covered_with_range_to_insert(&self, range_to_insert: &QueueIndexRange<T>) -> (r: bool)
        ensures
            r == (range_to_insert.lo() <= self.lo() && range_to_insert.hi() >= self.hi()),
    {
        proof {
            T::order_laws();
        }
        range_to_insert.from_id <= self.from_id && range_to_insert.to_id >= self.to_id
    }

    /// An iterator over the values of the interval, in ascending order.
    pub fn into_iter(self) -> (r: QueueIndexRangeIterator<T>)
        ensures
            r.rest() == self,
    {
        QueueIndexRangeIterator::new(&self)
    }

    /// `EMPTY` for an empty interval, else the two bounds with a hyphen
    /// between them.
    pub fn to_string(&self) -> (r: String)
        ensures
            self.vacant() ==> r@ == "EMPTY"@,
    {
        if self.is_empty() {
            return "EMPTY".to_owned();
        }
        bounds_text(self.from_id, self.to_id)
    }

    /// The number of values in the interval, or `usize::MAX` if there are more
    /// than that.
    pub fn len(&self) -> (r: usize)
        ensures
            r == if self.count() <= usize::MAX {
                self.count()
            } else {
                usize::MAX as nat
            },
    {
        proof {
            T::order_laws();
        }
        if self.from_id > self.to_id {
            return 0;
        }
        let mut count: usize = 1;
        let mut current = self.from_id;
        while current < self.to_id
            invariant
                self.lo() <= current.as_int() <= self.hi(),
                count == if current.as_int() - self.lo() + 1 <= usize::MAX {
                    current.as_int() - self.lo() + 1
                } else {
                    usize::MAX as int
                },
            decreases self.hi() - current.as_int(),
        {
            proof {
                T::order_laws();
            }
            match current.checked_add_one() {
                Some(next) => {
                    current = next;
                },
                None => unreached(),
            }
            count = count.saturating_add(1);
        }
        count
    }

    /// The number of values in the interval, as a value of the interval's own
    /// type.
    pub fn len_as_t(&self) -> (r: T)
        requires
            self.count() <= T::highest(),
        ensures
            r.as_int() == self.count(),
    {
        proof {
            T::order_laws();
            T::arith_laws();
        }
        if self.from_id > self.to_id {
            return T::zero();
        }
        let one = T::one();
        self.to_id - self.from_id + one
    }
}

/// `format!` of std, with the two bounds in their `Debug` form and ` - `
/// between them. Nothing is claimed of the text that it gives.
#[verifier::external_body]
fn bounds_text<T: QueueValue>(from_id: T, to_id: T) -> (r: String) {
    format!("{:?} - {:?}", from_id, to_id)
}

} // verus!
