use crate::interval_list::{
    coalesced, lemma_empty_is_placeholder, lemma_one_representation, lemma_sorted_already,
    placeholder, total,
};
use crate::queue_value::QueueValue;
use crate::queue_with_intervals::QueueWithIntervals;
use vstd::prelude::*;

verus! {

/// Restoring a well-formed queue from its snapshot gives a well-formed queue
/// that holds the same values, and as many. Unless the queue was empty, it
/// gives the very same intervals.
pub proof fn lemma_restore_of_snapshot<T: QueueValue>(
    queue: QueueWithIntervals<T>,
    restored: QueueWithIntervals<T>,
)
    requires
        queue.wf(),
        restored.restored_from(queue.snapshot()),
    ensures
        restored.wf(),
        restored.members() == queue.members(),
        total(restored.intervals@) == total(queue.intervals@),
        !placeholder(queue.intervals@) ==> restored.intervals@ == queue.intervals@,
{
    if placeholder(queue.intervals@) {
        assert(restored.intervals@.drop_last() =~= queue.intervals@.drop_last());
    } else {
        lemma_sorted_already(restored.intervals@, queue.intervals@);
    }
}

/// Putting a value into a queue that is not empty and does not hold it, and
/// then removing the value, gives back the very intervals of before.
pub proof fn lemma_enqueue_then_remove<T: QueueValue>(
    before: QueueWithIntervals<T>,
    between: QueueWithIntervals<T>,
    after: QueueWithIntervals<T>,
    value: T,
)
    requires
        coalesced(before.intervals@),
        !before.has(value.as_int()),
        between.wf(),
        between.members() == before.members().insert(value.as_int()),
        after.lost(between, value.as_int(), value.as_int()),
    ensures
        after.intervals@ == before.intervals@,
{
    assert(after.members() =~= before.members());
    lemma_empty_is_placeholder(before.intervals@);
    lemma_one_representation(after.intervals@, before.intervals@);
}

} // verus!
