pub mod enqueue_range;
pub mod index_range;
pub mod index_to_insert_value;
pub mod index_to_remove_value;
pub mod interval_list;
pub mod iterator;
pub mod laws;
pub mod queue_index_range;
pub mod queue_value;
pub mod queue_with_intervals;
pub mod remove_range;

pub use index_range::IndexRange;
pub use index_to_insert_value::IndexToInsertValue;
pub use index_to_remove_value::IndexToRemoveValue;
pub use queue_index_range::QueueIndexRange;
pub use queue_index_range::QueueIndexRangeCompare;
pub use queue_index_range::RemoveResult;
pub use queue_value::QueueValue;
pub use queue_with_intervals::QueueWithIntervals;
pub use queue_with_intervals::QueueWithIntervalsError;
pub use remove_range::IndexToRemoveRange;
