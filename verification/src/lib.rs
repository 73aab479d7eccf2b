//! A fixed-priority, preemptive, single-core real-time task set: periodic and
//! sporadic tasks that hand work over bounded channels and share one
//! activation log under a priority-ceiling lock, on a millisecond clock.

pub mod channel;
pub mod resource_lock;
pub mod scheduler;
pub mod task_set;
pub mod tasks;
pub mod time;
pub mod types;
pub mod utils;
