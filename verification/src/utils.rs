//! Helpers of the task set.

pub mod activation_condition;
