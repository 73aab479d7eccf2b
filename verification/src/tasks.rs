//! The tasks of the set, each as one activation: what the task does between
//! two suspension points, given the instant at which it does it.

pub mod periodic;
pub mod sporadic;
