//! The data that the tasks share and exchange.

pub mod activation_log;
pub mod generic;
pub mod production_workload;
