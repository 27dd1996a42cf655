//! The solver policies.

pub mod cleanapp_scheduler;
pub mod limit_order;
