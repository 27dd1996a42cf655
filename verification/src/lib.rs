//! Event dispatch, polling executors and commit serialization for
//! smart-transaction solvers.
//!
//! A listener admits ledger events and makes a solver for each; a timer
//! executor drives the solver through its protocol (poll a condition on
//! every tick, then commit once) and emits a status record on every
//! transition; a transaction guard serializes the commits; a reports ledger
//! collects the amounts that a scheduled batch pays out, without a bound on
//! their size; a stats aggregator keeps the latest record of every
//! executor.
//!
//! The library decides and computes on plain values. Reading clocks and
//! chains, sleeping, sending transactions and serving records are left to
//! its callers, which hand in what they read and carry out what the
//! library asks for.

pub mod big_amount;
pub mod call_breaker_listener;
pub mod clock;
pub mod codec;
pub mod contracts_abi;
pub mod flash_liquidity;
pub mod guard;
pub mod laminator_listener;
pub mod primitives;
pub mod reports_aggr;
pub mod signing;
pub mod solver;
pub mod solver_factory;
pub mod solvers;
pub mod stats;
pub mod text;
pub mod timer_executor;
