//! Recurring dollar-cost-averaging (DCA) conversion plans.
//!
//! A plan periodically converts a fixed amount of one asset into another on a
//! schedule, without further end-user intervention.  The library is the core
//! of such a system: durable storage of plans and global configuration, the
//! authorization rules for every mutating call, and the decision logic of the
//! four lifecycle operations (create, update, cancel) and of the periodic
//! `convert` trigger, including balance refill and swap authorization.
//!
//! The host ledger executes one invocation at a time and commits or discards
//! all of its effects together.  Scheduling and swapping are owned by outside
//! services; the host never allows a synchronous cross-contract call, so every
//! interaction with those services is expressed as a returned
//! [`instr::Instruction`] value, and every fact the logic needs from them
//! (a simulation outcome, a task's manager, a task's funding balance) is a
//! plain argument that the surrounding host glue obtained beforehand.

pub mod app;
pub mod config;
pub mod error;
pub mod frequency;
pub mod instr;
pub mod laws;
pub mod model;
pub mod store;
pub mod types;
