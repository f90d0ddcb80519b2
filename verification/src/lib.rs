//! Epoch emission accounting for a DAO that mints a scheduled reward supply
//! and apportions it across sub-DAOs.
//!
//! The crate covers the economics engine itself: the emission-schedule lookup
//! that turns a timestamp into an authorized mint rate, the epoch clock that
//! partitions time into fixed windows and derives per-epoch record keys, the
//! hopping-window circuit breaker that rate-limits every transfer, the
//! delegation ledger whose staked total decays linearly over time, the
//! treasury pricing curve, and the orchestrator entry points that a scheduler
//! invokes at epoch boundaries. All of it is ordinary integer logic with
//! contracts; the host that owns accounts, signatures and token transfers
//! calls in with plain values and performs the transfers the engine permits.

pub mod error;
pub mod epoch;
pub mod keys;
pub mod schedule;
pub mod circuit_breaker;
pub mod delegation;
pub mod curve;
pub mod sub_dao;
pub mod orchestrator;
pub mod cron;
pub mod entity;
pub mod lazy;
