//! Penelope: deterministic, replayable saga decisions for long-running
//! workflows, with typed identities, append-only outcome logs and
//! backend-neutral port contracts.

pub mod domain;
pub mod ids;
pub mod digest;
pub mod engine;
pub mod graph;
pub mod receipts;
pub mod outbox;
pub mod reconciliation;
pub mod commit;
pub mod statechronicle;
pub mod review;
pub mod timers;
