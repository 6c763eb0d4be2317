//! The two pipelines over checkpoints: the append-only capture of every
//! decoded event, and the sequential reconciler that maintains the
//! materialized offer table.


pub mod offer_handler;
pub mod offers_handler;
