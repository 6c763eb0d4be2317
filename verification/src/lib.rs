//! Indexer core for marketplace offers on a naming-service contract.
//!
//! Raw on-chain events (a type tag plus a binary payload) are classified and
//! decoded into six typed offer events, extracted from checkpoints in arrival
//! order, and applied one at a time to a materialized table of current offer
//! states, one row per negotiation between a buyer and a domain name.

pub mod address;
pub mod checkpoint;
pub mod events;
pub mod handlers;
pub mod laws;
pub mod models;
pub mod store;
pub mod text;
pub mod wire;
