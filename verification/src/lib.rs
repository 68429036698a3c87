//! Verified rules of the agent's SQLite store: row types, schema versioning,
//! the HMAC salt and digests, query text built from user input, scheduler
//! and daemon-lock decisions, ledger gating and chaining, memory text rules,
//! pairing and skill-audit decisions.
//!
//! The statements themselves are executed by the application around this
//! library; every decision and every text it derives is computed here.

pub mod crypto;
pub mod events;
pub mod hex;
pub mod memory;
pub mod models;
pub mod pairing;
pub mod query;
pub mod schema;
pub mod skill_audit;
pub mod tasks;
pub mod text;
