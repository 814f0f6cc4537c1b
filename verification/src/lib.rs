//! Password policy, password history, expiry and brute-force protection.

pub mod admin;
pub mod admin_laws;
pub mod arith;
pub mod attempts;
pub mod attempts_laws;
pub mod auth_event;
pub mod auth_journal;
pub mod bypass_cache;
pub mod bypass_laws;
pub mod cache_calls_laws;
pub mod consumer_laws;
pub mod enforcement_laws;
pub mod expiry_cache;
pub mod expiry_laws;
pub mod hashing;
pub mod history;
pub mod history_laws;
pub mod journal_laws;
pub mod lock_cache;
pub mod lock_laws;
pub mod login;
pub mod login_laws;
pub mod message_laws;
pub mod pending_cache_op;
pub mod pending_laws;
pub mod policy;
pub mod policy_laws;
pub mod queue_laws;
pub mod replay_laws;
pub mod ring_laws;
pub mod roles;
pub mod roles_laws;
pub mod search;
pub mod staging_laws;
pub mod stats;
pub mod text;
pub mod text_laws;
pub mod username;
pub mod worker;
pub mod worker_calls_laws;
pub mod worker_health;
pub mod worker_laws;
