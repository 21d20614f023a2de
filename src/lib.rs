//! Credential broker core for an SSO identity workflow: the token and session
//! cache with its cascading validity rules, a decaying counter lock in front of
//! the token-creation path, the authorization state machine, the batch
//! resolver and the result bookkeeping of the worker pool.

pub mod alias;
pub mod auth;
pub mod batch;
pub mod cache;
pub mod cli;
pub mod creds;
pub mod eks;
pub mod expiry;
pub mod identity;
pub mod lock;
pub mod table;
pub mod worker;
