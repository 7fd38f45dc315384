//! Command interpretation for a Redis-compatible, in-process key-value store.
//!
//! A decoded request is a sequence of [`protocol::Resp`] tokens. [`command::Command::parse`]
//! turns such a sequence into a typed [`command::Command`], or into the
//! [`protocol::error::RedisCommandError`] that says why the request is not one.
//! Every function of the request path is total: a malformed request is an error
//! value, never a panic.

pub mod protocol;
pub mod text;
pub mod decimal;
pub mod expiry;
pub mod command;
pub mod laws;
