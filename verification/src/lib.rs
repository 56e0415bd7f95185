//! A synchronous bridge over an asynchronous, callback-driven service:
//! one JSON command per input line, one JSON response per output line.
//!
//! A command is validated and either answered at once or turned into one
//! described operation against the external service; the service's reply
//! is played through a bounded poll loop with a completion token, and
//! whatever came of it — data, a service error, or a timeout — is wrapped
//! into exactly one response bearing the command's identifier. The
//! session lifecycle, the dispatch table, the poll discipline and the
//! wire format are all specified and proved; the laws module states the
//! protocol's guarantees once over all inputs.
pub mod args;
pub mod bridge;
pub mod json;
pub mod laws;
pub mod ops;
pub mod parse;
pub mod poll;
pub mod protocol;
pub mod results;
pub mod ser;
pub mod service;
pub mod session;
pub mod text;
pub mod token;
