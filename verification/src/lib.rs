//! A verified core for an HTTP-request replay service.
//!
//! The library stores reusable request definitions, materializes them into
//! concrete outbound requests, and records each request/response exchange
//! together with its timestamps as an execution record.  The surrounding
//! process (argument parsing, the HTTP server, the database connection and
//! the outbound network call) lives outside the library and hands results in
//! as plain values.

pub mod config;
pub mod entity;
pub mod error;
pub mod foreign;
pub mod json;
pub mod materialize;
pub mod recorder;
pub mod resp;
pub mod service;
pub mod store;
pub mod transport;

pub use error::Error;
