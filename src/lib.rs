//! A validated key/value front door with a dependency health probe.
//!
//! - [`validator`] decides whether a candidate key/value pair may be accepted.
//! - [`health`] turns the outcome of one round trip to a dependency into a health status.
//! - [`reply`] decides the status code and body of each request the service answers.
//!
//! Routing, serialisation, the connection pool and the network stay outside this crate: they
//! hand it plain values and take plain values back.

pub mod health;
pub mod reply;
pub mod string_body;
pub mod validator;
