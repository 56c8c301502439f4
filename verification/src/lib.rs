//! A client library for the Aqara Open API: signed requests, retries for idempotent
//! calls, and one taxonomy for every way in which a call can fail.
//!
//! The library decides and computes; it sends nothing. A transport sends each request
//! that `client::handle::ClientCore::prepare` builds and hands what came back to
//! `ClientCore::step`.

pub mod api;
pub mod auth;
pub mod basic;
pub mod client;
pub mod error;
pub mod status;
pub mod transport;
pub mod types;
pub mod util;

pub use crate::client::builder::ClientBuilder;
pub use crate::client::handle::ClientCore;
pub use crate::error::{Error, ErrorKind};
