//! The request execution engine: what is sent, how a response is read, and when an
//! attempt is made again.

pub mod builder;
pub mod handle;
pub mod engine;
pub mod request;
pub mod response;
pub mod token;
