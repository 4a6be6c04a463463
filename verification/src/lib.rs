//! A typed client library for a JSON-RPC 2.0 node service.
//!
//! The library owns the request framing, identifier correlation, response
//! validation and error unwrapping of the protocol; the network exchange
//! itself (an HTTP one-shot post, or a persistent duplex channel) is left to
//! the owning application, which moves the encoded text produced here across
//! the wire and hands the reply text back.

pub mod error;
pub mod json;
pub mod encode;
pub mod decode;
pub mod client;
pub mod methods;
pub mod duplex;
pub mod display;
pub mod text;
