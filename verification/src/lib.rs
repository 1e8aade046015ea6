//! A command-line client library for a remote ledger-query HTTP API.
//!
//! The crate holds the verified core of the client: the configuration
//! store (known servers and accounts and their resolution rules), the
//! paging option model, and the request execution engine with its three
//! dispatch strategies (single, paged, streamed). Network transport and
//! rendering are consumed as capabilities (`client::Client`,
//! `render::Renderer`) so that the engine's control flow is verified
//! independently of any particular HTTP client or output target.

pub mod account;
pub mod client;
pub mod commands;
pub mod config;
pub mod error;
pub mod horizon;
pub mod render;
pub mod request;
pub mod stellar;
