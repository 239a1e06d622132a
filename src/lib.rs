//! A small client library for reading secrets from a HashiCorp Vault server.
//!
//! The library holds the decisions of the client: how connection settings are
//! resolved from explicit values, environment values and defaults, which URLs
//! and headers a request carries, how a response status maps to an error, and
//! how the payload is taken out of the KV version 1 and version 2 envelopes.
//! Sending requests and decoding JSON bodies is left to the caller.
use vstd::prelude::*;

pub mod client;
pub mod config;
pub mod error;
pub mod schema;

pub use client::Vault;
pub use client::VaultBuilder;
pub use config::Config;
pub use error::VaultError;
