//! One API over a plain `reqwest` client and a `reqwest_middleware` client.
//!
//! A [`Client`] holds either kind of client; every [`RequestBuilder`] it makes is of the
//! same kind, and stays so through every configuration call.
pub mod builder;
pub mod client;
pub mod error;
pub mod outside;

pub use anyhow::Error as MiddlewareError;
pub use builder::RequestBuilder;
pub use client::Client;
pub use error::Error;
pub use reqwest_middleware::ClientWithMiddleware as MiddlewareClient;
