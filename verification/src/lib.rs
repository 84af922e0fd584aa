//! A typed client and request-dispatch layer for the Fly.io GraphQL API.
//!
//! The library holds the decisions and leaves the network to its caller:
//!
//! - [`service::FlyService::dispatch`] turns a method name and a bag of
//!   parameters into the [`api::client::Operation`] to perform, or into the
//!   failure that is known before anything is sent;
//! - [`api::client::FlyClient::request`] says what to send for an operation;
//! - [`api::client::execute_query`] judges the reply: transport and
//!   protocol failures first, then the partial-result rule;
//! - [`normalize`] reads the nodes of the upstream into the [`models`];
//! - [`service::FlyService::complete`] shapes the result of the call.
//!
//! Every function states in its contract what it returns, over the
//! mathematical views of its arguments. JSON values are those of
//! `serde_json`; what the library assumes of that crate is declared in
//! [`json`]. The text of an HTTP status is that of `reqwest`; what the
//! library assumes of it is declared in [`status`].

pub mod api;
pub mod envelope;
pub mod failure;
pub mod fields;
pub mod health;
pub mod json;
pub mod methods;
pub mod models;
pub mod normalize;
pub mod service;
pub mod status;
pub mod text;
