//! Fly.io API client.

pub mod client;

pub use client::FlyClient;
