//! A client library for the Destiny 2 platform web API.
//!
//! The library builds authenticated requests, turns transport outcomes into
//! results, and decodes the JSON documents that the API returns into typed
//! values. Sending requests over the network is left to the caller.
pub mod activity;
pub mod character;
pub mod clan;
pub mod client;
pub mod item;
pub mod json;
pub mod manifest;
pub mod oauth;
pub mod text;
pub mod time;
pub mod user;
