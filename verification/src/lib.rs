//! Core of a terminal client that authenticates against an OAuth2 identity
//! provider over a local loopback callback, with a device-grant alternative,
//! secure credential persistence, and retry/backoff for transient failures.
//!
//! The verified library holds the decision logic: port scanning, callback
//! validation, flow state machines, the retry schedule, the credential
//! framing, and the error taxonomy. The surrounding binary performs the
//! actual I/O (HTTP listener, token-endpoint requests, browser launch,
//! terminal rendering) and drives these state machines.

pub mod auth_code;
pub mod callback_server;
pub mod config;
pub mod device_flow;
pub mod error;
pub mod models;
pub mod ports;
pub mod state;
pub mod retry;
pub mod text;
pub mod token_manager;
