//! Client-side access layer for a home-lighting bridge's HTTP+JSON API.
//!
//! The library plans each request (method, full URL, JSON body), and turns
//! what the bridge answered into a typed result: it reconciles the two shapes
//! a response body can take and reduces per-item outcomes fail-fast.
//! Moving bytes over the network is left to the caller.
pub mod error;
pub mod outcome;
pub mod reconcile;
pub mod text;
pub mod json;
pub mod bridge;
