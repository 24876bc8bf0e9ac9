//! A payment processor that connects a Cashu mint to Blink's Lightning
//! infrastructure: what it decides, as functions with proved contracts.
//!
//! The library sends and receives nothing. Whoever runs it performs the HTTP
//! exchanges, the WebSocket connection and the timing that it asks for, and
//! hands it what came of them.
//!
//! - [`settings`]: defaults, overridden by a file, overridden by the environment
//! - [`startup`]: what the server listens on and which certificates it shows
//! - [`blink`]: Blink's GraphQL API, over HTTP and over WebSocket
//! - [`backend`]: Blink as the payment backend of a mint
//! - [`server`]: the payment processor service
//! - [`payment`], [`amount`], [`bolt11`], [`payment_hash`]: what is paid
//! - [`laws`]: what holds of the operations
//! - [`backoff`], [`json`], [`text`]: what the others build on

pub mod amount;
pub mod backend;
pub mod backoff;
pub mod blink;
pub mod bolt11;
pub mod json;
pub mod laws;
pub mod payment;
pub mod payment_hash;
pub mod server;
pub mod settings;
pub mod startup;
pub mod text;
