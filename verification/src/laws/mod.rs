//! What holds of the operations, stated over their arguments and results.
//!
//! A law that speaks of an operation takes the arguments and the result of a
//! call, and says how they relate.

pub mod backend;
pub mod json;
pub mod payment;
pub mod rest;
pub mod server;
pub mod settings;
pub mod text;
pub mod ws;
