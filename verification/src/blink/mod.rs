//! Blink's GraphQL API over HTTP and over WebSocket.

pub mod rest;
pub mod ws;
