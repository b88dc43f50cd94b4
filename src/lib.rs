//! Request dispatch for an authenticated session connection.
//!
//! Frames arrive already decoded into [`protocol::Request`] values (or a
//! [`protocol::DecodeError`]); the dispatcher decides which token-store call
//! each request needs and which response, if any, answers the store's reply.
//! The per-connection lifecycle lives in [`websocket::WebSocket`].
use vstd::prelude::*;

pub mod protocol;
pub mod websocket;
pub mod laws;

verus! {

} // verus!
