//! Typed bindings for the JSON-RPC API of a derivatives exchange.
//!
//! * `request` binds each request type to the method it calls and to the
//!   payload that answers it.
//! * `channel` is the grammar of subscription channel names, with `text` as
//!   its model of splitting and joining.
//! * `wire` decodes values that arrive as a text or as a number.
//! * `models` holds the payloads themselves.

pub mod channel;
pub mod models;
pub mod request;
pub mod text;
pub mod wire;
