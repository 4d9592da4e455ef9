//! A line-delimited JSON-RPC server core: request validation, method routing,
//! a catalogue of tools, response construction, and the per-line session logic.

pub mod json;
pub mod message;
pub mod tools;
pub mod dispatch;
pub mod session;
