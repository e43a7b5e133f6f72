//! The computing part of an Emscripten binding: what a WebSocket and a synchronous fetch hand to
//! the runtime, and what they make of the values that the runtime hands back.

pub mod fetch;
pub mod laws;
pub mod result;
pub mod text;
pub mod websocket;

pub use result::{EmError, EmscriptenResult};
