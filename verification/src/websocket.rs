//! A WebSocket of the browser.

pub mod error;
pub mod event;
pub mod message;
pub mod record;
pub mod stream;
