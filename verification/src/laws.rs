//! What the functions of the library promise, call by call.
//!
//! Each law takes the arguments and the results of calls, and says what holds between them. It is
//! proved from the contracts alone.

pub mod codes;
pub mod messages;
pub mod requests;
pub mod sockets;
pub mod texts;
