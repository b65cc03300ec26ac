//! A minimal single-endpoint HTTP responder core.
//!
//! Given the raw lines of one request and the current availability flag,
//! the library parses the start line, classifies the caller, produces the
//! response to send, decides whether to transmit it and whether to log the
//! exchange, and returns the updated availability flag. Socket handling,
//! flag parsing and the actual writing of bytes live outside the library.

pub mod classify;
pub mod content;
pub mod dispatch;
pub mod laws;
pub mod log;
pub mod options;
pub mod render;
pub mod text;
