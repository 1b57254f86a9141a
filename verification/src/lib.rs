//! Core of an append-only, file-backed log sink.
//!
//! The library holds the sink's decision logic: the fixed severity
//! threshold, the exact text of each emitted line, and what one log call
//! contributes to the file. An unverified shell owns the file handle,
//! performs the writes, and adapts records coming from a logging facade.

pub mod record;
pub mod severity;
pub mod sink;
