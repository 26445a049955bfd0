//! Leveled, timestamped diagnostic log lines for a desktop save editor.
//!
//! The crate decides everything about one log call except the file
//! operations themselves: which label a severity code selects, how an entry
//! reads, whether the file is created or appended to, and what follows a
//! failure. The caller carries out the file operations and reports back.

pub mod clock;
pub mod entry;
pub mod severity;
pub mod writer;
pub mod file_model;
