//! Keeps a dynamically loaded module usable while its backing file is rebuilt
//! on disk: every load goes through one of two alternating shadow copies, so
//! the watched file itself is never mapped into the process.
pub mod error;
pub mod library;

pub use error::{Error, Result};
