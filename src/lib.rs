//! Ownership rules for reference-counted DirectWrite objects, and the small
//! pieces of logic that sit between those objects and their callers.
//!
//! The native calls themselves are made by the caller; this library decides
//! which reference-count operation each ownership step requires and keeps the
//! bookkeeping that guarantees every reference is released exactly once.

pub mod handle;
pub mod acquire;
pub mod ledger;
pub mod cursor;
pub mod types;
pub mod glyph_run;

pub use handle::{ComPtr, RefOp};
pub use types::{FontDescriptor, FontStretch, FontStyle, FontWeight};
