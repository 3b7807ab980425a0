//! Composable rendering of uncaught-failure (panic) diagnostics.
//!
//! A host program picks a format profile -- `Empty`, `Simple`, `Debug` or
//! `JustError` -- and registers it as the process-wide panic handler.  Each
//! profile composes five independent segment policies (backtrace, prefix,
//! location, payload, suffix) that write, in that fixed order, into one
//! output sink scoped to a single rendering.  Every rendering function here
//! carries a contract pinning the exact bytes it produces.

pub mod failure;
pub mod formatter;
pub mod hook;
pub mod payload;
pub mod sink;
pub mod text;
pub mod trace;
