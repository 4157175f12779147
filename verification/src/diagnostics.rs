//! Lifecycle diagnostics: what a run leaves behind, how the next start reads
//! it, and which old runs are kept.
pub mod journal;
pub mod log;
pub mod record;
pub mod retention;
pub mod startup;

pub use startup::{init, DiagnosticsGuard};
