//! Orchestration core of a batch source-file reformatter.
//!
//! Given one input (a file, a directory, or a glob pattern), the library
//! resolves an effective formatting configuration, enumerates candidate
//! files, decides one outcome per candidate, and renders the per-file
//! status lines and the final summary. The syntax-formatting engine, the
//! filesystem, and the worker pool are external collaborators: the
//! functions here take their results as plain values and are verified for
//! every value they may hand back.

pub mod batch;
pub mod discovery;
pub mod expand;
pub mod report;
pub mod settings;
