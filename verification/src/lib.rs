//! Driver logic for a compiler pipeline: resolution of optimization
//! toggles and diagnostic severities from ordered command-line flags,
//! selection and sequencing of compilation stages per mode, and the
//! decision rules around hand-off to an external code-generation and
//! execution tool.

pub mod bend_api;
pub mod driver;
pub mod opts;
pub mod pipeline;
pub mod warn;
