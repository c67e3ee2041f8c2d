//! Shared core of two small CAM/CNC output helpers: picking the freshest
//! matching file in an output directory, the sweep of stale logs, the
//! primary/fallback action cascade, and the self-repairing settings store.

pub mod errors;
pub mod filters;
pub mod cascade;
pub mod store;
pub mod sys;
pub mod cnc_postout;
pub mod igs_postexp;
