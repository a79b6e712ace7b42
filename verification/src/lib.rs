//! Lifecycle management for an externally installed `gemini` command-line
//! tool: discovering candidate installations, ranking them, resolving one
//! authoritative binary path, managing the single allowed child-process
//! session with line-streamed output, and adapting a persisted configuration
//! document.
//!
//! All decision logic lives here, stated and proved; the surrounding
//! application performs the actual filesystem, database and process I/O and
//! hands the observed plain values to these functions.

pub mod config;
pub mod discover;
pub mod errors;
pub mod install;
pub mod order;
pub mod paths;
pub mod resolve;
pub mod session;
pub mod status;
