//! A reconciliation engine for configuration-declared symbolic links.
//!
//! A configuration node declares `links` (target path to link path) and
//! `dependencies` (label to subdirectory holding its own node).  The engine
//! walks the dependency tree, resolves each declared link against the current
//! state of the link location, decides what to do under the active conflict
//! policy, and applies the decision.  All decisions and effects are computed
//! over an explicit filesystem model, so that the deploy and undeploy runs are
//! verified end to end; a thin driver may replay the same decisions against a
//! real filesystem.

pub mod config;
pub mod engine;
pub mod file;
pub mod laws;
pub mod log;
pub mod paths;
pub mod report;
pub mod resolve;
pub mod run_mode;
pub mod session;
pub mod tree;
