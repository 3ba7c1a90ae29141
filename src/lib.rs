//! Keeps one particular monitor, picked by its hardware serial number, at a
//! fixed resolution, bit depth and refresh rate.
//!
//! The library holds the decisions: which display is managed, whether its
//! current mode is already right, which supported mode to switch to, and the
//! order of the configuration transaction. The calls into the display
//! service are made by the caller, which feeds their results back in.
pub mod commit_error;
pub mod enforcer;
pub mod laws;
pub mod mode;
