//! Propagation of a version change through a workspace.
//!
//! A package gets a new version, and every manifest of the workspace that
//! depends on it through a path has its version requirement brought up to
//! it. The library decides; reading, locating and writing manifests is left
//! to the caller, who is told what to do step by step by a
//! [`driver::Driver`] and answers with what he found.

pub mod args;
pub mod driver;
pub mod matcher;
pub mod package;
pub mod plan;
pub mod requirement;
pub mod target;
pub mod version;
