//! Discovery and normalization of release-packaging workspaces.
//!
//! A workspace manifest lists members as `prefix:path` directives; each
//! member is a generic package, a compiled-ecosystem workspace, or the
//! packages of an interpreted ecosystem. The library parses the directives,
//! normalizes package manifests, merges auto-detected and companion
//! metadata, and assembles the workspace from what was loaded for each
//! member, in declaration order.

pub mod error;
pub mod member;
pub mod net;
pub mod package;
pub mod paths;
pub mod workspace;
