//! Errors of workspace resolution.

use vstd::prelude::*;
use crate::member::MemberParseError;

verus! {

/// Why a workspace or a package could not be resolved.
#[derive(Clone, Debug)]
pub enum ProjectError {
    /// A member directive of a workspace manifest is malformed.
    MemberDirective(MemberParseError),
    /// A required field is absent from a package manifest; the location is
    /// the manifest's first character.
    MissingField { manifest_path: String, field: String, line: usize, column: usize },
    /// A manifest path has no parent directory.
    NoParentDir { path: String },
    /// A manifest could not be read or parsed.
    Load { manifest_path: String, details: String },
    /// An ecosystem resolver failed.
    Delegated { details: String },
    /// No manifest of the given name was found upward from a directory.
    NotFound { filename: String, start_dir: String },
}

} // verus!
