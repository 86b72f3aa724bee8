//! Path operations, done by camino on UTF-8 paths.

use vstd::prelude::*;

verus! {

/// The path that camino builds by adjoining `rel` to `base`.
pub uninterp spec fn joined(base: Seq<char>, rel: Seq<char>) -> Seq<char>;

/// The path that camino gives as the parent of `path`, if it has one.
pub uninterp spec fn parent_of(path: Seq<char>) -> Option<Seq<char>>;

/// Relies on `camino::Utf8Path::join`: `rel` adjoined to `base`, a function
/// of the two paths alone.
#[verifier::external_body]
pub(crate) fn join_path(base: &str, rel: &str) -> (r: String)
    ensures
        r@ == joined(base@, rel@),
{
    camino::Utf8Path::new(base).join(rel).into_string()
}

/// Relies on `camino::Utf8Path::parent`: the path without its final
/// component, or none for a root or an empty path.
#[verifier::external_body]
pub(crate) fn parent_path(path: &str) -> (r: Option<String>)
    ensures
        r matches Some(p) ==> parent_of(path@) == Some(p@),
        r is None ==> parent_of(path@) is None,
{
    camino::Utf8Path::new(path).parent().map(|p| p.as_str().to_owned())
}

} // verus!
