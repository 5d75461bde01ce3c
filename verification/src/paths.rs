//! Path arithmetic, delegated to camino.
//!
//! Joining and taking the parent of a UTF-8 path are camino's business; the
//! crate names their results so that contracts elsewhere can speak of them
//! exactly.

use vstd::prelude::*;

verus! {

/// The path that camino's `Utf8Path::join` produces from `base` and `rel`.
pub uninterp spec fn join_of(base: Seq<char>, rel: Seq<char>) -> Seq<char>;

/// The path that camino's `Utf8Path::parent` produces from `path`, if any.
pub uninterp spec fn parent_path_of(path: Seq<char>) -> Option<Seq<char>>;

/// Relies on camino's `Utf8Path::join`: the joined path is a function of the
/// two path strings alone.
#[verifier::external_body]
pub(crate) fn join_utf8(base: &str, rel: &str) -> (r: String)
    ensures
        r@ == join_of(base@, rel@),
{
    camino::Utf8Path::new(base).join(rel).into_string()
}

/// Relies on camino's `Utf8Path::parent`: the parent is a function of the
/// path string alone, and is absent exactly when the path is a root or empty.
#[verifier::external_body]
pub(crate) fn parent_of(path: &str) -> (r: Option<String>)
    ensures
        match r {
            Some(p) => parent_path_of(path@) == Some(p@),
            None => parent_path_of(path@) is None,
        },
{
    camino::Utf8Path::new(path).parent().map(|p| p.as_str().to_owned())
}

} // verus!
