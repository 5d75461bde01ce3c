//! Paths scoped to a temporary root.

use crate::paths::join_of;
use crate::paths::join_utf8;
use vstd::prelude::*;

verus! {

/// A path within a temporary directory.
///
/// The wrapped value is always valid UTF-8; the path it names need not exist
/// on disk. Values are immutable once constructed and compare by their
/// lexical path value.
#[derive(Clone, Debug, Eq, Hash, Ord, PartialEq, PartialOrd)]
pub struct ChildPath {
    path: String,
}

impl View for ChildPath {
    type V = Seq<char>;

    closed spec fn view(&self) -> Seq<char> {
        self.path@
    }
}

impl ChildPath {
    /// Wrap a path for use with fixture operations.
    pub fn new(path: String) -> (r: Self)
        ensures
            r@ == path@,
    {
        ChildPath { path }
    }

    /// Access the path.
    pub fn as_path(&self) -> (r: &str)
        ensures
            r@ == self@,
    {
        self.path.as_str()
    }
}

/// A value that addresses one UTF-8 path.
pub trait HasUtf8Path {
    /// The UTF-8 path this value addresses.
    spec fn spec_path(&self) -> Seq<char>;
}

impl HasUtf8Path for ChildPath {
    open spec fn spec_path(&self) -> Seq<char> {
        self@
    }
}

/// Access paths within a temporary directory.
pub trait PathChild: HasUtf8Path {
    /// Access a path within the temporary directory, by joining `path` onto
    /// this value's own path.
    fn child(&self, path: &str) -> (r: ChildPath)
        ensures
            r@ == join_of(self.spec_path(), path@),
    ;
}

impl PathChild for ChildPath {
    fn child(&self, path: &str) -> (r: ChildPath) {
        ChildPath { path: join_utf8(self.path.as_str(), path) }
    }
}

} // verus!
