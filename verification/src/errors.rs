//! The failure model for fixture setup.
//!
//! Every fixture operation either succeeds or fails at a well-known stage.
//! A [`FixtureError`] names that stage through its [`FixtureKind`] and may
//! carry the rendered message of the underlying cause.

use vstd::prelude::*;
use vstd::string::StringExecFns;

verus! {

/// The stage of fixture initialization that failed.
#[derive(Copy, Clone, Debug, PartialEq, Eq, Structural)]
pub enum FixtureKind {
    /// Failed when walking the source tree.
    Walk,
    /// Failed when copying a file.
    CopyFile,
    /// Failed when writing to a file.
    WriteFile,
    /// Failed when creating a directory.
    CreateDir,
    /// Failed to cleanup a fixture.
    Cleanup,
    /// Failed to create a symlink.
    Symlink,
}

/// The message text describing each failure stage.
pub open spec fn kind_message(kind: FixtureKind) -> Seq<char> {
    match kind {
        FixtureKind::Walk => "error walking source tree"@,
        FixtureKind::CopyFile => "error copying file"@,
        FixtureKind::WriteFile => "error writing file"@,
        FixtureKind::CreateDir => "error creating directory"@,
        FixtureKind::Cleanup => "error cleaning up fixture"@,
        FixtureKind::Symlink => "error creating symlink to target"@,
    }
}

impl FixtureKind {
    /// Human-readable description of the failure stage.
    pub fn message(&self) -> (r: String)
        ensures
            r@ == kind_message(*self),
    {
        match self {
            FixtureKind::Walk => "error walking source tree".to_owned(),
            FixtureKind::CopyFile => "error copying file".to_owned(),
            FixtureKind::WriteFile => "error writing file".to_owned(),
            FixtureKind::CreateDir => "error creating directory".to_owned(),
            FixtureKind::Cleanup => "error cleaning up fixture".to_owned(),
            FixtureKind::Symlink => "error creating symlink to target".to_owned(),
        }
    }
}

/// Failure when initializing the fixture.
///
/// Carries the stage that failed and, optionally, the rendered message of
/// the underlying cause. A cause is attached at most once: attaching a new
/// one replaces the previous one.
#[derive(Debug)]
pub struct FixtureError {
    kind: FixtureKind,
    source: Option<String>,
}

/// The full display message of a fixture error.
pub open spec fn error_message(kind: FixtureKind) -> Seq<char> {
    "failed to initialize fixture: "@ + kind_message(kind)
}

impl FixtureError {
    /// The stage at which this error arose.
    pub closed spec fn spec_kind(&self) -> FixtureKind {
        self.kind
    }

    /// The rendered message of the underlying cause, if one was attached.
    pub closed spec fn spec_source(&self) -> Option<Seq<char>> {
        match self.source {
            Some(s) => Some(s@),
            None => None,
        }
    }

    /// Create a `FixtureError` with no cause attached.
    pub fn new(kind: FixtureKind) -> (r: Self)
        ensures
            r.spec_kind() == kind,
            r.spec_source() is None,
    {
        FixtureError { kind, source: None }
    }

    /// Attach the rendered message of the cause, replacing any earlier one.
    pub fn with_source(self, source: String) -> (r: Self)
        ensures
            r.spec_kind() == self.spec_kind(),
            r.spec_source() == Some(source@),
    {
        FixtureError { kind: self.kind, source: Some(source) }
    }

    /// Return the fixture initialization cause.
    pub fn kind(&self) -> (r: FixtureKind)
        ensures
            r == self.spec_kind(),
    {
        self.kind
    }

    /// The rendered message of the underlying cause, if any.
    pub fn source(&self) -> (r: Option<&String>)
        ensures
            match r {
                Some(s) => self.spec_source() == Some(s@),
                None => self.spec_source() is None,
            },
    {
        self.source.as_ref()
    }

    /// The display message of this error: the fixed prefix followed by the
    /// message of the failed stage. The cause is not part of it.
    pub fn message(&self) -> (r: String)
        ensures
            r@ == error_message(self.spec_kind()),
    {
        "failed to initialize fixture: ".to_owned().concat(self.kind.message().as_str())
    }
}

/// Turn the error of `result`, already rendered as a message, into `error`
/// with that message attached as its cause. A success passes through
/// unchanged.
pub fn chain_result<T>(result: Result<T, String>, error: FixtureError) -> (r: Result<
    T,
    FixtureError,
>)
    ensures
        match result {
            Ok(v) => r == Ok::<T, FixtureError>(v),
            Err(m) => r matches Err(e) && e.spec_kind() == error.spec_kind() && e.spec_source()
                == Some(m@),
        },
{
    match result {
        Ok(v) => Ok(v),
        Err(m) => Err(error.with_source(m)),
    }
}

} // verus!
