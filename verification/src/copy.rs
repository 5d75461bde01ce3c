//! Glob-filtered recursive copy planning.
//!
//! `copy_from` canonicalizes the source directory, walks it recursively with
//! globwalk (following symbolic links), and turns the walked entries that
//! match the glob patterns into copy steps under the target directory:
//! directories are recreated, files are copied with their parent directory
//! ensured first, and entries that are neither are skipped. The plan covers
//! every walked entry in walk order; the first failure to resolve or walk
//! the source aborts the plan with a [`FixtureKind::Walk`] error carrying
//! the cause.

use crate::child::ChildPath;
use crate::child::HasUtf8Path;
use crate::errors::FixtureError;
use crate::errors::FixtureKind;
use crate::paths::join_of;
use crate::paths::join_utf8;
use crate::tools::ensure_parent_dir;
use crate::tools::ensure_parent_steps;
use crate::tools::FsOp;
use crate::tools::FsStep;
use crate::tools::SpecOp;
use crate::tools::SpecStep;
use vstd::prelude::*;
use vstd::string::StrSliceExecFns;
use vstd::string::StringExecFns;

verus! {

/// What a directory-walk entry is, as far as the copy cares.
#[derive(Copy, Clone, Debug, PartialEq, Eq, Structural)]
pub enum EntryKind {
    /// A directory.
    Dir,
    /// A regular file.
    File,
    /// Anything else, such as a symlink that resolves to neither; skipped.
    Other,
}

/// One walked entry handed back as plain values: its path and kind, or the
/// rendered message of the failure that stands in its place.
pub type WalkedEntry = Result<(String, EntryKind), String>;

/// globwalk's builder for a glob-filtered walk, declared opaquely.
#[verifier::external_type_specification]
#[verifier::external_body]
pub struct ExGlobWalkerBuilder(globwalk::GlobWalkerBuilder);

/// globwalk's walker over matched entries, declared opaquely.
#[verifier::external_type_specification]
#[verifier::external_body]
pub struct ExGlobWalker(globwalk::GlobWalker);

/// One entry that a walk yielded, declared opaquely.
#[verifier::external_type_specification]
#[verifier::external_body]
pub struct ExDirEntry(globwalk::DirEntry);

/// The error a walk can yield per entry, declared opaquely.
#[verifier::external_type_specification]
#[verifier::external_body]
pub struct ExWalkError(globwalk::WalkError);

/// Relies on camino's `Utf8Path::canonicalize_utf8`, which resolves the path
/// against the filesystem; the result depends on what is on disk, so nothing
/// more is stated of it.
#[verifier::external_body]
fn canonicalize_utf8(path: &str) -> (r: Result<String, String>) {
    match camino::Utf8Path::new(path).canonicalize_utf8() {
        Ok(p) => Ok(p.into_string()),
        Err(e) => Err(e.to_string()),
    }
}

/// Relies on globwalk's `GlobWalkerBuilder::from_patterns`.
#[verifier::external_body]
fn walker_from_patterns(base: &str, patterns: &[String]) -> (r: globwalk::GlobWalkerBuilder) {
    globwalk::GlobWalkerBuilder::from_patterns(base, patterns)
}

/// Relies on globwalk's `GlobWalkerBuilder::follow_links`.
#[verifier::external_body]
fn walker_follow_links(builder: globwalk::GlobWalkerBuilder, follow: bool) -> (r:
    globwalk::GlobWalkerBuilder) {
    builder.follow_links(follow)
}

/// Relies on globwalk's `GlobWalkerBuilder::build`; a failure is handed back
/// as its rendered message.
#[verifier::external_body]
fn walker_build(builder: globwalk::GlobWalkerBuilder) -> (r: Result<globwalk::GlobWalker, String>) {
    builder.build().map_err(|e| e.to_string())
}

/// Relies on globwalk's walker being an iterator over matched entries, and
/// on walkdir's `DirEntry::path` and `DirEntry::file_type` accessors. The
/// stream is collected as it stands and depends on what is on disk; each
/// entry becomes its path and kind as plain values, and a walk failure or a
/// path that is not valid UTF-8 becomes its rendered message.
#[verifier::external_body]
fn walker_entries(walker: globwalk::GlobWalker) -> (r: Vec<WalkedEntry>) {
    walker.map(|entry| match entry {
        Ok(e) => {
            let t = e.file_type();
            let kind = if t.is_dir() { EntryKind::Dir } else if t.is_file() { EntryKind::File } else { EntryKind::Other };
            match e.path().to_str() {
                Some(p) => Ok((p.to_owned(), kind)),
                None => Err(format!("entry path is not valid UTF-8: {}", e.path().display())),
            }
        },
        Err(e) => Err(e.to_string()),
    }).collect()
}

/// The path of `entry` relative to `base`, when `entry` is `base` itself or
/// sits below it: either a separator stands at the boundary, or `base`
/// already ends with one (a root such as `/`).
///
/// The separator is POSIX's `/`: the walk joins entry paths with it on such
/// systems, and canonicalized inputs carry no repeated separators. A system
/// whose paths use another separator would need its own boundary rule here.
pub open spec fn strip_prefix_spec(entry: Seq<char>, base: Seq<char>) -> Option<Seq<char>> {
    if entry == base {
        Some(Seq::<char>::empty())
    } else if entry.len() > base.len() && entry.subrange(0, base.len() as int) == base {
        if entry[base.len() as int] == '/' {
            Some(entry.subrange(base.len() as int + 1, entry.len() as int))
        } else if base.len() > 0 && base[base.len() as int - 1] == '/' {
            Some(entry.subrange(base.len() as int, entry.len() as int))
        } else {
            None
        }
    } else {
        None
    }
}

/// Character-by-character string equality.
fn str_eq_chars(a: &str, b: &str) -> (r: bool)
    ensures
        r == (a@ == b@),
{
    let a_len = a.unicode_len();
    let b_len = b.unicode_len();
    if a_len != b_len {
        return false;
    }
    let mut i: usize = 0;
    while i < a_len
        invariant
            i <= a_len,
            a_len == a@.len(),
            a_len == b@.len(),
            forall|j: int| 0 <= j < i ==> a@[j] == b@[j],
        decreases a_len - i,
    {
        if a.get_char(i) != b.get_char(i) {
            return false;
        }
        i = i + 1;
    }
    proof {
        assert(a@ =~= b@);
    }
    true
}

/// Compute the path of `entry` relative to `base`, as
/// [`strip_prefix_spec`] describes.
pub fn strip_prefix(entry: &str, base: &str) -> (r: Option<String>)
    ensures
        match r {
            Some(rel) => strip_prefix_spec(entry@, base@) == Some(rel@),
            None => strip_prefix_spec(entry@, base@) is None,
        },
{
    let entry_len = entry.unicode_len();
    let base_len = base.unicode_len();
    if entry_len == base_len {
        if str_eq_chars(entry, base) {
            Some(String::new())
        } else {
            None
        }
    } else if entry_len > base_len {
        let prefix = entry.substring_char(0, base_len);
        if !str_eq_chars(prefix, base) {
            None
        } else if entry.get_char(base_len) == '/' {
            let rel = entry.substring_char(base_len + 1, entry_len);
            Some(rel.to_owned())
        } else if base_len > 0 && base.get_char(base_len - 1) == '/' {
            let rel = entry.substring_char(base_len, entry_len);
            Some(rel.to_owned())
        } else {
            None
        }
    } else {
        None
    }
}

/// The copy steps for one walk entry whose path relative to the source is
/// `rel`: a directory is recreated under the target, a file is copied there
/// with its parent ensured first, and anything else asks for nothing.
pub open spec fn entry_steps_spec(
    target: Seq<char>,
    entry: Seq<char>,
    rel: Seq<char>,
    kind: EntryKind,
) -> Seq<SpecStep> {
    let dst = join_of(target, rel);
    match kind {
        EntryKind::Dir => seq![
            SpecStep { op: SpecOp::CreateDirAll { path: dst }, on_fail: FixtureKind::CreateDir },
        ],
        EntryKind::File => ensure_parent_steps(dst) + seq![
            SpecStep {
                op: SpecOp::CopyFile { from: entry, to: dst },
                on_fail: FixtureKind::CopyFile,
            },
        ],
        EntryKind::Other => Seq::empty(),
    }
}

/// The cause attached when a walked entry does not sit under the source
/// root that the walk started from.
pub open spec fn stray_entry_message(entry: Seq<char>) -> Seq<char> {
    "entry is not under the source root: "@ + entry
}

/// Plan the copy steps for one walk entry: relate `entry_path` to the walked
/// `base`, join the relative part under `target`, and emit the steps that
/// [`entry_steps_spec`] describes. An entry that does not sit under `base`
/// is a walk failure naming that entry as the cause.
pub fn entry_steps(target: &str, base: &str, entry_path: &str, kind: EntryKind) -> (r: Result<
    Vec<FsStep>,
    FixtureError,
>)
    ensures
        match strip_prefix_spec(entry_path@, base@) {
            Some(rel) => r matches Ok(steps) && steps.deep_view() == entry_steps_spec(
                target@,
                entry_path@,
                rel,
                kind,
            ),
            None => r matches Err(e) && e.spec_kind() == FixtureKind::Walk && e.spec_source()
                == Some(stray_entry_message(entry_path@)),
        },
{
    let rel = match strip_prefix(entry_path, base) {
        Some(rel) => rel,
        None => {
            let cause = "entry is not under the source root: ".to_owned().concat(entry_path);
            return Err(FixtureError::new(FixtureKind::Walk).with_source(cause));
        },
    };
    let dst = join_utf8(target, rel.as_str());
    match kind {
        EntryKind::Dir => {
            let mut steps: Vec<FsStep> = Vec::new();
            steps.push(
                FsStep {
                    op: FsOp::CreateDirAll { path: dst },
                    on_fail: FixtureKind::CreateDir,
                },
            );
            proof {
                assert(steps.deep_view() =~= entry_steps_spec(
                    target@,
                    entry_path@,
                    rel@,
                    kind,
                ));
            }
            Ok(steps)
        },
        EntryKind::File => {
            let mut steps = ensure_parent_dir(dst.as_str());
            steps.push(
                FsStep {
                    op: FsOp::CopyFile { from: entry_path.to_owned(), to: dst },
                    on_fail: FixtureKind::CopyFile,
                },
            );
            proof {
                assert(steps.deep_view() =~= entry_steps_spec(
                    target@,
                    entry_path@,
                    rel@,
                    kind,
                ));
            }
            Ok(steps)
        },
        EntryKind::Other => {
            let steps: Vec<FsStep> = Vec::new();
            proof {
                assert(steps.deep_view() =~= entry_steps_spec(
                    target@,
                    entry_path@,
                    rel@,
                    kind,
                ));
            }
            Ok(steps)
        },
    }
}

/// What planning a sequence of walked entries comes to: the in-order
/// concatenation of the per-entry plans, or the first failure's message.
pub enum WalkOutcome {
    /// Every entry planned; the steps, in walk order.
    Plan(Seq<SpecStep>),
    /// Planning stopped at the first failing element; its rendered message.
    Failure(Seq<char>),
}

/// The plan for a sequence of walked entries, each its path and kind or a
/// failure message, walked from `base` into `target`. The first failing
/// element — a walk failure, or an entry that does not sit under `base` —
/// decides the outcome; otherwise the plan is exactly the concatenation of
/// the per-entry plans in walk order.
pub open spec fn walked_plan(target: Seq<char>, base: Seq<char>, walked: Seq<WalkedEntry>)
    -> WalkOutcome
    decreases walked.len(),
{
    if walked.len() == 0 {
        WalkOutcome::Plan(Seq::empty())
    } else {
        match walked[0] {
            Err(m) => WalkOutcome::Failure(m@),
            Ok(entry) => match strip_prefix_spec(entry.0@, base) {
                None => WalkOutcome::Failure(stray_entry_message(entry.0@)),
                Some(rel) => match walked_plan(target, base, walked.skip(1)) {
                    WalkOutcome::Plan(rest) => WalkOutcome::Plan(
                        entry_steps_spec(target, entry.0@, rel, entry.1) + rest,
                    ),
                    WalkOutcome::Failure(m) => WalkOutcome::Failure(m),
                },
            },
        }
    }
}

/// `outcome` with `prefix` planned before it: a plan grows at the front, a
/// failure stays what it is.
pub open spec fn extend_outcome(prefix: Seq<SpecStep>, outcome: WalkOutcome) -> WalkOutcome {
    match outcome {
        WalkOutcome::Plan(rest) => WalkOutcome::Plan(prefix + rest),
        WalkOutcome::Failure(m) => WalkOutcome::Failure(m),
    }
}

/// Plan the copy steps for a whole walked sequence, as [`walked_plan`]
/// describes: every element planned in order when all succeed, else the
/// first failing element decides and its message is attached as the cause.
pub fn plan_walked(target: &str, base: &str, walked: &[WalkedEntry]) -> (r: Result<
    Vec<FsStep>,
    FixtureError,
>)
    ensures
        match walked_plan(target@, base@, walked@) {
            WalkOutcome::Plan(plan) => r matches Ok(steps) && steps.deep_view() == plan,
            WalkOutcome::Failure(m) => r matches Err(e) && e.spec_kind() == FixtureKind::Walk
                && e.spec_source() == Some(m),
        },
{
    let mut steps: Vec<FsStep> = Vec::new();
    let mut i: usize = 0;
    proof {
        assert(walked@.skip(0) =~= walked@);
        match walked_plan(target@, base@, walked@) {
            WalkOutcome::Plan(rest) => {
                assert(steps.deep_view() + rest =~= rest);
            },
            WalkOutcome::Failure(_) => {},
        }
    }
    while i < walked.len()
        invariant
            i <= walked@.len(),
            walked_plan(target@, base@, walked@) == extend_outcome(
                steps.deep_view(),
                walked_plan(target@, base@, walked@.skip(i as int)),
            ),
        decreases walked@.len() - i,
    {
        proof {
            assert(walked@.skip(i as int)[0] == walked@[i as int]);
            assert(walked@.skip(i as int).skip(1) =~= walked@.skip(i as int + 1));
        }
        let entry = match &walked[i] {
            Ok(entry) => entry,
            Err(m) => {
                return Err(FixtureError::new(FixtureKind::Walk).with_source(m.clone()));
            },
        };
        let mut entry_plan = match entry_steps(target, base, entry.0.as_str(), entry.1) {
            Ok(plan) => plan,
            Err(e) => {
                return Err(e);
            },
        };
        let ghost prev = steps.deep_view();
        let ghost head = entry_plan.deep_view();
        steps.append(&mut entry_plan);
        proof {
            assert(steps.deep_view() =~= prev + head);
            match walked_plan(target@, base@, walked@.skip(i as int + 1)) {
                WalkOutcome::Plan(rest) => {
                    assert((prev + head) + rest =~= prev + (head + rest));
                },
                WalkOutcome::Failure(_) => {},
            }
        }
        i = i + 1;
    }
    proof {
        assert(walked@.skip(walked@.len() as int) =~= Seq::<WalkedEntry>::empty());
        assert(steps.deep_view() + Seq::<SpecStep>::empty() =~= steps.deep_view());
    }
    Ok(steps)
}

/// A step a copy plan may hold: a directory creation or a file copy,
/// reporting the matching failure stage.
pub open spec fn is_copy_step(step: SpecStep) -> bool {
    &&& (step.op matches SpecOp::CreateDirAll { .. } || step.op matches SpecOp::CopyFile { .. })
    &&& (step.on_fail == FixtureKind::CreateDir || step.on_fail == FixtureKind::CopyFile)
}

/// Whatever the walk yields, a copy plan only ever recreates directories
/// and copies files under the target: it never plans a write, a truncation,
/// or a symlink, and every step reports its failure as a directory-creation
/// or file-copy stage.
pub proof fn lemma_copy_plan_shape(target: Seq<char>, base: Seq<char>, walked: Seq<WalkedEntry>)
    ensures
        walked_plan(target, base, walked) matches WalkOutcome::Plan(plan) ==> forall|i: int|
            0 <= i < plan.len() ==> is_copy_step(#[trigger] plan[i]),
    decreases walked.len(),
{
    if walked.len() > 0 {
        lemma_copy_plan_shape(target, base, walked.skip(1));
    }
}

/// Plan copying everything under `source` that matches one of the glob
/// `patterns` into `target`: canonicalize `source`, walk it recursively
/// following symbolic links, and plan the walked entries in walk order, as
/// [`walked_plan`] describes (exactly stated by [`plan_walked`], which this
/// function hands the walked sequence to). Every failure to resolve or walk
/// the source is a [`FixtureKind::Walk`] error carrying the cause.
pub fn copy_files(target: &str, source: &str, patterns: &[String]) -> (r: Result<
    Vec<FsStep>,
    FixtureError,
>)
    ensures
        r matches Err(e) ==> e.spec_kind() == FixtureKind::Walk && e.spec_source() is Some,
        r matches Ok(steps) ==> exists|base: Seq<char>, walked: Seq<WalkedEntry>|
            walked_plan(target@, base, walked) == WalkOutcome::Plan(steps.deep_view()),
        r matches Ok(steps) ==> forall|i: int|
            0 <= i < steps.deep_view().len() ==> is_copy_step(#[trigger] steps.deep_view()[i]),
{
    let base = match canonicalize_utf8(source) {
        Ok(base) => base,
        Err(m) => {
            return Err(FixtureError::new(FixtureKind::Walk).with_source(m));
        },
    };
    let builder = walker_follow_links(walker_from_patterns(base.as_str(), patterns), true);
    let walker = match walker_build(builder) {
        Ok(walker) => walker,
        Err(m) => {
            return Err(FixtureError::new(FixtureKind::Walk).with_source(m));
        },
    };
    let walked = walker_entries(walker);
    let r = plan_walked(target, base.as_str(), walked.as_slice());
    proof {
        match &r {
            Ok(steps) => {
                assert(walked_plan(target@, base@, walked@) == WalkOutcome::Plan(
                    steps.deep_view(),
                ));
                lemma_copy_plan_shape(target@, base@, walked@);
            },
            Err(_) => {},
        }
    }
    r
}

/// Plan copies into a [`ChildPath`] from a source tree.
pub trait PathCopy: HasUtf8Path {
    /// Plan copying the files and directories under `source` that match one
    /// of the glob `patterns` into this path.
    fn copy_from(&self, source: &str, patterns: &[String]) -> (r: Result<Vec<FsStep>, FixtureError>)
        ensures
            r matches Err(e) ==> e.spec_kind() == FixtureKind::Walk && e.spec_source() is Some,
            r matches Ok(steps) ==> exists|base: Seq<char>, walked: Seq<WalkedEntry>|
                walked_plan(self.spec_path(), base, walked) == WalkOutcome::Plan(steps.deep_view()),
            r matches Ok(steps) ==> forall|i: int|
                0 <= i < steps.deep_view().len() ==> is_copy_step(#[trigger] steps.deep_view()[i]),
    ;
}

impl PathCopy for ChildPath {
    fn copy_from(&self, source: &str, patterns: &[String]) -> (r: Result<
        Vec<FsStep>,
        FixtureError,
    >) {
        let path = self.as_path();
        let r = copy_files(path, source, patterns);
        proof {
            match &r {
                Ok(steps) => {
                    let (b0, w0) = choose|b: Seq<char>, w: Seq<WalkedEntry>|
                        walked_plan(path@, b, w) == WalkOutcome::Plan(steps.deep_view());
                    assert(walked_plan(self.spec_path(), b0, w0) == WalkOutcome::Plan(
                        steps.deep_view(),
                    ));
                },
                Err(_) => {},
            }
        }
        r
    }
}

} // verus!
