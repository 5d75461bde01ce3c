//! Fixture operations, described as plans of filesystem steps.
//!
//! Every operation on a [`ChildPath`] is planned here as a sequence of
//! [`FsStep`] values: which filesystem changes to make, in which order, and
//! which [`FixtureKind`] names the stage if a step fails. A thin driver
//! outside this crate performs each step in order and, on the first failure,
//! reports it through [`step_failure`]. Planning keeps the idempotent
//! "ensure the parent directory exists" convention: an already existing
//! parent is success, never a conflict.

use crate::child::ChildPath;
use crate::child::HasUtf8Path;
use crate::errors::FixtureError;
use crate::errors::FixtureKind;
use crate::paths::parent_of;
use crate::paths::parent_path_of;
use vstd::prelude::*;
use vstd::string::StringSliceAdditionalSpecFns;

verus! {

/// One filesystem change that a fixture plan asks for.
#[derive(Clone, Debug, PartialEq, Eq)]
pub enum FsOp {
    /// Create the directory and all missing ancestors; an existing directory
    /// is success.
    CreateDirAll { path: String },
    /// Create the file, or truncate it to empty if it exists.
    CreateFile { path: String },
    /// Create or truncate the file, then write the whole buffer to it.
    WriteAll { path: String, data: Vec<u8> },
    /// Copy the file at `from` byte for byte to `to`, overwriting it.
    CopyFile { from: String, to: String },
    /// Create a symbolic link at `link` pointing at a target file.
    SymlinkFile { link: String, target: String },
    /// Create a symbolic link at `link` pointing at a target directory.
    SymlinkDir { link: String, target: String },
}

/// The mathematical value of an [`FsOp`].
pub enum SpecOp {
    CreateDirAll { path: Seq<char> },
    CreateFile { path: Seq<char> },
    WriteAll { path: Seq<char>, data: Seq<u8> },
    CopyFile { from: Seq<char>, to: Seq<char> },
    SymlinkFile { link: Seq<char>, target: Seq<char> },
    SymlinkDir { link: Seq<char>, target: Seq<char> },
}

impl View for FsOp {
    type V = SpecOp;

    open spec fn view(&self) -> SpecOp {
        match self {
            FsOp::CreateDirAll { path } => SpecOp::CreateDirAll { path: path@ },
            FsOp::CreateFile { path } => SpecOp::CreateFile { path: path@ },
            FsOp::WriteAll { path, data } => SpecOp::WriteAll { path: path@, data: data@ },
            FsOp::CopyFile { from, to } => SpecOp::CopyFile { from: from@, to: to@ },
            FsOp::SymlinkFile { link, target } => SpecOp::SymlinkFile {
                link: link@,
                target: target@,
            },
            FsOp::SymlinkDir { link, target } => SpecOp::SymlinkDir {
                link: link@,
                target: target@,
            },
        }
    }
}

impl DeepView for FsOp {
    type V = SpecOp;

    open spec fn deep_view(&self) -> SpecOp {
        self.view()
    }
}

/// One planned step: the change to make and the failure stage it reports.
#[derive(Clone, Debug, PartialEq, Eq)]
pub struct FsStep {
    /// The filesystem change to perform.
    pub op: FsOp,
    /// The stage that a failure of this step names.
    pub on_fail: FixtureKind,
}

/// The mathematical value of an [`FsStep`].
pub struct SpecStep {
    pub op: SpecOp,
    pub on_fail: FixtureKind,
}

impl View for FsStep {
    type V = SpecStep;

    open spec fn view(&self) -> SpecStep {
        SpecStep { op: self.op@, on_fail: self.on_fail }
    }
}

impl DeepView for FsStep {
    type V = SpecStep;

    open spec fn deep_view(&self) -> SpecStep {
        self.view()
    }
}

/// The steps that make the parent directory of `path` exist: one idempotent
/// recursive directory creation, or none when `path` has no parent.
pub open spec fn ensure_parent_steps(path: Seq<char>) -> Seq<SpecStep> {
    match parent_path_of(path) {
        Some(p) => seq![
            SpecStep {
                op: SpecOp::CreateDirAll { path: p },
                on_fail: FixtureKind::CreateDir,
            },
        ],
        None => Seq::empty(),
    }
}

/// The plan of the create-directory operation.
pub open spec fn create_dir_all_steps(path: Seq<char>) -> Seq<SpecStep> {
    seq![
        SpecStep { op: SpecOp::CreateDirAll { path }, on_fail: FixtureKind::CreateDir },
    ]
}

/// The plan of the touch operation: ensure the parent, then create or
/// truncate an empty file.
pub open spec fn touch_steps(path: Seq<char>) -> Seq<SpecStep> {
    ensure_parent_steps(path) + seq![
        SpecStep { op: SpecOp::CreateFile { path }, on_fail: FixtureKind::WriteFile },
    ]
}

/// The plan of the binary-write operation: ensure the parent, then write the
/// whole buffer.
pub open spec fn write_binary_steps(path: Seq<char>, data: Seq<u8>) -> Seq<SpecStep> {
    ensure_parent_steps(path) + seq![
        SpecStep { op: SpecOp::WriteAll { path, data }, on_fail: FixtureKind::WriteFile },
    ]
}

/// The plan of the copy-single-file operation: ensure the parent, then copy
/// `source` over `path`.
pub open spec fn write_file_steps(path: Seq<char>, source: Seq<char>) -> Seq<SpecStep> {
    ensure_parent_steps(path) + seq![
        SpecStep {
            op: SpecOp::CopyFile { from: source, to: path },
            on_fail: FixtureKind::CopyFile,
        },
    ]
}

/// The plan of the symlink-to-file operation.
pub open spec fn symlink_file_steps(link: Seq<char>, target: Seq<char>) -> Seq<SpecStep> {
    seq![
        SpecStep {
            op: SpecOp::SymlinkFile { link, target },
            on_fail: FixtureKind::Symlink,
        },
    ]
}

/// The plan of the symlink-to-directory operation.
pub open spec fn symlink_dir_steps(link: Seq<char>, target: Seq<char>) -> Seq<SpecStep> {
    seq![
        SpecStep {
            op: SpecOp::SymlinkDir { link, target },
            on_fail: FixtureKind::Symlink,
        },
    ]
}

/// Plan the steps that make the parent directory of `path` exist.
pub fn ensure_parent_dir(path: &str) -> (steps: Vec<FsStep>)
    ensures
        steps.deep_view() == ensure_parent_steps(path@),
{
    let mut steps: Vec<FsStep> = Vec::new();
    if let Some(parent) = parent_of(path) {
        steps.push(
            FsStep {
                op: FsOp::CreateDirAll { path: parent },
                on_fail: FixtureKind::CreateDir,
            },
        );
    }
    proof {
        assert(steps.deep_view() =~= ensure_parent_steps(path@));
    }
    steps
}

/// Plan the recursive creation of a directory at `path`.
pub fn create_dir_all(path: &str) -> (steps: Vec<FsStep>)
    ensures
        steps.deep_view() == create_dir_all_steps(path@),
{
    let mut steps: Vec<FsStep> = Vec::new();
    steps.push(
        FsStep {
            op: FsOp::CreateDirAll { path: path.to_owned() },
            on_fail: FixtureKind::CreateDir,
        },
    );
    proof {
        assert(steps.deep_view() =~= create_dir_all_steps(path@));
    }
    steps
}

/// Plan the creation of an empty file at `path`, parents included.
pub fn touch(path: &str) -> (steps: Vec<FsStep>)
    ensures
        steps.deep_view() == touch_steps(path@),
{
    let mut steps = ensure_parent_dir(path);
    steps.push(
        FsStep {
            op: FsOp::CreateFile { path: path.to_owned() },
            on_fail: FixtureKind::WriteFile,
        },
    );
    proof {
        assert(steps.deep_view() =~= touch_steps(path@));
    }
    steps
}

/// Plan writing `data` to the file at `path`, parents included.
pub fn write_binary(path: &str, data: &[u8]) -> (steps: Vec<FsStep>)
    ensures
        steps.deep_view() == write_binary_steps(path@, data@),
{
    let mut steps = ensure_parent_dir(path);
    steps.push(
        FsStep {
            op: FsOp::WriteAll { path: path.to_owned(), data: vstd::slice::slice_to_vec(data) },
            on_fail: FixtureKind::WriteFile,
        },
    );
    proof {
        assert(steps.deep_view() =~= write_binary_steps(path@, data@));
    }
    steps
}

/// Plan writing the text `data` to the file at `path`. Writing text is
/// writing the UTF-8 encoding of the string: the two plans are one and the
/// same, with no separate encoding step.
pub fn write_str(path: &str, data: &str) -> (steps: Vec<FsStep>)
    ensures
        steps.deep_view() == write_binary_steps(path@, data.spec_bytes()),
{
    write_binary(path, data.as_bytes())
}

/// Plan copying the file at `source` over the file at `path`, parents
/// included.
pub fn write_file(path: &str, source: &str) -> (steps: Vec<FsStep>)
    ensures
        steps.deep_view() == write_file_steps(path@, source@),
{
    let mut steps = ensure_parent_dir(path);
    steps.push(
        FsStep {
            op: FsOp::CopyFile { from: source.to_owned(), to: path.to_owned() },
            on_fail: FixtureKind::CopyFile,
        },
    );
    proof {
        assert(steps.deep_view() =~= write_file_steps(path@, source@));
    }
    steps
}

/// Plan a symbolic link at `link` pointing at the target file.
pub fn symlink_to_file(link: &str, target: &str) -> (steps: Vec<FsStep>)
    ensures
        steps.deep_view() == symlink_file_steps(link@, target@),
{
    let mut steps: Vec<FsStep> = Vec::new();
    steps.push(
        FsStep {
            op: FsOp::SymlinkFile { link: link.to_owned(), target: target.to_owned() },
            on_fail: FixtureKind::Symlink,
        },
    );
    proof {
        assert(steps.deep_view() =~= symlink_file_steps(link@, target@));
    }
    steps
}

/// Plan a symbolic link at `link` pointing at the target directory.
pub fn symlink_to_dir(link: &str, target: &str) -> (steps: Vec<FsStep>)
    ensures
        steps.deep_view() == symlink_dir_steps(link@, target@),
{
    let mut steps: Vec<FsStep> = Vec::new();
    steps.push(
        FsStep {
            op: FsOp::SymlinkDir { link: link.to_owned(), target: target.to_owned() },
            on_fail: FixtureKind::Symlink,
        },
    );
    proof {
        assert(steps.deep_view() =~= symlink_dir_steps(link@, target@));
    }
    steps
}

/// The error that reports a failure of `step`: the step's failure stage,
/// with the rendered message of the underlying cause attached.
pub fn step_failure(step: &FsStep, cause: String) -> (r: FixtureError)
    ensures
        r.spec_kind() == step.on_fail,
        r.spec_source() == Some(cause@),
{
    FixtureError::new(step.on_fail).with_source(cause)
}

/// Plan the creation of empty directories at a [`ChildPath`].
pub trait PathCreateDir: HasUtf8Path {
    /// Plan an empty directory at this path, ancestors included.
    fn create_dir_all(&self) -> (steps: Vec<FsStep>)
        ensures
            steps.deep_view() == create_dir_all_steps(self.spec_path()),
    ;
}

impl PathCreateDir for ChildPath {
    fn create_dir_all(&self) -> (steps: Vec<FsStep>) {
        create_dir_all(self.as_path())
    }
}

/// Plan the creation of empty files at a [`ChildPath`].
pub trait FileTouch: HasUtf8Path {
    /// Plan an empty file at this path, parent directories included.
    fn touch(&self) -> (steps: Vec<FsStep>)
        ensures
            steps.deep_view() == touch_steps(self.spec_path()),
    ;
}

impl FileTouch for ChildPath {
    fn touch(&self) -> (steps: Vec<FsStep>) {
        touch(self.as_path())
    }
}

/// Plan writing a binary file at a [`ChildPath`].
pub trait FileWriteBin: HasUtf8Path {
    /// Plan writing `data` at this path, parent directories included.
    fn write_binary(&self, data: &[u8]) -> (steps: Vec<FsStep>)
        ensures
            steps.deep_view() == write_binary_steps(self.spec_path(), data@),
    ;
}

impl FileWriteBin for ChildPath {
    fn write_binary(&self, data: &[u8]) -> (steps: Vec<FsStep>) {
        write_binary(self.as_path(), data)
    }
}

/// Plan writing a text file at a [`ChildPath`].
pub trait FileWriteStr: HasUtf8Path {
    /// Plan writing the text `data` at this path, parent directories
    /// included. The plan is the binary-write plan of the UTF-8 encoding.
    fn write_str(&self, data: &str) -> (steps: Vec<FsStep>)
        ensures
            steps.deep_view() == write_binary_steps(self.spec_path(), data.spec_bytes()),
    ;
}

impl FileWriteStr for ChildPath {
    fn write_str(&self, data: &str) -> (steps: Vec<FsStep>) {
        write_str(self.as_path(), data)
    }
}

/// Plan copying a file to a [`ChildPath`].
pub trait FileWriteFile: HasUtf8Path {
    /// Plan a byte-for-byte copy of the file at `data` to this path, parent
    /// directories included.
    fn write_file(&self, data: &str) -> (steps: Vec<FsStep>)
        ensures
            steps.deep_view() == write_file_steps(self.spec_path(), data@),
    ;
}

impl FileWriteFile for ChildPath {
    fn write_file(&self, data: &str) -> (steps: Vec<FsStep>) {
        write_file(self.as_path(), data)
    }
}

/// Plan a symlink to a target file at a [`ChildPath`].
pub trait SymlinkToFile: HasUtf8Path {
    /// Plan a symbolic link at this path pointing at the target file. The
    /// target is a UTF-8 path; its existence or type is not checked: the
    /// filesystem call is authoritative.
    fn symlink_to_file(&self, target: &str) -> (steps: Vec<FsStep>)
        ensures
            steps.deep_view() == symlink_file_steps(self.spec_path(), target@),
    ;
}

impl SymlinkToFile for ChildPath {
    fn symlink_to_file(&self, target: &str) -> (steps: Vec<FsStep>) {
        symlink_to_file(self.as_path(), target)
    }
}

/// Plan a symlink to a target directory at a [`ChildPath`].
pub trait SymlinkToDir: HasUtf8Path {
    /// Plan a symbolic link at this path pointing at the target directory,
    /// given as a UTF-8 path.
    fn symlink_to_dir(&self, target: &str) -> (steps: Vec<FsStep>)
        ensures
            steps.deep_view() == symlink_dir_steps(self.spec_path(), target@),
    ;
}

impl SymlinkToDir for ChildPath {
    fn symlink_to_dir(&self, target: &str) -> (steps: Vec<FsStep>) {
        symlink_to_dir(self.as_path(), target)
    }
}

} // verus!
