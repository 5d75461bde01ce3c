//! Filesystem-state assertions.
//!
//! A check on a path converts the supplied value — raw bytes, a string, a
//! predicate over file text, or a predicate over a raw path — into one
//! uniform predicate over a UTF-8 path, evaluates it, and on failure renders
//! a human-readable explanation. The predicates themselves come from the
//! predicates crates; this module adapts them and pins down the exact shape
//! of the failure message.

use crate::child::ChildPath;
use crate::child::HasUtf8Path;
use predicates::path::PredicateFileContentExt;
use predicates::str::PredicateStrExt;
use predicates_tree::CaseTreeExt;
use vstd::prelude::*;
use vstd::string::StringExecFns;

verus! {

/// predicates-core's found case of a predicate evaluation, declared opaquely.
#[verifier::external_type_specification]
#[verifier::external_body]
pub struct ExCase<'a>(predicates_core::reflection::Case<'a>);

/// The OS view of a path, declared opaquely.
#[verifier::external_type_specification]
#[verifier::external_body]
pub struct ExStdPath(std::path::Path);

/// predicates' boxed predicate over `Item`, declared opaquely.
#[verifier::external_type_specification]
#[verifier::external_body]
#[verifier::reject_recursive_types(Item)]
pub struct ExBoxPredicate<Item: ?Sized>(predicates::BoxPredicate<Item>);

/// The composed byte-content predicate: equality with fixed bytes, applied
/// to the content of the file at a path. Verus does not read the field.
#[verifier::external_body]
struct BytesContentInner {
    pred: predicates::path::FileContentPredicate<predicates::ord::EqPredicate<&'static [u8]>>,
}

/// The composed text-content predicate: a diff against fixed text, applied
/// to the UTF-8-decoded content of the file at a path. Verus does not read
/// the field.
#[verifier::external_body]
struct StrContentInner {
    pred: predicates::path::FileContentPredicate<
        predicates::str::Utf8Predicate<predicates::str::DifferencePredicate>,
    >,
}

/// A boxed text predicate applied to the UTF-8-decoded content of the file
/// at a path. Verus does not read the field.
#[verifier::external_body]
struct StrTextInner {
    pred: predicates::path::FileContentPredicate<
        predicates::str::Utf8Predicate<predicates::BoxPredicate<str>>,
    >,
}

/// Relies on `predicates::ord::eq` and
/// `PredicateFileContentExt::from_file_path`: the predicate that the file at
/// a path holds exactly the given bytes.
#[verifier::external_body]
fn bytes_inner_new(value: &'static [u8]) -> (r: BytesContentInner) {
    BytesContentInner { pred: predicates::ord::eq(value).from_file_path() }
}

/// Relies on the `Predicate<Path>` impl of `FileContentPredicate`; the
/// outcome depends on what is on disk, so nothing more is stated of it.
#[verifier::external_body]
fn bytes_inner_eval(inner: &BytesContentInner, path: &str) -> (r: bool) {
    <_ as predicates_core::Predicate<std::path::Path>>::eval(
        &inner.pred,
        std::path::Path::new(path),
    )
}

/// Relies on the `Predicate<Path>` impl of `FileContentPredicate`: a case is
/// found exactly when the evaluation outcome equals `expected`; the outcome
/// depends on what is on disk.
#[verifier::external_body]
fn bytes_inner_find_case<'a>(inner: &'a BytesContentInner, expected: bool, path: &str) -> (r:
    Option<predicates_core::reflection::Case<'a>>) {
    <_ as predicates_core::Predicate<std::path::Path>>::find_case(
        &inner.pred,
        expected,
        std::path::Path::new(path),
    )
}

/// Relies on `predicates::str::diff`, `PredicateStrExt::from_utf8` and
/// `PredicateFileContentExt::from_file_path`: the predicate that the file at
/// a path holds exactly the given text, a mismatch explained as a diff.
#[verifier::external_body]
fn str_inner_new(value: String) -> (r: StrContentInner) {
    StrContentInner { pred: predicates::str::diff(value).from_utf8().from_file_path() }
}

/// Relies on the `Predicate<Path>` impl of `FileContentPredicate`; the
/// outcome depends on what is on disk, so nothing more is stated of it.
#[verifier::external_body]
fn str_inner_eval(inner: &StrContentInner, path: &str) -> (r: bool) {
    <_ as predicates_core::Predicate<std::path::Path>>::eval(
        &inner.pred,
        std::path::Path::new(path),
    )
}

/// Relies on the `Predicate<Path>` impl of `FileContentPredicate`: a case is
/// found exactly when the evaluation outcome equals `expected`; the outcome
/// depends on what is on disk.
#[verifier::external_body]
fn str_inner_find_case<'a>(inner: &'a StrContentInner, expected: bool, path: &str) -> (r: Option<
    predicates_core::reflection::Case<'a>,
>) {
    <_ as predicates_core::Predicate<std::path::Path>>::find_case(
        &inner.pred,
        expected,
        std::path::Path::new(path),
    )
}

/// Relies on `PredicateStrExt::from_utf8` and
/// `PredicateFileContentExt::from_file_path`: the given text predicate,
/// applied to the UTF-8-decoded content of the file at a path.
#[verifier::external_body]
fn text_inner_new(value: predicates::BoxPredicate<str>) -> (r: StrTextInner) {
    StrTextInner { pred: value.from_utf8().from_file_path() }
}

/// Relies on the `Predicate<Path>` impl of `FileContentPredicate`; the
/// outcome depends on what is on disk, so nothing more is stated of it.
#[verifier::external_body]
fn text_inner_eval(inner: &StrTextInner, path: &str) -> (r: bool) {
    <_ as predicates_core::Predicate<std::path::Path>>::eval(
        &inner.pred,
        std::path::Path::new(path),
    )
}

/// Relies on the `Predicate<Path>` impl of `FileContentPredicate`: a case is
/// found exactly when the evaluation outcome equals `expected`; the outcome
/// depends on what is on disk.
#[verifier::external_body]
fn text_inner_find_case<'a>(inner: &'a StrTextInner, expected: bool, path: &str) -> (r: Option<
    predicates_core::reflection::Case<'a>,
>) {
    <_ as predicates_core::Predicate<std::path::Path>>::find_case(
        &inner.pred,
        expected,
        std::path::Path::new(path),
    )
}

/// Relies on the boxed predicate's `Predicate<Path>::eval`; the outcome
/// depends on what is on disk, so nothing more is stated of it.
#[verifier::external_body]
fn box_path_eval(pred: &predicates::BoxPredicate<std::path::Path>, path: &str) -> (r: bool) {
    <_ as predicates_core::Predicate<std::path::Path>>::eval(pred, std::path::Path::new(path))
}

/// Relies on the boxed predicate's `Predicate<Path>::find_case`: a case is
/// found exactly when the evaluation outcome equals `expected`; the outcome
/// depends on what is on disk.
#[verifier::external_body]
fn box_path_find_case<'a>(
    pred: &'a predicates::BoxPredicate<std::path::Path>,
    expected: bool,
    path: &str,
) -> (r: Option<predicates_core::reflection::Case<'a>>) {
    <_ as predicates_core::Predicate<std::path::Path>>::find_case(
        pred,
        expected,
        std::path::Path::new(path),
    )
}

/// Relies on predicates-tree's `CaseTreeExt::tree`: the found case rendered
/// as a readable tree.
#[verifier::external_body]
fn case_message(case: &predicates_core::reflection::Case<'_>) -> (r: String) {
    format!("{:#}", case.tree())
}

/// A predicate over a UTF-8 path, together with its explanation mechanism.
///
/// `find_case` looks for a case proving that this predicate evaluates as
/// `expected` against `path`, rendered as a readable message; it finds none
/// when the evaluation outcome differs from `expected`. Both answers depend
/// on the state of the filesystem at the moment of the call.
pub trait Utf8PathPredicate {
    /// Evaluate this predicate against `path`.
    fn eval(&self, path: &str) -> bool;

    /// Find a rendered case proving this predicate evaluates as `expected`
    /// against `path`, if the outcome equals `expected`.
    fn find_case(&self, expected: bool, path: &str) -> Option<String>;
}

/// Adapter for static byte slices: the file at the path must hold exactly
/// these bytes.
pub struct BytesContentPathPredicate {
    inner: BytesContentInner,
    expected: Ghost<Seq<u8>>,
}

impl BytesContentPathPredicate {
    /// The bytes that the checked file must hold.
    pub closed spec fn spec_expected(&self) -> Seq<u8> {
        self.expected@
    }

    /// The predicate that the file at a path holds exactly `value`.
    pub fn new(value: &'static [u8]) -> (r: Self)
        ensures
            r.spec_expected() == value@,
    {
        BytesContentPathPredicate { inner: bytes_inner_new(value), expected: Ghost(value@) }
    }
}

impl Utf8PathPredicate for BytesContentPathPredicate {
    fn eval(&self, path: &str) -> bool {
        bytes_inner_eval(&self.inner, path)
    }

    fn find_case(&self, expected: bool, path: &str) -> Option<String> {
        match bytes_inner_find_case(&self.inner, expected, path) {
            Some(case) => Some(case_message(&case)),
            None => None,
        }
    }
}

/// Adapter for strings: the file at the path must hold exactly this text,
/// with a mismatch explained as a diff.
pub struct StrContentPathPredicate {
    inner: StrContentInner,
    expected: Ghost<Seq<char>>,
}

impl StrContentPathPredicate {
    /// The text that the checked file must hold.
    pub closed spec fn spec_expected(&self) -> Seq<char> {
        self.expected@
    }

    /// The predicate that the file at a path holds exactly the text `value`.
    pub fn new(value: String) -> (r: Self)
        ensures
            r.spec_expected() == value@,
    {
        let ghost expected = value@;
        StrContentPathPredicate { inner: str_inner_new(value), expected: Ghost(expected) }
    }
}

impl Utf8PathPredicate for StrContentPathPredicate {
    fn eval(&self, path: &str) -> bool {
        str_inner_eval(&self.inner, path)
    }

    fn find_case(&self, expected: bool, path: &str) -> Option<String> {
        match str_inner_find_case(&self.inner, expected, path) {
            Some(case) => Some(case_message(&case)),
            None => None,
        }
    }
}

/// Adapter for predicates over file text: the given predicate is applied to
/// the UTF-8-decoded content of the file at the path.
pub struct StrPathPredicate {
    inner: StrTextInner,
}

impl StrPathPredicate {
    /// Wrap `value` so it is applied to the decoded content of the file at
    /// a path rather than to the path itself.
    pub fn new(value: predicates::BoxPredicate<str>) -> (r: Self) {
        StrPathPredicate { inner: text_inner_new(value) }
    }
}

impl Utf8PathPredicate for StrPathPredicate {
    fn eval(&self, path: &str) -> bool {
        text_inner_eval(&self.inner, path)
    }

    fn find_case(&self, expected: bool, path: &str) -> Option<String> {
        match text_inner_find_case(&self.inner, expected, path) {
            Some(case) => Some(case_message(&case)),
            None => None,
        }
    }
}

/// Adapter for predicates over raw paths: the given predicate is applied to
/// the OS view of the path, so that generic path predicates (existence,
/// file type, metadata) can be reused.
pub struct PathPredicate {
    inner: predicates::BoxPredicate<std::path::Path>,
}

impl PathPredicate {
    /// Wrap `value` so it is applied to the OS view of a UTF-8 path.
    pub fn new(value: predicates::BoxPredicate<std::path::Path>) -> (r: Self) {
        PathPredicate { inner: value }
    }
}

impl Utf8PathPredicate for PathPredicate {
    fn eval(&self, path: &str) -> bool {
        box_path_eval(&self.inner, path)
    }

    fn find_case(&self, expected: bool, path: &str) -> Option<String> {
        match box_path_find_case(&self.inner, expected, path) {
            Some(case) => Some(case_message(&case)),
            None => None,
        }
    }
}

/// Converts a value into the needed predicate over a UTF-8 path.
///
/// Exactly one adapter applies per input shape: raw bytes, text, a boxed
/// predicate over file text, a boxed predicate over a raw path, or an
/// already converted predicate.
pub trait IntoUtf8PathPredicate<P> where P: Utf8PathPredicate {
    /// The type of the predicate being returned.
    type Target;

    /// Convert to a predicate for testing a path.
    fn into_path(self) -> P;
}

impl IntoUtf8PathPredicate<BytesContentPathPredicate> for &'static [u8] {
    type Target = BytesContentPathPredicate;

    fn into_path(self) -> (r: BytesContentPathPredicate) {
        BytesContentPathPredicate::new(self)
    }
}

impl<P: Utf8PathPredicate> IntoUtf8PathPredicate<P> for P {
    type Target = P;

    fn into_path(self) -> (r: P)
        ensures
            r == self,
    {
        self
    }
}

impl<const N: usize> IntoUtf8PathPredicate<BytesContentPathPredicate> for &'static [u8; N] {
    type Target = BytesContentPathPredicate;

    fn into_path(self) -> (r: BytesContentPathPredicate) {
        BytesContentPathPredicate::new(self.as_slice())
    }
}

impl IntoUtf8PathPredicate<StrContentPathPredicate> for String {
    type Target = StrContentPathPredicate;

    fn into_path(self) -> (r: StrContentPathPredicate) {
        StrContentPathPredicate::new(self)
    }
}

impl IntoUtf8PathPredicate<StrContentPathPredicate> for &str {
    type Target = StrContentPathPredicate;

    fn into_path(self) -> (r: StrContentPathPredicate) {
        StrContentPathPredicate::new(self.to_owned())
    }
}

impl IntoUtf8PathPredicate<StrContentPathPredicate> for &String {
    type Target = StrContentPathPredicate;

    fn into_path(self) -> (r: StrContentPathPredicate) {
        StrContentPathPredicate::new(self.clone())
    }
}

impl IntoUtf8PathPredicate<StrPathPredicate> for predicates::BoxPredicate<str> {
    type Target = StrPathPredicate;

    fn into_path(self) -> (r: StrPathPredicate) {
        StrPathPredicate::new(self)
    }
}

impl IntoUtf8PathPredicate<PathPredicate> for predicates::BoxPredicate<std::path::Path> {
    type Target = PathPredicate;

    fn into_path(self) -> (r: PathPredicate) {
        PathPredicate::new(self)
    }
}

/// The message that a failed check reports: the rendered explanation
/// followed by the path that was checked.
pub open spec fn failure_message(explanation: Seq<char>, path: Seq<char>) -> Seq<char> {
    "Unexpected file, failed "@ + explanation + "\npath="@ + path
}

/// Render the message of a failed check, as [`failure_message`] describes.
pub fn format_failure(explanation: &str, path: &str) -> (r: String)
    ensures
        r@ == failure_message(explanation@, path@),
{
    "Unexpected file, failed ".to_owned().concat(explanation).concat("\npath=").concat(path)
}

/// What a check against `path` returns for a found case: no case is the
/// normal return, a found case is the failure carrying [`failure_message`]
/// built from that case's rendering.
pub open spec fn is_check_outcome(
    r: Result<(), String>,
    case: Option<Seq<char>>,
    path: Seq<char>,
) -> bool {
    match case {
        Some(m) => r matches Err(f) && f@ == failure_message(m, path),
        None => r is Ok,
    }
}

/// Turn the found case of an evaluation into the check's outcome: no case
/// is the normal return; a found case fails with the message built from its
/// rendering and the path.
pub fn render_outcome(case: Option<String>, path: &str) -> (r: Result<(), String>)
    ensures
        match case {
            Some(m) => r matches Err(f) && f@ == failure_message(m@, path@),
            None => r is Ok,
        },
{
    match case {
        None => Ok(()),
        Some(message) => Err(format_failure(message.as_str(), path)),
    }
}

/// Evaluate `pred` against `path`, asking for a case only when the
/// predicate is false: the expected flag handed to the evaluation is always
/// false, "this predicate should hold, show me why it doesn't". The outcome
/// is a function of the found case, as [`render_outcome`] states exactly: a
/// holding predicate returns normally, a failing one returns the failure
/// message built from the case's rendering and the path.
pub fn check<I, P>(path: &str, pred: I) -> (r: Result<(), String>) where
    I: IntoUtf8PathPredicate<P>,
    P: Utf8PathPredicate,

    ensures
        exists|case: Option<Seq<char>>| is_check_outcome(r, case, path@),
{
    let pred = pred.into_path();
    let case = pred.find_case(false, path);
    let ghost case_view: Option<Seq<char>> = match &case {
        Some(m) => Some(m@),
        None => None,
    };
    let r = render_outcome(case, path);
    proof {
        assert(is_check_outcome(r, case_view, path@));
    }
    r
}

/// Check the state of the file or directory a value addresses.
pub trait PathAssert: HasUtf8Path {
    /// Evaluate `pred` against this value's path. The outcome is a function
    /// of the case the evaluation found, as [`render_outcome`] states
    /// exactly: the normal return when none was found, else the failure
    /// message built from the case's rendering and the path.
    fn check<I, P>(&self, pred: I) -> (r: Result<(), String>) where
        I: IntoUtf8PathPredicate<P>,
        P: Utf8PathPredicate,

        ensures
            exists|case: Option<Seq<char>>| is_check_outcome(r, case, self.spec_path()),
    ;
}

impl PathAssert for ChildPath {
    fn check<I, P>(&self, pred: I) -> (r: Result<(), String>) where
        I: IntoUtf8PathPredicate<P>,
        P: Utf8PathPredicate,
    {
        let path = self.as_path();
        let r = check(path, pred);
        proof {
            let case = choose|case: Option<Seq<char>>| is_check_outcome(r, case, path@);
            assert(is_check_outcome(r, case, self.spec_path()));
        }
        r
    }
}

} // verus!
