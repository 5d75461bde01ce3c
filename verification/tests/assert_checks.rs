use camino_tempfile::Builder;
use camino_tempfile::NamedUtf8TempFile;
use camino_tempfile::Utf8TempDir;
use camino_tempfile_ext::asserts::check;
use camino_tempfile_ext::asserts::format_failure;
use camino_tempfile_ext::asserts::render_outcome;
use camino_tempfile_ext::asserts::IntoUtf8PathPredicate;
use camino_tempfile_ext::asserts::PathAssert;
use camino_tempfile_ext::asserts::Utf8PathPredicate;
use camino_tempfile_ext::child::ChildPath;
use camino_tempfile_ext::child::PathChild;
use camino_tempfile_ext::tools::FileTouch;
use predicates::prelude::PredicateBoxExt;
use std::io::Write;

fn file_with_content(content: &[u8]) -> NamedUtf8TempFile {
    let mut file = NamedUtf8TempFile::new().unwrap();
    file.write_all(content).unwrap();
    file.flush().unwrap();
    file
}

#[test]
fn bytes_written_then_checked_match() {
    let file = file_with_content(b"some raw bytes\x00\xff");
    let path = file.path().as_str();
    assert!(check(path, b"some raw bytes\x00\xff" as &[u8]).is_ok());

    let failure = check(path, b"other bytes" as &[u8]).unwrap_err();
    assert!(failure.starts_with("Unexpected file, failed "));
    assert!(failure.contains(path));
}

#[test]
fn text_written_then_checked_matches_and_mismatch_diffs() {
    let file = file_with_content("first line\nsecond line\n".as_bytes());
    let path = file.path().as_str();
    assert!(check(path, "first line\nsecond line\n").is_ok());

    let failure = check(path, "first line\nchanged line\n").unwrap_err();
    assert!(failure.starts_with("Unexpected file, failed "));
    assert!(failure.contains("diff"));
    assert!(failure.contains(path));
}

#[test]
fn into_utf8_path_from_pred() {
    let converted: camino_tempfile_ext::asserts::PathPredicate =
        predicates::ord::eq(std::path::Path::new("hello.md")).boxed().into_path();
    // An already converted predicate passes through the conversion unchanged.
    let pred = converted.into_path();
    let case = pred.find_case(false, "hello.md");
    println!("Failing case: {case:?}");
    assert!(case.is_none());
}

#[test]
fn into_utf8_path_from_bytes() {
    let file = file_with_content(b"hello\n");
    let pred = (b"hello\n" as &[u8]).into_path();
    let case = pred.find_case(false, file.path().as_str());
    println!("Failing case: {case:?}");
    assert!(case.is_none());
}

#[test]
fn into_utf8_path_from_byte_array() {
    let file = file_with_content(b"abc");
    let pred = b"abc".into_path();
    let case = pred.find_case(false, file.path().as_str());
    assert!(case.is_none());
}

#[test]
fn into_utf8_path_from_str() {
    let file = file_with_content(b"hello\n");
    let pred = "hello\n".into_path();
    let case = pred.find_case(false, file.path().as_str());
    println!("Failing case: {case:?}");
    assert!(case.is_none());
}

#[test]
fn into_utf8_path_from_path() {
    let pred = predicates::path::missing().boxed().into_path();
    let case = pred.find_case(false, "tests/fixture/missing.txt");
    println!("Failing case: {case:?}");
    assert!(case.is_none());
}

#[test]
fn missing_path_predicate_distinguishes_existence() {
    let temp = Utf8TempDir::new().unwrap();
    let root = ChildPath::new(temp.path().as_str().to_owned());

    // A path that was never created satisfies the missing predicate.
    let never_created = root.child("never/created.txt");
    assert!(never_created.check(predicates::path::missing().boxed()).is_ok());

    // The temp root itself exists, so the missing predicate fails on it.
    let failure = root.check(predicates::path::missing().boxed()).unwrap_err();
    assert!(failure.starts_with("Unexpected file, failed "));
    assert!(failure.contains(temp.path().as_str()));
}

#[test]
fn dropping_the_temp_root_fails_later_existence_checks() {
    let temp = Utf8TempDir::new().unwrap();
    let root_path = temp.path().as_str().to_owned();
    let file = Builder::new()
        .prefix("kept")
        .suffix(".txt")
        .rand_bytes(0)
        .tempfile_in(temp.path())
        .unwrap();
    let (_handle, kept_path) = file.keep().unwrap();
    let file_path = kept_path.as_str().to_owned();

    let root = ChildPath::new(root_path);
    assert!(root.check(predicates::path::exists().boxed()).is_ok());
    assert!(check(file_path.as_str(), predicates::path::exists().boxed()).is_ok());

    temp.close().unwrap();
    assert!(root.check(predicates::path::exists().boxed()).is_err());
    assert!(root.check(predicates::path::missing().boxed()).is_ok());
    assert!(check(file_path.as_str(), predicates::path::missing().boxed()).is_ok());
}

#[test]
fn code_example() {
    let temp = Utf8TempDir::new().unwrap();
    let root = ChildPath::new(temp.path().as_str().to_owned());
    let input_file = root.child("foo.txt");

    // Plan the touch, and perform it through the temp-file builder.
    let steps = input_file.touch();
    assert_eq!(steps.len(), 2);
    let _kept = Builder::new()
        .prefix("foo")
        .suffix(".txt")
        .rand_bytes(0)
        .tempfile_in(temp.path())
        .unwrap();

    assert!(input_file.check("").is_ok());
    assert!(root.child("bar.txt").check(predicates::path::missing().boxed()).is_ok());

    temp.close().unwrap();
}

#[test]
fn verify_failure_output() {
    let f = ChildPath::new("Cargo.toml".to_string());
    let failure = f.check("Not real content").unwrap_err();
    assert!(failure.starts_with("Unexpected file, failed "));
    assert!(failure.ends_with("\npath=Cargo.toml"));
}

#[test]
fn eval_reports_the_predicate_outcome() {
    let file = file_with_content(b"x");
    let pred = (b"x" as &[u8]).into_path();
    assert!(pred.eval(file.path().as_str()));
    assert!(!pred.eval("tests/fixture/missing.txt"));
}

#[test]
fn text_predicates_apply_to_file_content() {
    let empty = file_with_content(b"");
    let pred = predicates::str::is_empty().boxed().into_path();
    assert!(pred.find_case(false, empty.path().as_str()).is_none());

    let nonempty = file_with_content(b"data");
    assert!(pred.find_case(false, nonempty.path().as_str()).is_some());
}

#[test]
fn invalid_utf8_content_fails_text_checks() {
    let file = file_with_content(b"\xff\xfe\x00");
    assert!(check(file.path().as_str(), "anything").is_err());
    assert!(check(file.path().as_str(), b"\xff\xfe\x00" as &[u8]).is_ok());
}

#[test]
fn format_failure_is_exact() {
    assert_eq!(
        format_failure("tree text", "/some/path"),
        "Unexpected file, failed tree text\npath=/some/path"
    );
}

#[test]
fn render_outcome_maps_cases_to_outcomes() {
    assert_eq!(render_outcome(None, "/some/path"), Ok(()));
    assert_eq!(
        render_outcome(Some("tree text".to_string()), "/some/path"),
        Err("Unexpected file, failed tree text\npath=/some/path".to_string())
    );
}
