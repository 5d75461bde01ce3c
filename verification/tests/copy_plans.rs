use camino_tempfile::Builder;
use camino_tempfile::Utf8TempDir;
use camino_tempfile_ext::child::ChildPath;
use camino_tempfile_ext::copy::copy_files;
use camino_tempfile_ext::copy::plan_walked;
use camino_tempfile_ext::copy::EntryKind;
use camino_tempfile_ext::copy::PathCopy;
use camino_tempfile_ext::copy::WalkedEntry;
use camino_tempfile_ext::errors::FixtureKind;
use camino_tempfile_ext::tools::FsOp;
use camino_tempfile_ext::tools::FsStep;
use std::io::Write;

fn place_file(dir: &camino::Utf8Path, name: &str, suffix: &str, content: &[u8]) {
    let file = Builder::new()
        .prefix(name)
        .suffix(suffix)
        .rand_bytes(0)
        .tempfile_in(dir)
        .unwrap();
    let (mut handle, _path) = file.keep().unwrap();
    handle.write_all(content).unwrap();
    handle.flush().unwrap();
}

#[test]
fn copy_from_filters_entries_by_glob_pattern() {
    let source = Utf8TempDir::new().unwrap();
    place_file(source.path(), "a", ".rs", b"fn a() {}\n");
    place_file(source.path(), "b", ".txt", b"not rust\n");
    let sub = Builder::new()
        .prefix("sub")
        .rand_bytes(0)
        .tempdir_in(source.path())
        .unwrap();
    let sub_path = sub.keep();
    place_file(&sub_path, "c", ".rs", b"fn c() {}\n");

    let canonical = source.path().canonicalize_utf8().unwrap();
    let patterns = vec!["*.rs".to_string()];
    let steps = copy_files("/target", source.path().as_str(), &patterns).unwrap();

    let mut copies: Vec<(String, String)> = Vec::new();
    for step in &steps {
        match &step.op {
            FsOp::CopyFile { from, to } => copies.push((from.clone(), to.clone())),
            FsOp::CreateDirAll { .. } => {},
            _ => panic!("unexpected step in copy plan: {:?}", step),
        }
    }
    copies.sort();
    assert_eq!(
        copies,
        vec![
            (format!("{canonical}/a.rs"), "/target/a.rs".to_string()),
            (format!("{canonical}/sub/c.rs"), "/target/sub/c.rs".to_string()),
        ]
    );

    // Directory structure is preserved: the nested copy ensures its parent.
    assert!(steps.iter().any(|step| matches!(
        &step.op,
        FsOp::CreateDirAll { path } if path == "/target/sub"
    )));
    // The non-matching file is not copied.
    assert!(!steps.iter().any(|step| matches!(
        &step.op,
        FsOp::CopyFile { from, .. } if from.contains("b.txt")
    )));
}

#[test]
fn copy_from_on_a_child_path_matches_the_free_function() {
    let source = Utf8TempDir::new().unwrap();
    place_file(source.path(), "only", ".rs", b"fn only() {}\n");

    let patterns = vec!["*.rs".to_string()];
    let via_trait = ChildPath::new("/target".to_string())
        .copy_from(source.path().as_str(), &patterns)
        .unwrap();
    let via_free = copy_files("/target", source.path().as_str(), &patterns).unwrap();
    assert_eq!(via_trait, via_free);
}

#[test]
fn plan_walked_concatenates_per_entry_plans_in_order() {
    let walked: Vec<WalkedEntry> = vec![
        Ok(("/src/sub".to_string(), EntryKind::Dir)),
        Ok(("/src/sub/c.rs".to_string(), EntryKind::File)),
        Ok(("/src/dangling".to_string(), EntryKind::Other)),
    ];
    let steps = plan_walked("/target", "/src", &walked).unwrap();
    assert_eq!(
        steps,
        vec![
            FsStep {
                op: FsOp::CreateDirAll { path: "/target/sub".to_string() },
                on_fail: FixtureKind::CreateDir,
            },
            FsStep {
                op: FsOp::CreateDirAll { path: "/target/sub".to_string() },
                on_fail: FixtureKind::CreateDir,
            },
            FsStep {
                op: FsOp::CopyFile {
                    from: "/src/sub/c.rs".to_string(),
                    to: "/target/sub/c.rs".to_string(),
                },
                on_fail: FixtureKind::CopyFile,
            },
        ]
    );
}

#[test]
fn plan_walked_first_failure_decides() {
    let walked: Vec<WalkedEntry> = vec![
        Ok(("/src/a.rs".to_string(), EntryKind::File)),
        Err("permission denied".to_string()),
        Err("a later failure".to_string()),
    ];
    let error = plan_walked("/target", "/src", &walked).unwrap_err();
    assert_eq!(error.kind(), FixtureKind::Walk);
    assert_eq!(error.source().unwrap(), "permission denied");

    let stray: Vec<WalkedEntry> = vec![
        Ok(("/elsewhere/x".to_string(), EntryKind::File)),
        Err("a later failure".to_string()),
    ];
    let error = plan_walked("/target", "/src", &stray).unwrap_err();
    assert_eq!(error.kind(), FixtureKind::Walk);
    assert_eq!(error.source().unwrap(), "entry is not under the source root: /elsewhere/x");
}

#[test]
fn copy_from_missing_source_fails_with_walk() {
    let patterns = vec!["*.rs".to_string()];
    let error = copy_files("/target", "/path/that/does/not/exist", &patterns).unwrap_err();
    assert_eq!(error.kind(), FixtureKind::Walk);
    assert!(error.source().is_some());
}
