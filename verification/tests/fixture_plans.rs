use camino_tempfile_ext::child::ChildPath;
use camino_tempfile_ext::child::PathChild;
use camino_tempfile_ext::errors::FixtureKind;
use camino_tempfile_ext::tools::create_dir_all;
use camino_tempfile_ext::tools::step_failure;
use camino_tempfile_ext::tools::touch;
use camino_tempfile_ext::tools::write_binary;
use camino_tempfile_ext::tools::write_file;
use camino_tempfile_ext::tools::write_str;
use camino_tempfile_ext::tools::FileTouch;
use camino_tempfile_ext::tools::FileWriteBin;
use camino_tempfile_ext::tools::FsOp;
use camino_tempfile_ext::tools::FsStep;
use camino_tempfile_ext::tools::PathCreateDir;
use camino_tempfile_ext::tools::SymlinkToDir;
use camino_tempfile_ext::tools::SymlinkToFile;

#[test]
fn touch_plan_creates_missing_parents() {
    let steps = touch("/root/sub/dir/file.txt");
    let expected = vec![
        FsStep {
            op: FsOp::CreateDirAll { path: "/root/sub/dir".to_string() },
            on_fail: FixtureKind::CreateDir,
        },
        FsStep {
            op: FsOp::CreateFile { path: "/root/sub/dir/file.txt".to_string() },
            on_fail: FixtureKind::WriteFile,
        },
    ];
    assert_eq!(steps, expected);
}

#[test]
fn create_dir_all_plan_is_idempotent() {
    let first = create_dir_all("/root/fresh/dir");
    let second = create_dir_all("/root/fresh/dir");
    assert_eq!(first, second);
    let expected = vec![FsStep {
        op: FsOp::CreateDirAll { path: "/root/fresh/dir".to_string() },
        on_fail: FixtureKind::CreateDir,
    }];
    assert_eq!(first, expected);
}

#[test]
fn write_str_plan_is_the_binary_plan_of_the_encoding() {
    let text_plan = write_str("/root/f.txt", "héllo wörld");
    let binary_plan = write_binary("/root/f.txt", "héllo wörld".as_bytes());
    assert_eq!(text_plan, binary_plan);
    assert_eq!(
        text_plan[1].op,
        FsOp::WriteAll {
            path: "/root/f.txt".to_string(),
            data: "héllo wörld".as_bytes().to_vec(),
        }
    );
}

#[test]
fn write_file_plan_copies_the_source_over_the_path() {
    let steps = write_file("/root/dst.txt", "/elsewhere/src.txt");
    let expected = vec![
        FsStep {
            op: FsOp::CreateDirAll { path: "/root".to_string() },
            on_fail: FixtureKind::CreateDir,
        },
        FsStep {
            op: FsOp::CopyFile {
                from: "/elsewhere/src.txt".to_string(),
                to: "/root/dst.txt".to_string(),
            },
            on_fail: FixtureKind::CopyFile,
        },
    ];
    assert_eq!(steps, expected);
}

#[test]
fn symlink_plans_use_the_platform_primitive_once() {
    let root = ChildPath::new("/root".to_string());
    let file_steps = root.child("link").symlink_to_file("/root/real_file");
    assert_eq!(
        file_steps,
        vec![FsStep {
            op: FsOp::SymlinkFile {
                link: "/root/link".to_string(),
                target: "/root/real_file".to_string(),
            },
            on_fail: FixtureKind::Symlink,
        }]
    );

    let dir_steps = root.child("link_dir").symlink_to_dir("/root/real_dir");
    assert_eq!(
        dir_steps,
        vec![FsStep {
            op: FsOp::SymlinkDir {
                link: "/root/link_dir".to_string(),
                target: "/root/real_dir".to_string(),
            },
            on_fail: FixtureKind::Symlink,
        }]
    );
}

#[test]
fn trait_plans_match_free_function_plans() {
    let child = ChildPath::new("/root/a".to_string());
    assert_eq!(child.create_dir_all(), create_dir_all("/root/a"));
    assert_eq!(child.touch(), touch("/root/a"));
    assert_eq!(child.write_binary(b"xyz"), write_binary("/root/a", b"xyz"));
}

#[test]
fn step_failure_reports_the_steps_stage() {
    let step = FsStep {
        op: FsOp::CreateFile { path: "/root/f".to_string() },
        on_fail: FixtureKind::WriteFile,
    };
    let error = step_failure(&step, "disk full".to_string());
    assert_eq!(error.kind(), FixtureKind::WriteFile);
    assert_eq!(error.source().unwrap(), "disk full");
}
