use svld::copy::{
    check_structure, mirror_exit_accepted, next_copy_step, plan_copy, summarize_copy, CopyError,
    CopyEvent, CopyFailure, CopyStage, CopyStep, DirCreation, FileCopyStatus, ScannedItem,
    SAMPLE_LIMIT,
};
use svld::paths::{join, normalize_separators};

fn item(path: &str, is_dir: bool) -> ScannedItem {
    ScannedItem { relative_path: path.to_string(), is_dir }
}

fn failed(path: &str) -> FileCopyStatus {
    FileCopyStatus::Failed(CopyFailure { path: path.to_string(), message: "in use".to_string() })
}

#[test]
fn plan_keeps_relative_paths() {
    let items = vec![item("", true), item("a.txt", false), item("sub", true), item("sub/b.txt", false)];
    let plan = plan_copy(&"/src".to_string(), &"/dst/".to_string(), &items);
    assert_eq!(plan.directories, vec!["/dst/sub".to_string()]);
    assert_eq!(plan.files.len(), 2);
    assert_eq!(plan.files[0].source, "/src/a.txt");
    assert_eq!(plan.files[0].destination, "/dst/a.txt");
    assert_eq!(plan.files[1].source, "/src/sub/b.txt");
    assert_eq!(plan.files[1].destination, "/dst/sub/b.txt");
}

#[test]
fn join_inserts_one_separator() {
    assert_eq!(join(&"root".to_string(), &"x".to_string()), "root/x");
    assert_eq!(join(&"root/".to_string(), &"x".to_string()), "root/x");
    assert_eq!(join(&"".to_string(), &"x".to_string()), "x");
    assert_eq!(normalize_separators("a\\b\\c"), "a/b/c");
}

#[test]
fn one_locked_file_is_reported() {
    let results = vec![FileCopyStatus::Copied, failed("locked.dat"), FileCopyStatus::Copied];
    match summarize_copy(&results) {
        Err(CopyError::PartialFailure { failed, copied, samples }) => {
            assert_eq!(failed, 1);
            assert_eq!(copied, 2);
            assert_eq!(samples.len(), 1);
            assert_eq!(samples[0].path, "locked.dat");
            assert_eq!(samples[0].message, "in use");
        }
        _ => panic!("expected a partial failure"),
    }
}

#[test]
fn all_copied_is_success() {
    let results = vec![FileCopyStatus::Copied, FileCopyStatus::Copied];
    assert!(matches!(summarize_copy(&results), Ok(2)));
    assert!(matches!(summarize_copy(&Vec::new()), Ok(0)));
}

#[test]
fn samples_are_bounded() {
    let mut results = Vec::new();
    for i in 0..12 {
        results.push(failed(&format!("f{}", i)));
    }
    results.push(FileCopyStatus::Copied);
    match summarize_copy(&results) {
        Err(CopyError::PartialFailure { failed, copied, samples }) => {
            assert_eq!(failed, 12);
            assert_eq!(copied, 1);
            assert_eq!(samples.len(), SAMPLE_LIMIT);
            assert_eq!(samples[0].path, "f0");
            assert_eq!(samples[9].path, "f9");
        }
        _ => panic!("expected a partial failure"),
    }
}

#[test]
fn existing_directories_are_no_error() {
    let dirs = vec!["/d/a".to_string(), "/d/b".to_string()];
    let ok = vec![DirCreation::Created, DirCreation::AlreadyExisted];
    assert!(check_structure(&dirs, &ok).is_ok());
    let bad = vec![DirCreation::AlreadyExisted, DirCreation::Failed { message: "denied".to_string() }];
    match check_structure(&dirs, &bad) {
        Err(CopyError::CreateDir { path, message }) => {
            assert_eq!(path, "/d/b");
            assert_eq!(message, "denied");
        }
        _ => panic!("expected a directory failure"),
    }
}

#[test]
fn mirror_warnings_count_as_success() {
    assert!(mirror_exit_accepted(Some(0)));
    assert!(mirror_exit_accepted(Some(7)));
    assert!(!mirror_exit_accepted(Some(8)));
    assert!(!mirror_exit_accepted(Some(-1)));
    assert!(!mirror_exit_accepted(None));
}

#[test]
fn strategies_fall_through_in_order() {
    assert!(matches!(next_copy_step(CopyStage::Mirror, CopyEvent::Exited(Some(1))), CopyStep::Finish(Ok(()))));
    assert!(matches!(
        next_copy_step(CopyStage::Mirror, CopyEvent::Exited(Some(16))),
        CopyStep::Run(CopyStage::SystemCopy)
    ));
    assert!(matches!(
        next_copy_step(CopyStage::Mirror, CopyEvent::Unavailable),
        CopyStep::Run(CopyStage::SystemCopy)
    ));
    assert!(matches!(next_copy_step(CopyStage::SystemCopy, CopyEvent::Exited(Some(0))), CopyStep::Finish(Ok(()))));
    assert!(matches!(
        next_copy_step(CopyStage::SystemCopy, CopyEvent::Exited(Some(4))),
        CopyStep::Run(CopyStage::Manual)
    ));
    let done = next_copy_step(
        CopyStage::Manual,
        CopyEvent::ManualDone(Err(CopyError::Scan { message: "gone".to_string() })),
    );
    assert!(matches!(done, CopyStep::Finish(Err(CopyError::Scan { .. }))));
}
