use std::io::Write;

use crame::{
    git_rules, ignore_contents, init_vcs, missing_rules, InitAction, ProjectPath, VcsReport,
    VersionControl,
};

fn to_project_path(p: &std::path::Path) -> ProjectPath {
    let mut r = ProjectPath::new_absolute();
    for c in p.components() {
        if let std::path::Component::Normal(os) = c {
            r.push(os.to_str().expect("utf-8 path").to_string());
        }
    }
    r
}

fn call_init_vcs(dir: &std::path::Path, vcs: VersionControl) -> VcsReport {
    let mut dir_path = to_project_path(dir);
    let depth = dir_path.depth();
    let report = init_vcs(vcs, &mut dir_path);
    assert_eq!(depth, dir_path.depth(), "cursor restored");
    report
}

fn call_git_init_vcs(dir: &std::path::Path) -> VcsReport {
    call_init_vcs(dir, VersionControl::Git)
}

/// Carries out the ignore write an `init_vcs` run left for its caller.
fn apply_ignore_write(report: &VcsReport) {
    let action = report.write.as_ref().expect("an ignore write was left");
    match action {
        InitAction::WriteIgnore { path, contents } => {
            let full = path.display();
            let target = std::path::Path::new(&full);
            let parent = target.parent().expect("ignore file has a parent");
            let mut tmp = tempfile::NamedTempFile::new_in(parent).expect("temp file");
            tmp.write_all(contents.as_bytes()).expect("write ignore rules");
            tmp.persist(target).expect("place ignore file");
        },
        _ => panic!("expected an ignore write"),
    }
}

fn assert_full_ignore(dir: &std::path::Path, report: &VcsReport) {
    match report.write.as_ref().expect(".gitignore created") {
        InitAction::WriteIgnore { path, contents } => {
            let expected = dir.join(".gitignore");
            assert_eq!(expected.to_str().expect("utf-8 path"), path.display());
            assert_eq!("target/\n", contents);
        },
        _ => panic!("expected an ignore write"),
    }
}

#[test]
fn reconcile_keeps_only_missing_rules() {
    let rules = vec!["target/".to_string(), "build/".to_string(), "*.o".to_string()];
    let ignored = vec![false, true, false];
    let left = missing_rules(&rules, &ignored);
    assert_eq!(vec!["target/".to_string(), "*.o".to_string()], left);
}

#[test]
fn reconcile_all_ignored_is_empty() {
    let rules = git_rules();
    let ignored = vec![true];
    assert!(missing_rules(&rules, &ignored).is_empty());
}

#[test]
fn ignore_text_one_rule_per_line() {
    let rules = vec!["target/".to_string(), "*.o".to_string()];
    assert_eq!("target/\n*.o\n", ignore_contents(&rules));
}

#[test]
fn none_empty_dir() {
    let dir = tempfile::tempdir().expect("create temp directory");
    let report = call_init_vcs(dir.path(), VersionControl::Disabled);
    assert!(report.write.is_none());
    assert!(!report.initialized);
    let members = dir.path().read_dir().expect("accessing directory members").count();
    assert_eq!(0, members);
}

#[test]
fn git_empty_dir_has_git_dir() {
    let dir = tempfile::tempdir().expect("create temp directory");
    let report = call_git_init_vcs(dir.path());
    assert!(report.initialized);
    let git_dir_path = dir.path().join(".git");
    assert!(git_dir_path.exists());
}

#[test]
fn git_empty_dir_has_ignore() {
    let dir = tempfile::tempdir().expect("create temp directory");
    let report = call_git_init_vcs(dir.path());
    assert_full_ignore(dir.path(), &report);
}

#[test]
fn git_existing_dir_no_error() {
    let dir = tempfile::tempdir().expect("create temp directory");
    let report = call_git_init_vcs(dir.path());
    apply_ignore_write(&report);
    let again = call_git_init_vcs(dir.path());
    assert!(again.repo_found);
}

#[test]
fn git_existing_parent_dir_has_no_git_dir() {
    let dir = tempfile::tempdir().expect("create temp directory");
    git2::Repository::init(dir.path()).expect("create parent repository");
    let subdir = tempfile::tempdir_in(dir.path()).expect("create subdir");
    call_git_init_vcs(subdir.path());

    let git_dir_path = subdir.path().join(".git");
    assert!(!git_dir_path.exists());
}

#[test]
fn git_existing_parent_dir_has_ignore() {
    let dir = tempfile::tempdir().expect("create temp directory");
    git2::Repository::init(dir.path()).expect("create parent repository");
    let subdir = tempfile::tempdir_in(dir.path()).expect("create subdir");
    let report = call_git_init_vcs(subdir.path());

    assert!(report.repo_found);
    assert_full_ignore(subdir.path(), &report);
}

#[test]
fn git_existing_parent_dir_with_ignore() {
    let dir = tempfile::tempdir().expect("create temp directory");
    let parent_report = call_git_init_vcs(dir.path());
    apply_ignore_write(&parent_report);
    let subdir = tempfile::tempdir_in(dir.path()).expect("create subdir");
    let report = call_git_init_vcs(subdir.path());

    assert!(report.repo_found);
    assert!(!report.query_failed);
    assert!(report.write.is_none(), "an already-ignored rule is not written again");
}

#[test]
fn ignore_second_run_writes_nothing() {
    let dir = tempfile::tempdir().expect("create temp directory");
    let first = call_git_init_vcs(dir.path());
    assert_full_ignore(dir.path(), &first);
    apply_ignore_write(&first);

    let second = call_git_init_vcs(dir.path());
    assert!(second.repo_found);
    assert!(!second.query_failed);
    assert!(second.write.is_none(), "the second run reconciles to the empty set");
}
