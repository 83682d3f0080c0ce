use crame::{
    file_text, init_build_system, project_init, BuildSystem, InitAction, InitMachine,
    ProjectPath, VersionControl,
};

fn to_project_path(p: &std::path::Path) -> ProjectPath {
    let mut r = ProjectPath::new_absolute();
    for c in p.components() {
        if let std::path::Component::Normal(os) = c {
            r.push(os.to_str().expect("utf-8 path").to_string());
        }
    }
    r
}

fn drive(m: &mut InitMachine) -> Vec<InitAction> {
    let mut acts: Vec<InitAction> = Vec::new();
    loop {
        match m.next_action() {
            Ok(InitAction::Finished) => break,
            Ok(a) => acts.push(a),
            Err(e) => panic!("no error in project_init: {}", e.message()),
        }
    }
    acts
}

fn init_at(dir: &std::path::Path) -> Vec<InitAction> {
    let mut m = project_init(
        to_project_path(dir),
        BuildSystem::Just,
        VersionControl::Git,
    );
    drive(&mut m)
}

fn dir_action_paths(acts: &[InitAction]) -> Vec<String> {
    let mut r: Vec<String> = Vec::new();
    for a in acts {
        if let InitAction::CreateDir { path } = a {
            r.push(path.display());
        }
    }
    r
}

fn file_actions(acts: &[InitAction]) -> Vec<(String, String)> {
    let mut r: Vec<(String, String)> = Vec::new();
    for a in acts {
        if let InitAction::CreateFile { path, contents } = a {
            r.push((path.display(), contents.clone()));
        }
    }
    r
}

fn joined(dir: &std::path::Path, tail: &[&str]) -> String {
    let mut p = dir.to_path_buf();
    for t in tail {
        p = p.join(t);
    }
    p.to_str().expect("utf-8 path").to_string()
}

#[test]
fn directories_exist() {
    let dir = tempfile::tempdir().expect("create temporary directory");
    let expected_dirs = vec![
        joined(dir.path(), &["src"]),
        joined(dir.path(), &["lib"]),
        joined(dir.path(), &["tests"]),
        joined(dir.path(), &["tests", "unit"]),
    ];

    let acts = init_at(dir.path());

    assert_eq!(expected_dirs, dir_action_paths(&acts));
}

#[test]
fn program_files_exist() {
    let dir = tempfile::tempdir().expect("create temporary directory");
    let expected_files = vec![
        joined(dir.path(), &["src", "main.c"]),
        joined(dir.path(), &["tests", "run.c"]),
        joined(dir.path(), &["tests", "test_all.c"]),
        joined(dir.path(), &["tests", "unit", "it_works.c"]),
    ];

    let acts = init_at(dir.path());
    let files = file_actions(&acts);

    for (expected, (created, _)) in expected_files.iter().zip(files.iter()) {
        assert_eq!(expected, created);
    }
}

#[test]
fn program_files_contents() {
    let dir = tempfile::tempdir().expect("create temporary directory");

    let acts = init_at(dir.path());
    let files = file_actions(&acts);

    for i in 0..4usize {
        let (_, created_contents) = &files[i];
        assert_eq!(&file_text(i), created_contents);
    }
}

#[test]
fn just() {
    let dir = tempfile::tempdir().expect("create temporary directory");
    let mut dir_path = to_project_path(dir.path());
    let depth = dir_path.depth();

    let action = init_build_system(BuildSystem::Just, &mut dir_path);

    assert_eq!(depth, dir_path.depth());
    match action {
        InitAction::CreateFile { path, contents } => {
            assert_eq!(joined(dir.path(), &["justfile"]), path.display());
            assert_eq!(BuildSystem::Just.file_text(), contents);
        },
        _ => panic!("expected the build file"),
    }
}

#[test]
fn scenario_testname() {
    let dir = tempfile::tempdir().expect("create temporary directory");
    let root = dir.path().join("testname");

    let acts = init_at(&root);

    assert_eq!(
        vec![
            joined(&root, &["src"]),
            joined(&root, &["lib"]),
            joined(&root, &["tests"]),
            joined(&root, &["tests", "unit"]),
        ],
        dir_action_paths(&acts)
    );
    let files = file_actions(&acts);
    assert_eq!(5, files.len());
    assert_eq!(joined(&root, &["justfile"]), files[4].0);

    let mut saw_ignore = false;
    let mut saw_config = false;
    for a in &acts {
        match a {
            InitAction::WriteIgnore { path, contents } => {
                assert_eq!(joined(&root, &[".gitignore"]), path.display());
                assert_eq!("target/\n", contents);
                saw_ignore = true;
            },
            InitAction::WriteConfig { path, contents } => {
                assert_eq!(joined(&root, &["Crame.toml"]), path.display());
                assert_eq!(
                    "[package]\nname = 'testname'\nbuild_system = 'just'\n",
                    contents
                );
                saw_config = true;
            },
            _ => {},
        }
    }
    assert!(saw_ignore, "a fresh repository gets the full ignore list");
    assert!(saw_config);
    assert!(root.join(".git").exists(), "a repository is created at the root");
}

#[test]
fn no_vcs_run_has_no_ignore_write() {
    let dir = tempfile::tempdir().expect("create temporary directory");
    let mut m = project_init(
        to_project_path(dir.path()),
        BuildSystem::Just,
        VersionControl::Disabled,
    );
    let acts = drive(&mut m);
    for a in &acts {
        assert!(!matches!(a, InitAction::WriteIgnore { .. }));
    }
    assert!(!dir.path().join(".git").exists());
}

#[test]
fn naming_failure_surfaces_at_config_step() {
    let mut m = project_init(
        ProjectPath::new_absolute(),
        BuildSystem::Just,
        VersionControl::Disabled,
    );
    let mut result = Ok(());
    for _ in 0..16 {
        match m.next_action() {
            Ok(InitAction::Finished) => break,
            Ok(_) => {},
            Err(e) => {
                result = Err(e);
                break;
            },
        }
    }
    let err = result.expect_err("a root path has no package name");
    assert_eq!("cannot determine package name from path: `/`", err.message());
}
