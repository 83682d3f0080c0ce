use crame::{BuildSystem, Config, InitAction, Package, ProjectPath};

const GOOD_TOML: &str = "[package]\nname = 'testname'\nbuild_system = 'just'\n";
const BAD_TOML: &str = "[package]\nnam = 'testname'\nbuild_system = 'just'\n";

fn rel_path(segs: &[&str]) -> ProjectPath {
    let mut p = ProjectPath::new_relative();
    for s in segs {
        p.push((*s).to_string());
    }
    p
}

fn test_config() -> Config {
    Config {
        package: Package { name: "testname".to_string(), build_system: BuildSystem::Just },
    }
}

#[test]
fn init_from_path_error() {
    let path = rel_path(&["bad", "path", ".."]);
    let err = Config::init_from_path(&path, BuildSystem::Just).expect_err("error init config");
    let msg = format!("cannot determine package name from path: `{}`", "bad/path/..");
    assert_eq!(msg, err.message());
}

#[test]
fn init_from_path_success() {
    let name = "testname";
    let path = rel_path(&["good", "path", name]);
    let config = Config::init_from_path(&path, BuildSystem::Just).expect("init config");

    assert!(matches!(config.package.build_system, BuildSystem::Just));
    assert_eq!(name, config.package.name);
}

#[test]
fn save_success() {
    let contents = test_config().to_toml();
    assert_eq!(GOOD_TOML, contents);
}

#[test]
fn save_in_dir_success() {
    let mut dir = rel_path(&["projectdir"]);
    let action = test_config().save_in_dir(&mut dir);
    assert_eq!(1, dir.depth());
    match action {
        InitAction::WriteConfig { path, contents } => {
            assert_eq!("projectdir/Crame.toml", path.display());
            assert_eq!(GOOD_TOML, contents);
        },
        _ => panic!("expected a config write"),
    }
}

#[test]
fn parse_good_toml() {
    let config = Config::parse_toml(GOOD_TOML).expect("valid config");
    assert_eq!("testname", config.package.name);
    assert!(matches!(config.package.build_system, BuildSystem::Just));
}

#[test]
fn parse_bad_toml() {
    assert!(Config::parse_toml(BAD_TOML).is_none());
}

#[test]
fn parse_rejects_unknown_build_system() {
    let text = "[package]\nname = 'testname'\nbuild_system = 'make'\n";
    assert!(Config::parse_toml(text).is_none());
}

#[test]
fn parse_rejects_empty() {
    assert!(Config::parse_toml("").is_none());
}

#[test]
fn toml_round_trip() {
    let config = test_config();
    let text = config.to_toml();
    let back = Config::parse_toml(&text).expect("round trip");
    assert_eq!(config.package.name, back.package.name);
    assert!(matches!(back.package.build_system, BuildSystem::Just));
}

#[test]
fn toml_round_trip_empty_name() {
    let config = Config {
        package: Package { name: String::new(), build_system: BuildSystem::Just },
    };
    let back = Config::parse_toml(&config.to_toml()).expect("round trip");
    assert_eq!("", back.package.name);
}

#[test]
fn init_from_path_rejects_quoted_name() {
    let path = rel_path(&["some", "a'b"]);
    let err = Config::init_from_path(&path, BuildSystem::Just).expect_err("quoted name");
    assert!(matches!(err, crame::Error::Naming(_)));
    assert_eq!("cannot determine package name from path: `some/a'b`", err.message());
}

#[test]
fn derived_config_round_trips() {
    let path = rel_path(&["work", "proj_1"]);
    let config = Config::init_from_path(&path, BuildSystem::Just).expect("init config");
    let back = Config::parse_toml(&config.to_toml()).expect("round trip");
    assert_eq!("proj_1", back.package.name);
    assert!(matches!(back.package.build_system, BuildSystem::Just));
}

#[test]
fn naming_error_carries_path() {
    let path = rel_path(&[]);
    let err = Config::init_from_path(&path, BuildSystem::Just).expect_err("no name");
    assert_eq!("cannot determine package name from path: ``", err.message());
    assert!(matches!(err, crame::Error::Naming(_)));
}
