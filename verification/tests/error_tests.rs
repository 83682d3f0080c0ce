use crame::{io_exit_code, Error, IoKind, ProjectPath};

fn empty_path() -> ProjectPath {
    ProjectPath::new_relative()
}

#[test]
fn exitcode_conflict() {
    assert_eq!(exitcode::CANTCREAT, Error::Conflict(empty_path()).exit_code());
}

#[test]
fn exitcode_create_dir() {
    assert_eq!(exitcode::CANTCREAT, Error::CreateDir(empty_path()).exit_code());
}

#[test]
fn exitcode_create_file() {
    assert_eq!(exitcode::CANTCREAT, Error::CreateFile(empty_path()).exit_code());
}

#[test]
fn exitcode_normalize() {
    assert_eq!(exitcode::CANTCREAT, Error::Normalize(empty_path()).exit_code());
}

#[test]
fn exitcode_write_file() {
    assert_eq!(exitcode::IOERR, Error::WriteFile(empty_path()).exit_code());
}

#[test]
fn exitcode_read_file() {
    assert_eq!(exitcode::NOINPUT, Error::ReadFile(empty_path()).exit_code());
}

#[test]
fn exitcode_config() {
    assert_eq!(exitcode::CONFIG, Error::Config(empty_path()).exit_code());
}

#[test]
fn exitcode_naming() {
    assert_eq!(exitcode::SOFTWARE, Error::Naming(empty_path()).exit_code());
}

#[test]
fn exitcode_generic_io_error() {
    assert_eq!(exitcode::IOERR, io_exit_code(IoKind::Other));
}

#[test]
fn exitcode_not_found_io_error() {
    assert_eq!(exitcode::NOINPUT, io_exit_code(IoKind::NotFound));
}

#[test]
fn exitcode_permisson_denied_io_error() {
    assert_eq!(exitcode::NOPERM, io_exit_code(IoKind::PermissionDenied));
}

#[test]
fn exitcode_already_exists_io_error() {
    assert_eq!(exitcode::CANTCREAT, io_exit_code(IoKind::AlreadyExists));
}

#[test]
fn error_exitcode_conflict() {
    assert_eq!(exitcode::CANTCREAT, Error::Conflict(empty_path()).exit_code());
}

#[test]
fn error_exitcode_create_dir() {
    assert_eq!(exitcode::CANTCREAT, Error::CreateDir(empty_path()).exit_code());
}

#[test]
fn error_exitcode_create_file() {
    assert_eq!(exitcode::CANTCREAT, Error::CreateFile(empty_path()).exit_code());
}

#[test]
fn error_exitcode_normalize() {
    assert_eq!(exitcode::CANTCREAT, Error::Normalize(empty_path()).exit_code());
}

#[test]
fn error_exitcode_write_file() {
    assert_eq!(exitcode::IOERR, Error::WriteFile(empty_path()).exit_code());
}

#[test]
fn error_exitcode_generic_io_error() {
    assert_eq!(exitcode::IOERR, io_exit_code(IoKind::Other));
}

#[test]
fn error_exitcode_not_found_io_error() {
    assert_eq!(exitcode::NOINPUT, io_exit_code(IoKind::NotFound));
}

#[test]
fn error_exitcode_permisson_denied_io_error() {
    assert_eq!(exitcode::NOPERM, io_exit_code(IoKind::PermissionDenied));
}

#[test]
fn error_exitcode_already_exists_io_error() {
    assert_eq!(exitcode::CANTCREAT, io_exit_code(IoKind::AlreadyExists));
}

#[test]
fn config_error_forces_verbose_detail() {
    assert!(Error::Config(empty_path()).forces_verbose());
    assert!(!Error::WriteFile(empty_path()).forces_verbose());
    assert!(!Error::Naming(empty_path()).forces_verbose());
}

#[test]
fn message_write_file() {
    let mut p = ProjectPath::new_absolute();
    p.push("etc".to_string());
    p.push("out".to_string());
    assert_eq!("cannot write to file: `/etc/out`", Error::WriteFile(p).message());
}
