//! Project scaffolding library: creates a conventional project skeleton,
//! reconciles version-control ignore rules against an existing repository,
//! and persists a project configuration file.

mod action;
mod build_system;
mod config;
mod error;
mod init;
mod path;
mod templates;
mod vcs;

pub use action::InitAction;
pub use build_system::{init_build_system, BuildSystem};
pub use config::{Config, Package};
pub use error::{io_exit_code, Error, IoKind};
pub use init::{project_init, InitMachine, Stage};
pub use path::{normalize_path, ProjectPath};
pub use templates::{
    dir_rel, file_rel, file_text, template_dir, PROJECT_DIR_COUNT, PROJECT_FILE_COUNT,
};
pub use vcs::{git_rules, ignore_contents, init_vcs, missing_rules, VcsReport, VersionControl};
