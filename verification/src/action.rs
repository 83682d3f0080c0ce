//! The filesystem actions an initialization asks its caller to perform. The
//! library decides what to create and with which bytes; the caller carries the
//! actions out in the order they are handed over.

use vstd::prelude::*;

use crate::path::{PathModel, ProjectPath};

verus! {

/// One filesystem action. `CreateFile` must fail if the file already exists
/// (scaffolding never overwrites); `WriteIgnore` appends to the ignore file,
/// creating it when missing, and its failure is advisory only; `WriteConfig`
/// replaces the file's contents.
#[derive(Debug)]
pub enum InitAction {
    /// Create the directory at `path`.
    CreateDir { path: ProjectPath },
    /// Create a new file at `path` holding exactly `contents`.
    CreateFile { path: ProjectPath, contents: String },
    /// Append `contents` to the ignore file at `path`; failure is non-fatal.
    WriteIgnore { path: ProjectPath, contents: String },
    /// Write the configuration file at `path` with `contents`.
    WriteConfig { path: ProjectPath, contents: String },
    /// Nothing is left to do.
    Finished,
}

/// Mathematical model of an action.
pub enum ActionModel {
    CreateDir { path: PathModel },
    CreateFile { path: PathModel, contents: Seq<char> },
    WriteIgnore { path: PathModel, contents: Seq<char> },
    WriteConfig { path: PathModel, contents: Seq<char> },
    Finished,
}

impl View for InitAction {
    type V = ActionModel;

    open spec fn view(&self) -> ActionModel {
        match self {
            InitAction::CreateDir { path } => ActionModel::CreateDir { path: path@ },
            InitAction::CreateFile { path, contents } => ActionModel::CreateFile {
                path: path@,
                contents: contents@,
            },
            InitAction::WriteIgnore { path, contents } => ActionModel::WriteIgnore {
                path: path@,
                contents: contents@,
            },
            InitAction::WriteConfig { path, contents } => ActionModel::WriteConfig {
                path: path@,
                contents: contents@,
            },
            InitAction::Finished => ActionModel::Finished,
        }
    }
}

} // verus!
