//! The build systems a project can be scaffolded with, and the build file
//! each one writes at the project root.

use vstd::prelude::*;
use vstd::string::StringExecFns;

use crate::action::{ActionModel, InitAction};
use crate::path::{path_joined, ProjectPath};

verus! {

/// Which build system the project uses. An open set; one member today.
#[derive(Clone, Copy, PartialEq, Eq, Structural, Debug)]
pub enum BuildSystem {
    Just,
}

impl Default for BuildSystem {
    /// The build system chosen when none is named.
    fn default() -> (r: Self)
        ensures
            r == BuildSystem::Just,
    {
        BuildSystem::Just
    }
}

/// The identifier the configuration file records for the build system.
pub open spec fn spec_build_system_name(b: BuildSystem) -> Seq<char> {
    match b {
        BuildSystem::Just => "just"@,
    }
}

/// The name of the build file written at the project root.
pub open spec fn spec_build_file_name(b: BuildSystem) -> Seq<char> {
    match b {
        BuildSystem::Just => "justfile"@,
    }
}

/// The embedded text of the build file.
pub open spec fn spec_build_file_text(b: BuildSystem) -> Seq<char> {
    match b {
        BuildSystem::Just => "target := \"target\"\n\nbuild:\n    mkdir -p {{target}}\n    cc -o {{target}}/main src/main.c\n\ntest:\n    mkdir -p {{target}}\n    cc -o {{target}}/test tests/run.c tests/test_all.c tests/unit/it_works.c\n    {{target}}/test\n"@,
    }
}

/// The action that creating the build file amounts to: the file at the
/// chosen name under the project root, with the chosen template's text.
pub open spec fn spec_build_file_action(
    b: BuildSystem,
    root: crate::path::PathModel,
) -> ActionModel {
    ActionModel::CreateFile {
        path: path_joined(root, seq![spec_build_file_name(b)]),
        contents: spec_build_file_text(b),
    }
}

impl BuildSystem {
    /// The identifier recorded in the configuration file.
    pub fn name(&self) -> (r: String)
        ensures
            r@ == spec_build_system_name(*self),
    {
        match self {
            BuildSystem::Just => String::from_str("just"),
        }
    }

    /// The name of the build file written at the project root.
    pub fn file_name(&self) -> (r: String)
        ensures
            r@ == spec_build_file_name(*self),
    {
        match self {
            BuildSystem::Just => String::from_str("justfile"),
        }
    }

    /// The embedded text of the build file.
    pub fn file_text(&self) -> (r: String)
        ensures
            r@ == spec_build_file_text(*self),
    {
        match self {
            BuildSystem::Just => String::from_str(
                "target := \"target\"\n\nbuild:\n    mkdir -p {{target}}\n    cc -o {{target}}/main src/main.c\n\ntest:\n    mkdir -p {{target}}\n    cc -o {{target}}/test tests/run.c tests/test_all.c tests/unit/it_works.c\n    {{target}}/test\n",
            ),
        }
    }
}

/// Decides the build-file action for the chosen build system, with the cursor
/// at the project root; the cursor is handed back at the depth it came in at.
pub fn init_build_system(build_system: BuildSystem, path: &mut ProjectPath) -> (r: InitAction)
    ensures
        final(path)@ == old(path)@,
        r@ == spec_build_file_action(build_system, old(path)@),
{
    match build_system {
        BuildSystem::Just => create_justfile(path),
    }
}

fn create_justfile(path: &mut ProjectPath) -> (r: InitAction)
    ensures
        final(path)@ == old(path)@,
        r@ == spec_build_file_action(BuildSystem::Just, old(path)@),
{
    let b = BuildSystem::Just;
    path.push(b.file_name());
    let target = path.copy_of();
    path.pop();
    proof {
        assert(path@.segments =~= old(path)@.segments);
        assert(old(path)@.segments.push(spec_build_file_name(b)) =~= old(path)@.segments + seq![
            spec_build_file_name(b),
        ]);
    }
    InitAction::CreateFile { path: target, contents: b.file_text() }
}

} // verus!
