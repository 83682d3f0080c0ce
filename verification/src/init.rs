//! The project initializer: a machine that hands its caller the filesystem
//! actions of one initialization, in the fixed order — scaffold directories,
//! starter files, version-control setup, the build file, and finally the
//! configuration file. The caller performs each action and stops at the first
//! failure; the path cursor comes back at its entry depth after every step.

use vstd::prelude::*;

use crate::action::{ActionModel, InitAction};
use crate::build_system::{spec_build_file_action, BuildSystem};
use crate::config::{config_toml, has_name, spec_config_file_name, Config};
use crate::error::Error;
use crate::path::{path_joined, PathModel, ProjectPath};
use crate::templates::{dir_rel, file_rel, file_text, spec_dir_rel, spec_file_rel, spec_file_text};
use crate::vcs::{init_vcs, spec_git_rules, spec_ignore_text, VersionControl};

verus! {

/// Creating the i-th scaffold directory under the root.
pub open spec fn spec_dir_action(root: PathModel, i: int) -> ActionModel {
    ActionModel::CreateDir { path: path_joined(root, spec_dir_rel(i)) }
}

/// Creating the i-th starter file under the root, with its template text.
pub open spec fn spec_file_action(root: PathModel, i: int) -> ActionModel {
    ActionModel::CreateFile {
        path: path_joined(root, spec_file_rel(i)),
        contents: spec_file_text(i),
    }
}

/// The eight scaffold actions: four directories, then four starter files.
pub open spec fn spec_scaffold_schedule(root: PathModel) -> Seq<ActionModel> {
    Seq::new(4, |i: int| spec_dir_action(root, i)) + Seq::new(
        4,
        |i: int| spec_file_action(root, i),
    )
}

/// Writing the ignore file at the root with the full desired rule list.
pub open spec fn spec_ignore_action(root: PathModel) -> ActionModel {
    ActionModel::WriteIgnore {
        path: path_joined(root, seq![".gitignore"@]),
        contents: spec_ignore_text(spec_git_rules()),
    }
}

/// Writing the configuration file at the root for the root's package name.
pub open spec fn spec_config_action(root: PathModel, b: BuildSystem) -> ActionModel {
    ActionModel::WriteConfig {
        path: path_joined(root, seq![spec_config_file_name()]),
        contents: config_toml(root.segments.last(), b),
    }
}

/// Every action of a completed initialization, in order: the scaffold, the
/// ignore write when one was needed, the build file, the configuration file.
pub open spec fn spec_full_schedule(root: PathModel, b: BuildSystem, with_ignore: bool) -> Seq<
    ActionModel,
> {
    spec_scaffold_schedule(root) + (if with_ignore {
        seq![spec_ignore_action(root)]
    } else {
        Seq::<ActionModel>::empty()
    }) + seq![spec_build_file_action(b, root), spec_config_action(root, b)]
}

/// Where an initialization stands.
pub enum Stage {
    /// Creating scaffold directories; `next` is the next one.
    Dirs { next: usize },
    /// Creating starter files; `next` is the next one.
    Files { next: usize },
    /// Version-control setup is next.
    Vcs,
    /// The ignore file was handed out; the build file is next.
    BuildFile,
    /// The configuration file is next.
    Config,
    /// Every action was handed out.
    Done,
    /// The run ended in an error; nothing further is handed out.
    Failed,
}

/// One initialization in progress: the path cursor at the project root, the
/// chosen options, the stage, and the log of actions handed out so far.
pub struct InitMachine {
    pub path: ProjectPath,
    pub build_system: BuildSystem,
    pub vcs: VersionControl,
    pub stage: Stage,
    pub emitted: Ghost<Seq<ActionModel>>,
}

impl InitMachine {
    /// The machine's invariant: the log matches the stage — a prefix of the
    /// schedule, with the ignore write present exactly on the paths that
    /// emitted one, and only under version control.
    pub open spec fn wf(&self) -> bool {
        let root = self.path@;
        let s8 = spec_scaffold_schedule(root);
        let b = spec_build_file_action(self.build_system, root);
        match self.stage {
            Stage::Dirs { next } => next < 4 && self.emitted@ == s8.take(next as int),
            Stage::Files { next } => next < 4 && self.emitted@ == s8.take(4 + next as int),
            Stage::Vcs => self.emitted@ == s8,
            Stage::BuildFile => self.vcs == VersionControl::Git && self.emitted@ == s8.push(
                spec_ignore_action(root),
            ),
            Stage::Config => self.emitted@ == s8.push(b) || (self.vcs == VersionControl::Git
                && self.emitted@ == s8.push(spec_ignore_action(root)).push(b)),
            Stage::Done => self.emitted@ == spec_full_schedule(root, self.build_system, false)
                || (self.vcs == VersionControl::Git && self.emitted@ == spec_full_schedule(
                root,
                self.build_system,
                true,
            )),
            Stage::Failed => !has_name(root),
        }
    }
}

/// How one call to `next_action` may step the machine: which action comes
/// out, which stage follows, and how the log grows.
pub open spec fn next_rel(pre: InitMachine, post: InitMachine, r: Result<InitAction, Error>) -> bool {
    let root = pre.path@;
    match pre.stage {
        Stage::Dirs { next } => {
            &&& (r matches Ok(a) && a@ == spec_dir_action(root, next as int))
            &&& post.stage == (if next < 3 {
                Stage::Dirs { next: (next + 1) as usize }
            } else {
                Stage::Files { next: 0usize }
            })
            &&& post.emitted@ == pre.emitted@.push(spec_dir_action(root, next as int))
        },
        Stage::Files { next } => {
            &&& (r matches Ok(a) && a@ == spec_file_action(root, next as int))
            &&& post.stage == (if next < 3 {
                Stage::Files { next: (next + 1) as usize }
            } else {
                Stage::Vcs
            })
            &&& post.emitted@ == pre.emitted@.push(spec_file_action(root, next as int))
        },
        Stage::Vcs => {
            ||| (pre.vcs == VersionControl::Git && (r matches Ok(a) && a@ == spec_ignore_action(
                root,
            )) && post.stage == Stage::BuildFile && post.emitted@ == pre.emitted@.push(
                spec_ignore_action(root),
            ))
            ||| ((r matches Ok(a) && a@ == spec_build_file_action(pre.build_system, root))
                && post.stage == Stage::Config && post.emitted@ == pre.emitted@.push(
                spec_build_file_action(pre.build_system, root),
            ))
        },
        Stage::BuildFile => {
            &&& (r matches Ok(a) && a@ == spec_build_file_action(pre.build_system, root))
            &&& post.stage == Stage::Config
            &&& post.emitted@ == pre.emitted@.push(
                spec_build_file_action(pre.build_system, root),
            )
        },
        Stage::Config => {
            if has_name(root) {
                &&& (r matches Ok(a) && a@ == spec_config_action(root, pre.build_system))
                &&& post.stage == Stage::Done
                &&& post.emitted@ == pre.emitted@.push(
                    spec_config_action(root, pre.build_system),
                )
            } else {
                &&& (r matches Err(e) && (e matches Error::Naming(p) && p@ == root))
                &&& post.stage == Stage::Failed
                &&& post.emitted@ == pre.emitted@
            }
        },
        Stage::Done => {
            &&& (r matches Ok(a) && a@ == ActionModel::Finished)
            &&& post.stage == Stage::Done
            &&& post.emitted@ == pre.emitted@
        },
        Stage::Failed => {
            &&& (r matches Ok(a) && a@ == ActionModel::Finished)
            &&& post.stage == Stage::Failed
            &&& post.emitted@ == pre.emitted@
        },
    }
}

/// Begins a project initialization at the given root path with the chosen
/// build system and version control. Drive the machine with `next_action`.
pub fn project_init(path: ProjectPath, build_system: BuildSystem, vcs: VersionControl) -> (m:
    InitMachine)
    ensures
        m.wf(),
        m.path@ == path@,
        m.build_system == build_system,
        m.vcs == vcs,
        m.stage == (Stage::Dirs { next: 0usize }),
        m.emitted@ == Seq::<ActionModel>::empty(),
{
    let m = InitMachine {
        path,
        build_system,
        vcs,
        stage: Stage::Dirs { next: 0 },
        emitted: Ghost(Seq::empty()),
    };
    proof {
        assert(spec_scaffold_schedule(m.path@).take(0) =~= Seq::<ActionModel>::empty());
    }
    m
}

impl InitMachine {
    /// Hands out the next action. The path cursor always comes back at the
    /// depth it came in at, whatever the outcome.
    pub fn next_action(&mut self) -> (r: Result<InitAction, Error>)
        requires
            old(self).wf(),
        ensures
            final(self).wf(),
            final(self).path@ == old(self).path@,
            final(self).build_system == old(self).build_system,
            final(self).vcs == old(self).vcs,
            next_rel(*old(self), *final(self), r),
    {
        let ghost root = self.path@;
        let ghost s8 = spec_scaffold_schedule(root);
        match self.stage {
            Stage::Dirs { next } => {
                let rel = dir_rel(next);
                let depth = self.path.depth();
                self.path.push_all(&rel);
                let target = self.path.copy_of();
                self.path.restore_depth(depth);
                proof {
                    assert((root.segments + rel.deep_view()).take(depth as int)
                        =~= root.segments);
                }
                let a = InitAction::CreateDir { path: target };
                if next < 3 {
                    self.stage = Stage::Dirs { next: next + 1 };
                } else {
                    self.stage = Stage::Files { next: 0 };
                }
                proof {
                    assert(a@ == spec_dir_action(root, next as int));
                    assert(s8[next as int] == spec_dir_action(root, next as int));
                    assert(s8.take(next as int).push(s8[next as int]) =~= s8.take(next + 1));
                }
                self.emitted = Ghost(self.emitted@.push(a@));
                Ok(a)
            },
            Stage::Files { next } => {
                let rel = file_rel(next);
                let depth = self.path.depth();
                self.path.push_all(&rel);
                let target = self.path.copy_of();
                self.path.restore_depth(depth);
                proof {
                    assert((root.segments + rel.deep_view()).take(depth as int)
                        =~= root.segments);
                }
                let a = InitAction::CreateFile { path: target, contents: file_text(next) };
                if next < 3 {
                    self.stage = Stage::Files { next: next + 1 };
                } else {
                    self.stage = Stage::Vcs;
                }
                proof {
                    assert(a@ == spec_file_action(root, next as int));
                    assert(s8[4 + next as int] == spec_file_action(root, next as int));
                    assert(s8.take(4 + next as int).push(s8[4 + next as int]) =~= s8.take(
                        4 + next + 1,
                    ));
                    assert(s8.take(8) =~= s8);
                }
                self.emitted = Ghost(self.emitted@.push(a@));
                Ok(a)
            },
            Stage::Vcs => {
                let report = init_vcs(self.vcs, &mut self.path);
                match report.write {
                    Some(a) => {
                        self.stage = Stage::BuildFile;
                        proof {
                            assert(a@ == spec_ignore_action(root));
                        }
                        self.emitted = Ghost(self.emitted@.push(a@));
                        Ok(a)
                    },
                    None => {
                        let a = crate::build_system::init_build_system(
                            self.build_system,
                            &mut self.path,
                        );
                        self.stage = Stage::Config;
                        self.emitted = Ghost(self.emitted@.push(a@));
                        Ok(a)
                    },
                }
            },
            Stage::BuildFile => {
                let a = crate::build_system::init_build_system(
                    self.build_system,
                    &mut self.path,
                );
                self.stage = Stage::Config;
                self.emitted = Ghost(self.emitted@.push(a@));
                Ok(a)
            },
            Stage::Config => {
                match Config::init_from_path(&self.path, self.build_system) {
                    Ok(config) => {
                        let a = config.save_in_dir(&mut self.path);
                        self.stage = Stage::Done;
                        proof {
                            assert(a@ == spec_config_action(root, self.build_system));
                            let b = spec_build_file_action(self.build_system, root);
                            let c = spec_config_action(root, self.build_system);
                            if self.emitted@ == s8.push(b) {
                                assert(s8.push(b).push(c) =~= spec_full_schedule(
                                    root,
                                    self.build_system,
                                    false,
                                ));
                            } else {
                                assert(s8.push(spec_ignore_action(root)).push(b).push(c)
                                    =~= spec_full_schedule(root, self.build_system, true));
                            }
                        }
                        self.emitted = Ghost(self.emitted@.push(a@));
                        Ok(a)
                    },
                    Err(e) => {
                        self.stage = Stage::Failed;
                        Err(e)
                    },
                }
            },
            Stage::Done => Ok(InitAction::Finished),
            Stage::Failed => Ok(InitAction::Finished),
        }
    }
}

/// Law: a machine that has run to completion handed out exactly the fixed
/// directory set, the fixed starter files with their template texts, the
/// build file and the configuration file, in order — with the ignore write
/// in between exactly when one was needed, and never with version control
/// off.
pub proof fn lemma_completed_run_is_fixed_schedule(m: InitMachine)
    requires
        m.wf(),
        m.stage matches Stage::Done,
    ensures
        m.emitted@ == spec_full_schedule(m.path@, m.build_system, false) || m.emitted@
            == spec_full_schedule(m.path@, m.build_system, true),
        m.vcs == VersionControl::Disabled ==> m.emitted@ == spec_full_schedule(
            m.path@,
            m.build_system,
            false,
        ),
{
}

} // verus!
