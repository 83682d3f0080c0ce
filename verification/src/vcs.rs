//! Version-control setup: discovering or creating a repository at the project
//! root, and reconciling the desired ignore rules against what the repository
//! already ignores, so that only the missing rules are written.

use vstd::prelude::*;
use vstd::string::StringExecFns;

use crate::action::{ActionModel, InitAction};
use crate::path::{path_joined, ProjectPath};

verus! {

/// Whether version-control setup runs at all.
#[derive(Clone, Copy, PartialEq, Eq, Structural, Debug)]
pub enum VersionControl {
    Git,
    Disabled,
}

impl Default for VersionControl {
    /// Version control is on unless switched off.
    fn default() -> (r: Self)
        ensures
            r == VersionControl::Git,
    {
        VersionControl::Git
    }
}

/// The desired ignore rules, in the order they are written.
pub open spec fn spec_git_rules() -> Seq<Seq<char>> {
    seq!["target/"@]
}

/// The desired ignore rules, in the order they are written.
pub fn git_rules() -> (r: Vec<String>)
    ensures
        r.deep_view() == spec_git_rules(),
{
    let mut r: Vec<String> = Vec::new();
    r.push(String::from_str("target/"));
    proof {
        assert(r.deep_view() =~= spec_git_rules());
    }
    r
}

/// The desired rules not already ignored, kept in input order.
pub open spec fn spec_missing_rules(rules: Seq<Seq<char>>, ignored: Seq<bool>) -> Seq<Seq<char>>
    decreases rules.len(),
{
    if rules.len() == 0 {
        Seq::<Seq<char>>::empty()
    } else {
        let rest = spec_missing_rules(rules.drop_first(), ignored.drop_first());
        if ignored[0] {
            rest
        } else {
            seq![rules[0]] + rest
        }
    }
}

/// The text an ignore file gets: each rule followed by a newline.
pub open spec fn spec_ignore_text(rules: Seq<Seq<char>>) -> Seq<char>
    decreases rules.len(),
{
    if rules.len() == 0 {
        Seq::<char>::empty()
    } else {
        rules[0] + "\n"@ + spec_ignore_text(rules.drop_first())
    }
}

/// Law: when every desired rule is already ignored, the reconciled set is
/// empty, so a second run against the same repository writes nothing.
pub proof fn lemma_reconcile_idempotent(rules: Seq<Seq<char>>, ignored: Seq<bool>)
    requires
        ignored.len() == rules.len(),
        forall|i: int| 0 <= i < ignored.len() ==> ignored[i],
    ensures
        spec_missing_rules(rules, ignored).len() == 0,
    decreases rules.len(),
{
    if rules.len() > 0 {
        lemma_reconcile_idempotent(rules.drop_first(), ignored.drop_first());
    }
}

/// Every reconciled rule is one of the desired rules that was not ignored.
pub proof fn lemma_missing_from_desired(rules: Seq<Seq<char>>, ignored: Seq<bool>, j: int)
    requires
        ignored.len() == rules.len(),
        0 <= j < spec_missing_rules(rules, ignored).len(),
    ensures
        exists|k: int|
            0 <= k < rules.len() && !ignored[k] && spec_missing_rules(rules, ignored)[j]
                == rules[k],
    decreases rules.len(),
{
    if rules.len() > 0 {
        let rest = spec_missing_rules(rules.drop_first(), ignored.drop_first());
        if ignored[0] {
            lemma_missing_from_desired(rules.drop_first(), ignored.drop_first(), j);
            let k0 = choose|k: int|
                0 <= k < rules.drop_first().len() && !ignored.drop_first()[k] && rest[j]
                    == rules.drop_first()[k];
            assert(0 <= k0 + 1 < rules.len() && !ignored[k0 + 1] && spec_missing_rules(
                rules,
                ignored,
            )[j] == rules[k0 + 1]);
        } else {
            if j == 0 {
                assert(spec_missing_rules(rules, ignored)[0] == rules[0]);
            } else {
                lemma_missing_from_desired(rules.drop_first(), ignored.drop_first(), j - 1);
                let k0 = choose|k: int|
                    0 <= k < rules.drop_first().len() && !ignored.drop_first()[k] && rest[j - 1]
                        == rules.drop_first()[k];
                assert(0 <= k0 + 1 < rules.len() && !ignored[k0 + 1] && spec_missing_rules(
                    rules,
                    ignored,
                )[j] == rules[k0 + 1]);
            }
        }
    }
}

/// Whether a rule list holds no rule twice.
pub open spec fn no_duplicates(s: Seq<Seq<char>>) -> bool {
    forall|i: int, j: int| 0 <= i < j < s.len() ==> s[i] != s[j]
}

proof fn lemma_missing_subset(rules: Seq<Seq<char>>, ignored: Seq<bool>, x: Seq<char>)
    requires
        ignored.len() == rules.len(),
        spec_missing_rules(rules, ignored).contains(x),
    ensures
        rules.contains(x),
    decreases rules.len(),
{
    if rules.len() > 0 {
        let rest = spec_missing_rules(rules.drop_first(), ignored.drop_first());
        if !ignored[0] && x == rules[0] {
            assert(rules.contains(x)) by {
                assert(rules[0] == x);
            }
        } else {
            assert(rest.contains(x)) by {
                let m = spec_missing_rules(rules, ignored);
                let j = choose|j: int| 0 <= j < m.len() && m[j] == x;
                if ignored[0] {
                    assert(rest[j] == x);
                } else {
                    assert(j != 0);
                    assert(rest[j - 1] == x);
                }
            }
            lemma_missing_subset(rules.drop_first(), ignored.drop_first(), x);
            let k = choose|k: int|
                0 <= k < rules.drop_first().len() && rules.drop_first()[k] == x;
            assert(rules[k + 1] == x);
        }
    }
}

/// Law: reconciliation never introduces a duplicate — when the desired rules
/// are pairwise distinct, so are the rules left to write.
pub proof fn lemma_missing_no_duplicates(rules: Seq<Seq<char>>, ignored: Seq<bool>)
    requires
        ignored.len() == rules.len(),
        no_duplicates(rules),
    ensures
        no_duplicates(spec_missing_rules(rules, ignored)),
    decreases rules.len(),
{
    if rules.len() > 0 {
        let tail = rules.drop_first();
        let ftail = ignored.drop_first();
        assert(no_duplicates(tail)) by {
            assert forall|i: int, j: int| 0 <= i < j < tail.len() implies tail[i] != tail[j] by {
                assert(tail[i] == rules[i + 1] && tail[j] == rules[j + 1]);
            }
        }
        lemma_missing_no_duplicates(tail, ftail);
        let rest = spec_missing_rules(tail, ftail);
        let m = spec_missing_rules(rules, ignored);
        if ignored[0] {
            assert(no_duplicates(m));
        } else {
            assert forall|i: int, j: int| 0 <= i < j < m.len() implies m[i] != m[j] by {
                if i == 0 {
                    if m[j] == rules[0] {
                        assert(rest[j - 1] == rules[0]);
                        assert(rest.contains(rules[0]));
                        lemma_missing_subset(tail, ftail, rules[0]);
                        let k = choose|k: int| 0 <= k < tail.len() && tail[k] == rules[0];
                        assert(rules[k + 1] == rules[0]);
                    }
                } else {
                    assert(m[i] == rest[i - 1] && m[j] == rest[j - 1]);
                }
            }
        }
    }
}

/// Keeps, in order, the rules whose ignored flag is false.
pub fn missing_rules(rules: &Vec<String>, ignored: &Vec<bool>) -> (r: Vec<String>)
    requires
        ignored@.len() == rules@.len(),
    ensures
        r.deep_view() == spec_missing_rules(rules.deep_view(), ignored@),
{
    let ghost all = rules.deep_view();
    let ghost flags = ignored@;
    let mut r: Vec<String> = Vec::new();
    let mut i: usize = 0;
    proof {
        assert(all.skip(0) =~= all);
        assert(flags.skip(0) =~= flags);
        assert(r.deep_view() =~= Seq::<Seq<char>>::empty());
        assert(Seq::<Seq<char>>::empty() + spec_missing_rules(all, flags) =~= spec_missing_rules(
            all,
            flags,
        ));
    }
    while i < rules.len()
        invariant
            i <= rules@.len(),
            ignored@.len() == rules@.len(),
            all == rules.deep_view(),
            flags == ignored@,
            r.deep_view() + spec_missing_rules(all.skip(i as int), flags.skip(i as int))
                == spec_missing_rules(all, flags),
        decreases rules@.len() - i,
    {
        let ghost before = r.deep_view();
        proof {
            let rem = all.skip(i as int);
            let frem = flags.skip(i as int);
            assert(rem.drop_first() =~= all.skip(i + 1));
            assert(frem.drop_first() =~= flags.skip(i + 1));
            assert(rem[0] == all[i as int]);
            assert(frem[0] == flags[i as int]);
        }
        if !ignored[i] {
            let s = rules[i].clone();
            r.push(s);
            proof {
                assert(r.deep_view() =~= before.push(all[i as int]));
                assert(before.push(all[i as int]) + spec_missing_rules(
                    all.skip(i + 1),
                    flags.skip(i + 1),
                ) =~= before + (seq![all[i as int]] + spec_missing_rules(
                    all.skip(i + 1),
                    flags.skip(i + 1),
                )));
            }
        }
        i += 1;
    }
    proof {
        assert(all.skip(i as int) =~= Seq::<Seq<char>>::empty());
        assert(r.deep_view() + spec_missing_rules(
            all.skip(i as int),
            flags.skip(i as int),
        ) =~= r.deep_view());
    }
    r
}

/// Renders the ignore-file text: one rule per line, each with a trailing
/// newline.
pub fn ignore_contents(rules: &Vec<String>) -> (r: String)
    ensures
        r@ == spec_ignore_text(rules.deep_view()),
{
    let ghost all = rules.deep_view();
    let mut r = String::new();
    let mut i: usize = 0;
    proof {
        assert(all.skip(0) =~= all);
        assert(Seq::<char>::empty() + spec_ignore_text(all) =~= spec_ignore_text(all));
    }
    while i < rules.len()
        invariant
            i <= rules@.len(),
            all == rules.deep_view(),
            r@ + spec_ignore_text(all.skip(i as int)) == spec_ignore_text(all),
        decreases rules@.len() - i,
    {
        let ghost before = r@;
        proof {
            let rem = all.skip(i as int);
            assert(rem.drop_first() =~= all.skip(i + 1));
            assert(rem[0] == all[i as int]);
        }
        r.append(rules[i].as_str());
        r.append("\n");
        proof {
            assert(r@ + spec_ignore_text(all.skip(i + 1)) =~= before + (all[i as int] + "\n"@
                + spec_ignore_text(all.skip(i + 1))));
        }
        i += 1;
    }
    proof {
        assert(all.skip(i as int) =~= Seq::<Seq<char>>::empty());
        assert(r@ + spec_ignore_text(all.skip(i as int)) =~= r@);
    }
    r
}

#[verifier::external_type_specification]
#[verifier::external_body]
pub struct ExRepository(git2::Repository);

/// Relies on git2::Repository::discover: searches upward from the given path
/// and opens the enclosing repository, if there is one.
#[verifier::external_body]
fn repo_discover(path: &String) -> (r: Option<git2::Repository>) {
    match git2::Repository::discover(path.as_str()) {
        Ok(repo) => Some(repo),
        Err(_) => None,
    }
}

/// Relies on git2::Repository::init: creates a repository at the path,
/// creating the directory itself when it is missing.
#[verifier::external_body]
fn repo_init(path: &String) -> (r: Option<git2::Repository>) {
    match git2::Repository::init(path.as_str()) {
        Ok(repo) => Some(repo),
        Err(_) => None,
    }
}

/// Relies on git2::Repository::is_path_ignored: whether the repository's
/// ignore configuration already applies to the given path.
#[verifier::external_body]
fn repo_is_ignored(repo: &git2::Repository, rule: &String) -> (r: Option<bool>) {
    match repo.is_path_ignored(rule.as_str()) {
        Ok(b) => Some(b),
        Err(_) => None,
    }
}

/// Asks the repository about each rule in order; `None` as soon as one query
/// fails.
fn query_flags(repo: &git2::Repository, rules: &Vec<String>) -> (r: Option<Vec<bool>>)
    ensures
        match r {
            Some(f) => f@.len() == rules@.len(),
            None => true,
        },
{
    let mut flags: Vec<bool> = Vec::new();
    let mut i: usize = 0;
    while i < rules.len()
        invariant
            i <= rules@.len(),
            flags@.len() == i,
        decreases rules@.len() - i,
    {
        match repo_is_ignored(repo, &rules[i]) {
            Some(b) => flags.push(b),
            None => {
                return None;
            },
        }
        i += 1;
    }
    Some(flags)
}

/// What a run of version-control setup did and what remains for the caller.
pub struct VcsReport {
    /// Whether a repository was already there, at or above the path.
    pub repo_found: bool,
    /// Whether a new repository was created at the path.
    pub initialized: bool,
    /// Whether creating one was attempted and failed; setup then goes on and
    /// still leaves the full ignore write, as the scaffold is usable without
    /// the repository.
    pub init_failed: bool,
    /// Whether an ignore query failed; setup then goes on without writing.
    pub query_failed: bool,
    /// The ignore-file write left for the caller, when rules are missing.
    pub write: Option<InitAction>,
    /// The answers the repository gave, one per desired rule.
    pub flags: Ghost<Seq<bool>>,
}

fn make_ignore_action(path: &mut ProjectPath, rules: &Vec<String>) -> (r: InitAction)
    ensures
        final(path)@ == old(path)@,
        r@ == (ActionModel::WriteIgnore {
            path: path_joined(old(path)@, seq![".gitignore"@]),
            contents: spec_ignore_text(rules.deep_view()),
        }),
{
    let contents = ignore_contents(rules);
    path.push(String::from_str(".gitignore"));
    let target = path.copy_of();
    path.pop();
    proof {
        assert(path@.segments =~= old(path)@.segments);
        assert(old(path)@.segments.push(".gitignore"@) =~= old(path)@.segments + seq![
            ".gitignore"@,
        ]);
    }
    InitAction::WriteIgnore { path: target, contents }
}

/// Runs version-control setup at the path: discovers an enclosing repository,
/// creates one when none is found, and reconciles the desired ignore rules so
/// that only the missing ones are left for the caller to write. A failed
/// ignore query is advisory: setup reports it and writes nothing.
pub fn init_vcs(vcs: VersionControl, path: &mut ProjectPath) -> (r: VcsReport)
    ensures
        final(path)@ == old(path)@,
        vcs == VersionControl::Disabled ==> !r.repo_found && !r.initialized && !r.init_failed
            && !r.query_failed && r.write is None,
        vcs == VersionControl::Git ==> (r.initialized || r.init_failed) == !r.repo_found,
        !(r.initialized && r.init_failed),
        r.initialized ==> !r.repo_found,
        vcs == VersionControl::Git && !r.repo_found ==> !r.query_failed && r.write is Some,
        r.query_failed ==> r.write is None,
        match r.write {
            Some(a) => a@ == (ActionModel::WriteIgnore {
                path: path_joined(old(path)@, seq![".gitignore"@]),
                contents: spec_ignore_text(spec_git_rules()),
            }),
            None => true,
        },
        vcs == VersionControl::Git && r.repo_found && !r.query_failed ==> {
            &&& r.flags@.len() == spec_git_rules().len()
            &&& (r.write is None <==> spec_missing_rules(spec_git_rules(), r.flags@).len() == 0)
            &&& (r.write is Some ==> spec_ignore_text(
                spec_missing_rules(spec_git_rules(), r.flags@),
            ) == spec_ignore_text(spec_git_rules()))
        },
{
    match vcs {
        VersionControl::Disabled => VcsReport {
            repo_found: false,
            initialized: false,
            init_failed: false,
            query_failed: false,
            write: None,
            flags: Ghost(Seq::empty()),
        },
        VersionControl::Git => {
            let path_str = path.display();
            let repo = repo_discover(&path_str);
            let rules = git_rules();
            match repo {
                Some(repo) => {
                    match query_flags(&repo, &rules) {
                        Some(flags) => {
                            let missing = missing_rules(&rules, &flags);
                            if missing.len() > 0 {
                                proof {
                                    lemma_single_rule_missing_all(flags@);
                                }
                                let action = make_ignore_action(path, &missing);
                                VcsReport {
                                    repo_found: true,
                                    initialized: false,
                                    init_failed: false,
                                    query_failed: false,
                                    write: Some(action),
                                    flags: Ghost(flags@),
                                }
                            } else {
                                VcsReport {
                                    repo_found: true,
                                    initialized: false,
                                    init_failed: false,
                                    query_failed: false,
                                    write: None,
                                    flags: Ghost(flags@),
                                }
                            }
                        },
                        None => VcsReport {
                            repo_found: true,
                            initialized: false,
                            init_failed: false,
                            query_failed: true,
                            write: None,
                            flags: Ghost(Seq::empty()),
                        },
                    }
                },
                None => {
                    let created = repo_init(&path_str);
                    let initialized = created.is_some();
                    let action = make_ignore_action(path, &rules);
                    VcsReport {
                        repo_found: false,
                        initialized,
                        init_failed: !initialized,
                        query_failed: false,
                        write: Some(action),
                        flags: Ghost(Seq::empty()),
                    }
                },
            }
        },
    }
}

/// With the single desired rule, a nonempty reconciled set is the whole list.
proof fn lemma_single_rule_missing_all(flags: Seq<bool>)
    requires
        flags.len() == spec_git_rules().len(),
        spec_missing_rules(spec_git_rules(), flags).len() > 0,
    ensures
        spec_missing_rules(spec_git_rules(), flags) == spec_git_rules(),
{
    let rules = spec_git_rules();
    let rest = spec_missing_rules(rules.drop_first(), flags.drop_first());
    assert(rules.drop_first() == Seq::<Seq<char>>::empty()) by {
        assert(rules.drop_first() =~= Seq::<Seq<char>>::empty());
    }
    assert(spec_missing_rules(Seq::<Seq<char>>::empty(), flags.drop_first()) == Seq::<Seq<
        char,
    >>::empty());
    if flags[0] {
        assert(spec_missing_rules(rules, flags) == rest);
        assert(spec_missing_rules(rules, flags).len() == 0);
    } else {
        assert(spec_missing_rules(rules, flags) == seq![rules[0]] + rest);
        assert(seq![rules[0]] + rest =~= rules);
    }
}

} // verus!
