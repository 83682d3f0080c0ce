//! The persisted project configuration: a package name derived from the
//! project path plus the chosen build system, written to and read back from
//! a fixed-name file in a small structured text format.

use vstd::prelude::*;
use vstd::string::{StrSliceExecFns, StringExecFns};

use crate::action::{ActionModel, InitAction};
use crate::build_system::{spec_build_system_name, BuildSystem};
use crate::error::Error;
use crate::path::{path_joined, PathModel, ProjectPath};

verus! {

/// The persisted record.
#[derive(Debug)]
pub struct Config {
    pub package: Package,
}

/// The `package` section of the record.
#[derive(Debug)]
pub struct Package {
    pub name: String,
    pub build_system: BuildSystem,
}

impl Default for Package {
    /// An empty name with the default build system.
    fn default() -> (r: Self)
        ensures
            r.name@ == Seq::<char>::empty(),
            r.build_system == BuildSystem::Just,
    {
        Package { name: String::new(), build_system: BuildSystem::Just }
    }
}

impl Default for Config {
    /// A record with an empty name and the default build system.
    fn default() -> (r: Self)
        ensures
            r.package.name@ == Seq::<char>::empty(),
            r.package.build_system == BuildSystem::Just,
    {
        Config { package: Package::default() }
    }
}

/// The fixed name of the configuration file inside the project root.
pub open spec fn spec_config_file_name() -> Seq<char> {
    "Crame.toml"@
}

/// The fixed name of the configuration file inside the project root.
pub fn config_file_name() -> (r: String)
    ensures
        r@ == spec_config_file_name(),
{
    String::from_str("Crame.toml")
}

/// Whether a name holds a single quote — the one character the canonical
/// configuration text cannot carry.
pub open spec fn name_has_quote(n: Seq<char>) -> bool {
    exists|i: int| 0 <= i < n.len() && n[i] == '\''
}

/// Whether a package name can be derived from the path: it must have a final
/// segment, and that segment must not be the parent-directory marker nor hold
/// a single quote (such a segment is not representable as a name, since the
/// configuration text quotes the name with single quotes, verbatim).
pub open spec fn has_name(p: PathModel) -> bool {
    &&& p.segments.len() > 0
    &&& p.segments.last() != ".."@
    &&& !name_has_quote(p.segments.last())
}

/// Whether the string holds a single quote anywhere.
fn has_single_quote(s: &str) -> (r: bool)
    ensures
        r == name_has_quote(s@),
{
    let n = s.unicode_len();
    let mut i: usize = 0;
    while i < n
        invariant
            i <= n,
            n == s@.len(),
            forall|k: int| 0 <= k < i ==> s@[k] != '\'',
        decreases n - i,
    {
        if s.get_char(i) == '\'' {
            return true;
        }
        i += 1;
    }
    false
}

/// The exact text the configuration serializes to.
pub open spec fn config_toml(name: Seq<char>, b: BuildSystem) -> Seq<char> {
    "[package]\nname = '"@ + name + "'\nbuild_system = '"@ + spec_build_system_name(b) + "'\n"@
}

/// The index of the first single quote at or after `from`, if any.
pub open spec fn spec_find_quote(s: Seq<char>, from: int) -> Option<int>
    decreases s.len() - from,
{
    if from < 0 || from >= s.len() {
        None
    } else if s[from] == '\'' {
        Some(from)
    } else {
        spec_find_quote(s, from + 1)
    }
}

/// What the configuration parser accepts: exactly the canonical text that
/// `config_toml` writes, with the name being everything up to the first quote
/// after the opening one.
pub open spec fn spec_parse_config(s: Seq<char>) -> Option<(Seq<char>, BuildSystem)> {
    let p = "[package]\nname = '"@;
    let m = "'\nbuild_system = '"@;
    let e = "'\n"@;
    if s.len() < p.len() || s.subrange(0, p.len() as int) != p {
        None
    } else {
        match spec_find_quote(s, p.len() as int) {
            None => None,
            Some(q1) => if q1 + m.len() > s.len() || s.subrange(q1, q1 + m.len()) != m {
                None
            } else {
                match spec_find_quote(s, q1 + m.len()) {
                    None => None,
                    Some(q2) => if q2 + e.len() != s.len() || s.subrange(q2, s.len() as int)
                        != e {
                        None
                    } else {
                        let name = s.subrange(p.len() as int, q1);
                        let val = s.subrange(q1 + m.len(), q2);
                        if val == spec_build_system_name(BuildSystem::Just) {
                            Some((name, BuildSystem::Just))
                        } else {
                            None
                        }
                    },
                }
            },
        }
    }
}

proof fn lemma_find_quote_props(s: Seq<char>, from: int, j: int)
    requires
        0 <= from,
        spec_find_quote(s, from) == Some(j),
    ensures
        from <= j < s.len(),
        s[j] == '\'',
        forall|k: int| from <= k < j ==> s[k] != '\'',
    decreases s.len() - from,
{
    if from < s.len() {
        if s[from] == '\'' {
        } else {
            lemma_find_quote_props(s, from + 1, j);
        }
    }
}

proof fn lemma_find_quote_none(s: Seq<char>, from: int)
    requires
        forall|k: int| from <= k < s.len() ==> s[k] != '\'',
    ensures
        spec_find_quote(s, from) is None,
    decreases s.len() - from,
{
    if 0 <= from < s.len() {
        lemma_find_quote_none(s, from + 1);
    }
}

proof fn lemma_find_quote_at(s: Seq<char>, from: int, j: int)
    requires
        0 <= from <= j < s.len(),
        s[j] == '\'',
        forall|k: int| from <= k < j ==> s[k] != '\'',
    ensures
        spec_find_quote(s, from) == Some(j),
    decreases j - from,
{
    if from < j {
        lemma_find_quote_at(s, from + 1, j);
    }
}

/// Whether `pat` occurs in `s` starting exactly at `at`.
fn str_eq_at(s: &str, at: usize, pat: &str) -> (r: bool)
    requires
        at <= s@.len(),
    ensures
        r == (at + pat@.len() <= s@.len() && s@.subrange(
            at as int,
            at + pat@.len(),
        ) == pat@),
{
    let n = s.unicode_len();
    let pn = pat.unicode_len();
    if pn > n - at {
        return false;
    }
    let mut k: usize = 0;
    while k < pn
        invariant
            n == s@.len(),
            at + pn <= n,
            pn == pat@.len(),
            k <= pn,
            forall|i: int| 0 <= i < k ==> s@[at + i] == pat@[i],
        decreases pn - k,
    {
        if s.get_char(at + k) != pat.get_char(k) {
            proof {
                assert(s@.subrange(at as int, at + pat@.len())[k as int] != pat@[k as int]);
            }
            return false;
        }
        k += 1;
    }
    proof {
        assert(s@.subrange(at as int, at + pat@.len()) =~= pat@);
    }
    true
}

/// The first single quote at or after `from`, scanning left to right.
fn find_quote(s: &str, from: usize) -> (r: Option<usize>)
    requires
        from <= s@.len(),
    ensures
        match r {
            Some(j) => from <= j < s@.len() && spec_find_quote(s@, from as int) == Some(j as int),
            None => spec_find_quote(s@, from as int) is None,
        },
{
    let n = s.unicode_len();
    let mut i: usize = from;
    while i < n
        invariant
            from <= i <= n,
            n == s@.len(),
            forall|k: int| from <= k < i ==> s@[k] != '\'',
        decreases n - i,
    {
        if s.get_char(i) == '\'' {
            proof {
                lemma_find_quote_at(s@, from as int, i as int);
            }
            return Some(i);
        }
        i += 1;
    }
    proof {
        lemma_find_quote_none(s@, from as int);
    }
    None
}

impl Config {
    /// Derives the configuration for a project at the given path: the package
    /// name is the path's final segment; a path without a usable final
    /// segment is rejected with a naming error carrying that path.
    pub fn init_from_path(path: &ProjectPath, build_system: BuildSystem) -> (r: Result<
        Config,
        Error,
    >)
        ensures
            match r {
                Ok(c) => has_name(path@) && c.package.name@ == path@.segments.last()
                    && c.package.build_system == build_system,
                Err(e) => !has_name(path@) && (e matches Error::Naming(p) && p@ == path@),
            },
    {
        match path.last() {
            None => Err(Error::Naming(path.copy_of())),
            Some(seg) => {
                let dotdot = String::from_str("..");
                if *seg == dotdot || has_single_quote(seg.as_str()) {
                    Err(Error::Naming(path.copy_of()))
                } else {
                    Ok(
                        Config {
                            package: Package { name: seg.clone(), build_system },
                        },
                    )
                }
            },
        }
    }

    /// Serializes the record to its canonical text. The name stands between
    /// single quotes, verbatim; `init_from_path` never derives a name that
    /// holds one (`lemma_config_round_trip` states the exact condition).
    pub fn to_toml(&self) -> (r: String)
        ensures
            r@ == config_toml(self.package.name@, self.package.build_system),
    {
        let mut r = String::from_str("[package]\nname = '");
        r.append(self.package.name.as_str());
        r.append("'\nbuild_system = '");
        r.append(self.package.build_system.name().as_str());
        r.append("'\n");
        r
    }

    /// Parses the configuration text. The load policy is canonical-only:
    /// exactly the text `to_toml` writes is accepted — stricter than a
    /// general TOML reader, which would also take reordered fields, double
    /// quotes or comments.
    pub fn parse_toml(s: &str) -> (r: Option<Config>)
        ensures
            match r {
                Some(c) => spec_parse_config(s@) == Some(
                    (c.package.name@, c.package.build_system),
                ),
                None => spec_parse_config(s@) is None,
            },
    {
        let n = s.unicode_len();
        if n < 18 {
            proof {
                reveal_strlit("[package]\nname = '");
            }
            return None;
        }
        proof {
            reveal_strlit("[package]\nname = '");
        }
        if !str_eq_at(s, 0, "[package]\nname = '") {
            return None;
        }
        let q1 = match find_quote(s, 18) {
            None => {
                return None;
            },
            Some(j) => j,
        };
        proof {
            reveal_strlit("'\nbuild_system = '");
        }
        if 18 > n - q1 {
            return None;
        }
        if !str_eq_at(s, q1, "'\nbuild_system = '") {
            return None;
        }
        let q2 = match find_quote(s, q1 + 18) {
            None => {
                return None;
            },
            Some(j) => j,
        };
        proof {
            reveal_strlit("'\n");
        }
        if q2 != n - 2 {
            return None;
        }
        if !str_eq_at(s, q2, "'\n") {
            return None;
        }
        if q2 - (q1 + 18) != 4 || !str_eq_at(s, q1 + 18, "just") {
            proof {
                reveal_strlit("just");
                let val = s@.subrange(q1 + 18, q2 as int);
                if q2 - (q1 + 18) == 4 {
                    assert(q1 + 18 + 4 == q2);
                    assert(s@.subrange(q1 + 18, q1 + 18 + 4) != "just"@);
                    assert(val =~= s@.subrange(q1 + 18, q1 + 18 + 4));
                } else {
                    assert(val.len() != ("just"@).len());
                }
                assert(val != spec_build_system_name(BuildSystem::Just));
            }
            return None;
        }
        let name = s.substring_char(18, q1).to_owned();
        proof {
            reveal_strlit("just");
            let val = s@.subrange(q1 + 18, q2 as int);
            assert(val =~= s@.subrange(q1 + 18, q1 + 18 + 4));
            assert(val == spec_build_system_name(BuildSystem::Just));
        }
        Some(Config { package: Package { name, build_system: BuildSystem::Just } })
    }

    /// Decides the write that persists the record at its fixed file name under
    /// `dir`; the cursor is handed back at the depth it came in at.
    pub fn save_in_dir(&self, dir: &mut ProjectPath) -> (r: InitAction)
        ensures
            final(dir)@ == old(dir)@,
            r@ == (ActionModel::WriteConfig {
                path: path_joined(old(dir)@, seq![spec_config_file_name()]),
                contents: config_toml(self.package.name@, self.package.build_system),
            }),
    {
        dir.push(config_file_name());
        let target = dir.copy_of();
        dir.pop();
        proof {
            assert(dir@.segments =~= old(dir)@.segments);
            assert(old(dir)@.segments.push(spec_config_file_name()) =~= old(dir)@.segments
                + seq![spec_config_file_name()]);
        }
        InitAction::WriteConfig { path: target, contents: self.to_toml() }
    }
}

/// Law: whatever the parser accepts is the canonical text of the record it
/// returns — parsing is the inverse of serialization, and the name it yields
/// never holds a single quote.
pub proof fn lemma_parse_sound(s: Seq<char>, name: Seq<char>, b: BuildSystem)
    requires
        spec_parse_config(s) == Some((name, b)),
    ensures
        s == config_toml(name, b),
        !name_has_quote(name),
{
    reveal_strlit("[package]\nname = '");
    reveal_strlit("'\nbuild_system = '");
    reveal_strlit("'\n");
    reveal_strlit("just");
    let p = "[package]\nname = '"@;
    let m = "'\nbuild_system = '"@;
    let e = "'\n"@;
    let q1o = spec_find_quote(s, p.len() as int);
    assert(q1o is Some);
    let q1 = q1o->0;
    lemma_find_quote_props(s, p.len() as int, q1);
    let q2o = spec_find_quote(s, q1 + m.len());
    assert(q2o is Some);
    let q2 = q2o->0;
    lemma_find_quote_props(s, q1 + m.len(), q2);
    assert(name == s.subrange(p.len() as int, q1));
    let val = s.subrange(q1 + m.len(), q2);
    assert(val == "just"@);
    assert(b == BuildSystem::Just);
    assert(q2 == q1 + m.len() + 4) by {
        assert(val.len() == 4);
    }
    assert(q2 + e.len() == s.len());
    assert forall|i: int| 0 <= i < name.len() implies name[i] != '\'' by {
        assert(name[i] == s[p.len() + i]);
    }
    let t = config_toml(name, b);
    assert(t.len() == p.len() + name.len() + m.len() + 4 + e.len());
    assert(name.len() == q1 - p.len());
    assert forall|k: int| 0 <= k < s.len() implies t[k] == s[k] by {
        if k < p.len() {
            assert(t[k] == p[k]);
            assert(s.subrange(0, p.len() as int)[k] == s[k]);
        } else if k < q1 {
            assert(t[k] == name[k - p.len()]);
        } else if k < q1 + m.len() {
            assert(t[k] == m[k - q1]);
            assert(s.subrange(q1, q1 + m.len())[k - q1] == s[k]);
        } else if k < q2 {
            assert(t[k] == spec_build_system_name(b)[k - (q1 + m.len())]);
            assert(val[k - (q1 + m.len())] == s[k]);
        } else {
            assert(t[k] == e[k - q2]);
            assert(s.subrange(q2, s.len() as int)[k - q2] == s[k]);
        }
    }
    assert(t =~= s);
}

/// Law: a configuration text written for a package name free of single
/// quotes — the only names this library derives — parses back to the same
/// package name and build system.
pub proof fn lemma_config_round_trip(name: Seq<char>, b: BuildSystem)
    requires
        !name_has_quote(name),
    ensures
        spec_parse_config(config_toml(name, b)) == Some((name, b)),
{
    assert(forall|i: int| 0 <= i < name.len() ==> name[i] != '\'');
    reveal_strlit("[package]\nname = '");
    reveal_strlit("'\nbuild_system = '");
    reveal_strlit("'\n");
    reveal_strlit("just");
    let p = "[package]\nname = '"@;
    let m = "'\nbuild_system = '"@;
    let e = "'\n"@;
    let bs = spec_build_system_name(b);
    assert(b matches BuildSystem::Just);
    assert(bs == "just"@);
    let s = config_toml(name, b);
    assert(s == p + name + m + bs + e);
    let q1 = (p.len() + name.len()) as int;
    let q2 = (q1 + m.len() + bs.len()) as int;
    assert(s.len() == p.len() + name.len() + m.len() + bs.len() + e.len());
    assert forall|k: int| 0 <= k < p.len() implies s[k] == p[k] by {}
    assert(s.subrange(0, p.len() as int) =~= p);
    assert(s[q1 as int] == m[0]);
    assert(m[0] == '\'');
    assert forall|k: int| p.len() <= k < q1 implies s[k] != '\'' by {
        assert(s[k] == name[k - p.len()]);
    }
    lemma_find_quote_at(s, p.len() as int, q1 as int);
    assert forall|k: int| 0 <= k < m.len() implies s[q1 + k] == m[k] by {}
    assert(s.subrange(q1 as int, q1 + m.len()) =~= m);
    assert forall|k: int| q1 + m.len() <= k < q2 implies s[k] != '\'' by {
        assert(s[k] == bs[k - (q1 + m.len())]);
    }
    assert(s[q2 as int] == e[0]);
    assert(e[0] == '\'');
    lemma_find_quote_at(s, q1 + m.len(), q2 as int);
    assert(q2 + e.len() == s.len());
    assert forall|k: int| 0 <= k < e.len() implies s[q2 + k] == e[k] by {}
    assert(s.subrange(q2 as int, s.len() as int) =~= e);
    assert(s.subrange(p.len() as int, q1 as int) =~= name);
    assert(s.subrange(q1 + m.len(), q2 as int) =~= bs);
}

/// Law: every configuration the initializer can derive round-trips — the
/// text written for the path's package name parses back to that name and the
/// chosen build system, with no further condition.
pub proof fn lemma_derived_config_round_trips(p: PathModel, b: BuildSystem)
    requires
        has_name(p),
    ensures
        spec_parse_config(config_toml(p.segments.last(), b)) == Some((p.segments.last(), b)),
{
    lemma_config_round_trip(p.segments.last(), b);
}

} // verus!
