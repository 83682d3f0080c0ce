//! A mutable path buffer: an ordered list of path segments with push/pop and
//! depth tracking, shared by the initialization steps so that each step can
//! restore the buffer to the depth it found it at.

use vstd::prelude::*;
use vstd::string::StringExecFns;

use crate::error::Error;

verus! {

/// Mathematical model of a path: whether it is absolute, and its segments.
pub struct PathModel {
    pub absolute: bool,
    pub segments: Seq<Seq<char>>,
}

/// A filesystem path held as separate segments, so that pushing and popping
/// components is exact and the depth is always the number of segments.
#[derive(Debug)]
pub struct ProjectPath {
    absolute: bool,
    segments: Vec<String>,
}

impl View for ProjectPath {
    type V = PathModel;

    closed spec fn view(&self) -> PathModel {
        PathModel { absolute: self.absolute, segments: self.segments.deep_view() }
    }
}

/// The separator written between joined segments: none before the first.
pub open spec fn seg_sep(i: int) -> Seq<char> {
    if i == 0 {
        Seq::<char>::empty()
    } else {
        "/"@
    }
}

/// The segments joined with `/` between them.
pub open spec fn segs_join(segs: Seq<Seq<char>>) -> Seq<char>
    decreases segs.len(),
{
    if segs.len() == 0 {
        Seq::<char>::empty()
    } else {
        segs_join(segs.drop_last()) + seg_sep(segs.len() - 1) + segs.last()
    }
}

/// How a path renders as text: a leading `/` when absolute, segments joined by `/`.
pub open spec fn path_display(p: PathModel) -> Seq<char> {
    if p.absolute {
        "/"@ + segs_join(p.segments)
    } else {
        segs_join(p.segments)
    }
}

/// The path with further segments appended.
pub open spec fn path_joined(p: PathModel, rel: Seq<Seq<char>>) -> PathModel {
    PathModel { absolute: p.absolute, segments: p.segments + rel }
}

impl ProjectPath {
    /// An empty relative path.
    pub fn new_relative() -> (r: ProjectPath)
        ensures
            r@ == (PathModel { absolute: false, segments: Seq::<Seq<char>>::empty() }),
    {
        let r = ProjectPath { absolute: false, segments: Vec::new() };
        proof {
            assert(r@.segments =~= Seq::<Seq<char>>::empty());
        }
        r
    }

    /// An empty absolute path (the filesystem root).
    pub fn new_absolute() -> (r: ProjectPath)
        ensures
            r@ == (PathModel { absolute: true, segments: Seq::<Seq<char>>::empty() }),
    {
        let r = ProjectPath { absolute: true, segments: Vec::new() };
        proof {
            assert(r@.segments =~= Seq::<Seq<char>>::empty());
        }
        r
    }

    /// Whether the path is absolute.
    pub fn is_absolute(&self) -> (r: bool)
        ensures
            r == self@.absolute,
    {
        self.absolute
    }

    /// The number of segments.
    pub fn depth(&self) -> (r: usize)
        ensures
            r == self@.segments.len(),
    {
        self.segments.len()
    }

    /// Appends one segment.
    pub fn push(&mut self, seg: String)
        ensures
            final(self)@.segments == old(self)@.segments.push(seg@),
            final(self)@.absolute == old(self)@.absolute,
    {
        let ghost before = self@.segments;
        self.segments.push(seg);
        proof {
            assert(self@.segments =~= before.push(seg@));
        }
    }

    /// Removes the last segment.
    pub fn pop(&mut self)
        requires
            old(self)@.segments.len() > 0,
        ensures
            final(self)@.segments == old(self)@.segments.drop_last(),
            final(self)@.absolute == old(self)@.absolute,
    {
        let ghost before = self@.segments;
        let _ = self.segments.pop();
        proof {
            assert(self@.segments =~= before.drop_last());
        }
    }

    /// Pops segments until the path is back at the given depth.
    pub fn restore_depth(&mut self, depth: usize)
        requires
            depth <= old(self)@.segments.len(),
        ensures
            final(self)@.segments == old(self)@.segments.take(depth as int),
            final(self)@.absolute == old(self)@.absolute,
    {
        while self.segments.len() > depth
            invariant
                depth <= self@.segments.len(),
                self@.segments.len() <= old(self)@.segments.len(),
                self@.segments == old(self)@.segments.take(self@.segments.len() as int),
                self@.absolute == old(self)@.absolute,
            decreases self@.segments.len(),
        {
            proof {
                assert(old(self)@.segments.take(self@.segments.len() as int).drop_last() =~= old(
                    self,
                )@.segments.take(self@.segments.len() - 1));
            }
            self.pop();
        }
        proof {
            assert(old(self)@.segments.take(depth as int) == self@.segments);
        }
    }

    /// A reference to the last segment, if any.
    pub fn last(&self) -> (r: Option<&String>)
        ensures
            match r {
                Some(s) => self@.segments.len() > 0 && s@ == self@.segments.last(),
                None => self@.segments.len() == 0,
            },
    {
        if self.segments.len() == 0 {
            None
        } else {
            let r = &self.segments[self.segments.len() - 1];
            proof {
                assert(r@ == self@.segments.last());
            }
            Some(r)
        }
    }

    /// An owned copy of the path.
    pub fn copy_of(&self) -> (r: ProjectPath)
        ensures
            r@ == self@,
    {
        let mut segs: Vec<String> = Vec::new();
        let mut i: usize = 0;
        while i < self.segments.len()
            invariant
                i <= self.segments.len(),
                segs.deep_view() == self@.segments.take(i as int),
            decreases self.segments.len() - i,
        {
            let ghost before = segs.deep_view();
            let s = self.segments[i].clone();
            segs.push(s);
            proof {
                assert(segs.deep_view() =~= before.push(s@));
                assert(before.push(s@) =~= self@.segments.take(i + 1));
            }
            i += 1;
        }
        let r = ProjectPath { absolute: self.absolute, segments: segs };
        proof {
            assert(self@.segments.take(i as int) =~= self@.segments);
            assert(r@.segments =~= self@.segments);
        }
        r
    }

    /// Appends every segment of `rel`, in order.
    pub fn push_all(&mut self, rel: &Vec<String>)
        ensures
            final(self)@.segments == old(self)@.segments + rel.deep_view(),
            final(self)@.absolute == old(self)@.absolute,
    {
        let mut i: usize = 0;
        while i < rel.len()
            invariant
                i <= rel.len(),
                self@.segments == old(self)@.segments + rel.deep_view().take(i as int),
                self@.absolute == old(self)@.absolute,
            decreases rel.len() - i,
        {
            let s = rel[i].clone();
            proof {
                assert(s@ == rel.deep_view()[i as int]);
            }
            self.push(s);
            proof {
                assert(old(self)@.segments + rel.deep_view().take(i + 1) =~= (old(
                    self,
                )@.segments + rel.deep_view().take(i as int)).push(rel.deep_view()[i as int]));
            }
            i += 1;
        }
        proof {
            assert(rel.deep_view().take(i as int) =~= rel.deep_view());
        }
    }

    /// Renders the path: `/`-joined segments, with a leading `/` when absolute.
    pub fn display(&self) -> (r: String)
        ensures
            r@ == path_display(self@),
    {
        let mut r = String::new();
        if self.absolute {
            r.append("/");
        }
        let mut i: usize = 0;
        while i < self.segments.len()
            invariant
                i <= self.segments.len(),
                self@.absolute ==> r@ == "/"@ + segs_join(self@.segments.take(i as int)),
                !self@.absolute ==> r@ == segs_join(self@.segments.take(i as int)),
            decreases self.segments.len() - i,
        {
            if i > 0 {
                r.append("/");
            }
            r.append(self.segments[i].as_str());
            proof {
                let t = self@.segments.take(i + 1);
                assert(t.drop_last() =~= self@.segments.take(i as int));
                assert(t.last() == self@.segments[i as int]);
                if i == 0 {
                    assert(segs_join(t.drop_last()) + seg_sep(0) =~= Seq::<char>::empty());
                    assert(Seq::<char>::empty() + t.last() =~= t.last());
                }
                if self@.absolute {
                    assert("/"@ + segs_join(self@.segments.take(i as int)) + seg_sep(i as int)
                        + self@.segments[i as int] =~= "/"@ + segs_join(t));
                } else {
                    assert(segs_join(self@.segments.take(i as int)) + seg_sep(i as int)
                        + self@.segments[i as int] =~= segs_join(t));
                }
            }
            i += 1;
        }
        proof {
            assert(self@.segments.take(i as int) =~= self@.segments);
        }
        r
    }
}

/// What normalizing resolves the segments to: current-directory markers are
/// dropped, a parent-directory marker removes the segment before it, and one
/// that would step above the root of an absolute path is an error. On a
/// relative path, leading parent-directory markers are kept.
pub open spec fn spec_normalize(segs: Seq<Seq<char>>, absolute: bool) -> Option<Seq<Seq<char>>>
    decreases segs.len(),
{
    if segs.len() == 0 {
        Some(Seq::<Seq<char>>::empty())
    } else {
        match spec_normalize(segs.drop_last(), absolute) {
            None => None,
            Some(pre) => {
                let s = segs.last();
                if s == "."@ {
                    Some(pre)
                } else if s == ".."@ {
                    if pre.len() > 0 && pre.last() != ".."@ {
                        Some(pre.drop_last())
                    } else if absolute {
                        None
                    } else {
                        Some(pre.push(s))
                    }
                } else {
                    Some(pre.push(s))
                }
            },
        }
    }
}

proof fn lemma_normalize_none_extends(segs: Seq<Seq<char>>, absolute: bool, i: int)
    requires
        0 <= i <= segs.len(),
        spec_normalize(segs.take(i), absolute) is None,
    ensures
        spec_normalize(segs, absolute) is None,
    decreases segs.len() - i,
{
    if i < segs.len() {
        assert(segs.take(i + 1).drop_last() =~= segs.take(i));
        assert(spec_normalize(segs.take(i + 1), absolute) is None);
        lemma_normalize_none_extends(segs, absolute, i + 1);
    } else {
        assert(segs.take(i) =~= segs);
    }
}

/// Resolves `.` and `..` segments lexically; fails with a normalize error
/// when a `..` would step above the root of an absolute path.
pub fn normalize_path(path: &ProjectPath) -> (r: Result<ProjectPath, Error>)
    ensures
        match r {
            Ok(q) => spec_normalize(path@.segments, path@.absolute) == Some(q@.segments)
                && q@.absolute == path@.absolute,
            Err(e) => spec_normalize(path@.segments, path@.absolute) is None && (
            e matches Error::Normalize(p) && p@ == path@),
        },
{
    let ghost all = path@.segments;
    let absolute = path.absolute;
    let mut out = ProjectPath { absolute, segments: Vec::new() };
    let mut i: usize = 0;
    proof {
        assert(all.take(0) =~= Seq::<Seq<char>>::empty());
        assert(out@.segments =~= Seq::<Seq<char>>::empty());
    }
    while i < path.segments.len()
        invariant
            i <= path.segments.len(),
            all == path@.segments,
            absolute == path@.absolute,
            out@.absolute == absolute,
            spec_normalize(all.take(i as int), absolute) == Some(out@.segments),
        decreases path.segments.len() - i,
    {
        let seg = &path.segments[i];
        proof {
            assert(seg@ == all[i as int]);
            assert(all.take(i + 1).drop_last() =~= all.take(i as int));
            assert(all.take(i + 1).last() == all[i as int]);
        }
        let dot = String::from_str(".");
        let dotdot = String::from_str("..");
        if *seg == dot {
            // dropped
        } else if *seg == dotdot {
            let keep = match out.last() {
                Some(prev) => !(*prev == dotdot),
                None => false,
            };
            if keep {
                out.pop();
            } else if absolute {
                proof {
                    assert(spec_normalize(all.take(i + 1), absolute) is None);
                    lemma_normalize_none_extends(all, absolute, i + 1);
                }
                return Err(Error::Normalize(path.copy_of()));
            } else {
                out.push(seg.clone());
            }
        } else {
            out.push(seg.clone());
        }
        i += 1;
    }
    proof {
        assert(all.take(i as int) =~= all);
    }
    Ok(out)
}

} // verus!
