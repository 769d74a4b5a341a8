//! The directory that holds the scripts, and what it means for a path to lie
//! in it.
//!
//! Paths are compared segment by segment, never character by character: the
//! root `/srv/run` holds `/srv/run/a` and does not hold `/srv/runner`. The
//! paths compared are paths of the file system, written with `/` between
//! their segments; in a file name a `\` is a character like any other.

use crate::path::{dot_dot, split, split_path};
use vstd::prelude::*;

verus! {

/// `segments` without the empty ones at its end, the first segment always
/// staying. A directory written with a `/` at its end has the segments of
/// the same directory written without.
pub open spec fn trim(segments: Seq<Seq<char>>) -> Seq<Seq<char>>
    decreases segments.len(),
{
    if segments.len() > 1 && segments.last().len() == 0 {
        trim(segments.drop_last())
    } else {
        segments
    }
}

/// The segments that every path in `root` starts with.
pub open spec fn root_segments(root: Seq<char>) -> Seq<Seq<char>> {
    trim(split(root))
}

/// Whether `path` is `root` or lies below it: its segments start with those
/// of `root`, and none of the segments after them is `..`.
pub open spec fn within(root: Seq<char>, path: Seq<char>) -> bool {
    let base = root_segments(root);
    let all = split(path);
    &&& base.len() <= all.len()
    &&& all.take(base.len() as int) == base
    &&& forall|i: int| base.len() <= i < all.len() ==> all[i] != dot_dot()
}

/// `relative` appended to `root`, with exactly one `/` put between them
/// where `root` does not end in one.
pub open spec fn candidate(root: Seq<char>, relative: Seq<char>) -> Seq<char> {
    if root.len() > 0 && root.last() == '/' {
        root + relative
    } else {
        root + seq!['/'] + relative
    }
}

/// The directory below which all scripts lie. It is never the empty text.
#[derive(Debug)]
pub struct SandboxRoot {
    dir: String,
}

impl View for SandboxRoot {
    type V = Seq<char>;

    closed spec fn view(&self) -> Seq<char> {
        self.dir@
    }
}

impl SandboxRoot {
    #[verifier::type_invariant]
    spec fn named(self) -> bool {
        self.dir@.len() > 0
    }

    /// The root at `dir`, or `None` where `dir` is empty.
    pub fn new(dir: String) -> (root: Option<SandboxRoot>)
        ensures
            root is Some <==> dir@.len() > 0,
            root matches Some(r) ==> r@ == dir@,
    {
        if dir.as_str().is_empty() {
            None
        } else {
            Some(SandboxRoot { dir })
        }
    }

    /// The directory as it was given.
    pub fn as_str(&self) -> (dir: &str)
        ensures
            dir@ == self@,
            dir@.len() > 0,
    {
        proof {
            use_type_invariant(self);
        }
        self.dir.as_str()
    }

    /// The path of `relative` below this root.
    pub fn candidate(&self, relative: &str) -> (path: String)
        ensures
            path@ == candidate(self@, relative@),
    {
        proof {
            use_type_invariant(self);
        }
        let dir = self.dir.as_str();
        let n: usize = dir.unicode_len();
        let mut path = self.dir.clone();
        if dir.get_char(n - 1) != '/' {
            path.append("/");
            proof {
                reveal_strlit("/");
            }
        }
        path.append(relative);
        path
    }

    /// Whether `path` is this root or lies below it.
    pub fn contains(&self, path: &str) -> (inside: bool)
        ensures
            inside == within(self@, path@),
    {
        let mut base = split_path(self.dir.as_str());
        trim_segments(&mut base);
        let all = split_path(path);
        if base.len() > all.len() {
            return false;
        }
        let mut i: usize = 0;
        while i < base.len()
            invariant
                i <= base.len() <= all.len(),
                base.deep_view() == root_segments(self@),
                all.deep_view() == split(path@),
                forall|k: int| 0 <= k < i ==> all[k]@ == base[k]@,
            decreases base.len() - i,
        {
            if all[i] != base[i] {
                assert(split(path@).take(base.len() as int)[i as int] == all[i as int]@);
                return false;
            }
            i = i + 1;
        }
        assert(all.deep_view().take(base.len() as int) =~= base.deep_view());
        let up = "..".to_owned();
        proof {
            reveal_strlit("..");
        }
        while i < all.len()
            invariant
                base.len() <= i <= all.len(),
                up@ == dot_dot(),
                base.deep_view() == root_segments(self@),
                all.deep_view() == split(path@),
                forall|k: int| base.len() <= k < i ==> all[k]@ != dot_dot(),
            decreases all.len() - i,
        {
            if all[i] == up {
                assert(split(path@)[i as int] == all[i as int]@);
                return false;
            }
            i = i + 1;
        }
        true
    }
}

/// Removes the empty segments at the end, the first segment always staying.
fn trim_segments(segments: &mut Vec<String>)
    ensures
        final(segments).deep_view() == trim(old(segments).deep_view()),
{
    while segments.len() > 1 && segments[segments.len() - 1].as_str().is_empty()
        invariant
            trim(segments.deep_view()) == trim(old(segments).deep_view()),
        decreases segments.len(),
    {
        let ghost before = segments.deep_view();
        segments.pop();
        assert(segments.deep_view() =~= before.drop_last());
    }
}

} // verus!
