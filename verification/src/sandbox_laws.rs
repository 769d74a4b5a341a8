//! Why a cleaned path, put below a root, stays below it.

use crate::path::{
    all_plain, all_separator_free, clean_path, clean_segments, dot_dot, join, lemma_split_push,
    split,
};
use crate::path_laws::{lemma_clean_segments_plain, lemma_split_concat, lemma_split_join};
use crate::sandbox::{candidate, root_segments, trim, within};
use vstd::prelude::*;

verus! {

/// Trimming only removes empty segments from the end, and never the first
/// segment.
pub proof fn lemma_trim_is_prefix(segments: Seq<Seq<char>>)
    ensures
        trim(segments).len() <= segments.len(),
        segments.len() > 0 ==> trim(segments).len() > 0,
        segments.take(trim(segments).len() as int) == trim(segments),
        forall|i: int| trim(segments).len() <= i < segments.len() ==> (#[trigger] segments[i]).len() == 0,
    decreases segments.len(),
{
    if segments.len() > 1 && segments.last().len() == 0 {
        let shorter = segments.drop_last();
        lemma_trim_is_prefix(shorter);
        assert forall|i: int| trim(segments).len() <= i < segments.len() implies (
        #[trigger] segments[i]).len() == 0 by {
            if i < shorter.len() {
                assert(segments[i] == shorter[i]);
            }
        }
    }
}

/// A root holds every path made by appending to it a relative path none of
/// whose segments is `..`.
pub proof fn lemma_candidate_within(root: Seq<char>, relative: Seq<char>)
    requires
        forall|k: int| 0 <= k < split(relative).len() ==> #[trigger] split(relative)[k] != dot_dot(),
    ensures
        within(root, candidate(root, relative)),
{
    let path = candidate(root, relative);
    let stem = if root.len() > 0 && root.last() == '/' {
        root.drop_last()
    } else {
        root
    };
    assert(path =~= stem + seq!['/'] + relative);
    lemma_split_concat(stem, relative);
    lemma_split_push(stem, '/');
    assert(root_segments(root) == trim(split(stem))) by {
        if root.len() > 0 && root.last() == '/' {
            assert(split(stem).push(Seq::empty()).drop_last() =~= split(stem));
        }
    }
    lemma_trim_is_prefix(split(stem));
    let base = root_segments(root);
    let all = split(path);
    assert(all.take(base.len() as int) =~= split(stem).take(base.len() as int));
    assert(forall|i: int| base.len() <= i < all.len() ==> all[i] != dot_dot());
}

/// Plain segments, joined and put below a root, name a place in that root.
pub proof fn lemma_plain_segments_within(root: Seq<char>, segments: Seq<Seq<char>>)
    requires
        all_plain(segments),
    ensures
        within(root, candidate(root, join(segments))),
{
    if segments.len() > 0 {
        assert(all_separator_free(segments));
        lemma_split_join(segments);
    }
    lemma_candidate_within(root, join(segments));
}

/// However many `..` a request path holds, its cleaned form put below a
/// root names a place in that root.
pub proof fn lemma_clean_path_confined(root: Seq<char>, request_path: Seq<char>)
    ensures
        within(root, candidate(root, clean_path(request_path))),
{
    lemma_clean_segments_plain(request_path);
    lemma_plain_segments_within(root, clean_segments(request_path));
}

} // verus!
