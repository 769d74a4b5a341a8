//! What holds of cutting, reducing and joining paths, for every path.

use crate::path::{
    all_plain, all_separator_free, backslash_free, clean_path, clean_segments, dot_dot, join,
    lemma_split_push, reduce, separator_free, slashed, split,
};
use vstd::prelude::*;

verus! {

/// Cutting a text without `\` leaves neither `/` nor `\` in any segment.
pub proof fn lemma_split_separator_free(text: Seq<char>)
    requires
        backslash_free(text),
    ensures
        all_separator_free(split(text)),
    decreases text.len(),
{
    if text.len() > 0 {
        lemma_split_separator_free(text.drop_last());
        lemma_split_push(text.drop_last(), text.last());
    }
}

/// A text without `\` is left as it is when every `\` is turned into `/`,
/// and after that turn no text holds a `\`.
pub proof fn lemma_slashed(text: Seq<char>)
    ensures
        backslash_free(slashed(text)),
        backslash_free(text) ==> slashed(text) == text,
{
}

/// Joined segments hold no `\` where none of the segments does.
pub proof fn lemma_join_backslash_free(segments: Seq<Seq<char>>)
    requires
        all_separator_free(segments),
    ensures
        backslash_free(join(segments)),
    decreases segments.len(),
{
    if segments.len() > 1 {
        lemma_join_backslash_free(segments.drop_last());
    }
}

/// Joining the segments of a path gives the path back.
pub proof fn lemma_join_split(path: Seq<char>)
    ensures
        join(split(path)) == path,
    decreases path.len(),
{
    if path.len() > 0 {
        let before = split(path.drop_last());
        lemma_join_split(path.drop_last());
        lemma_split_push(path.drop_last(), path.last());
        if path.last() == '/' {
            assert(before.push(Seq::empty()).drop_last() =~= before);
        } else if before.len() > 1 {
            let cut = before.drop_last().push(before.last().push(path.last()));
            assert(cut.drop_last() =~= before.drop_last());
        }
    }
}

/// Cutting two paths with a `/` between them gives the segments of the
/// first, then those of the second.
pub proof fn lemma_split_concat(first: Seq<char>, second: Seq<char>)
    ensures
        split(first + seq!['/'] + second) == split(first) + split(second),
    decreases second.len(),
{
    lemma_split_push(first, '/');
    if second.len() == 0 {
        assert(first + seq!['/'] + second =~= first.push('/'));
    } else {
        let shorter = second.drop_last();
        let c = second.last();
        lemma_split_concat(first, shorter);
        lemma_split_push(first + seq!['/'] + shorter, c);
        lemma_split_push(shorter, c);
        assert(first + seq!['/'] + second =~= (first + seq!['/'] + shorter).push(c));
    }
}

/// A text without a separator is its own single segment.
pub proof fn lemma_split_single(segment: Seq<char>)
    requires
        separator_free(segment),
    ensures
        split(segment) == seq![segment],
    decreases segment.len(),
{
    if segment.len() == 0 {
        assert(segment =~= Seq::<char>::empty());
    } else {
        let shorter = segment.drop_last();
        lemma_split_single(shorter);
        assert(shorter.push(segment.last()) =~= segment);
    }
}

/// Cutting what was joined gives the segments back, where there is at least
/// one and none holds a separator.
pub proof fn lemma_split_join(segments: Seq<Seq<char>>)
    requires
        segments.len() > 0,
        all_separator_free(segments),
    ensures
        split(join(segments)) == segments,
    decreases segments.len(),
{
    if segments.len() == 1 {
        lemma_split_single(segments[0]);
    } else {
        let init = segments.drop_last();
        lemma_split_join(init);
        lemma_split_single(segments.last());
        lemma_split_concat(join(init), segments.last());
    }
}

/// The cleaned form of joined segments is what reducing them leaves, joined:
/// cleaning works on the segments, whatever characters they are made of.
pub proof fn lemma_clean_path_of_joined(segments: Seq<Seq<char>>)
    requires
        segments.len() > 0,
        all_separator_free(segments),
    ensures
        clean_segments(join(segments)) == reduce(segments),
        clean_path(join(segments)) == join(reduce(segments)),
{
    lemma_join_backslash_free(segments);
    lemma_slashed(join(segments));
    lemma_split_join(segments);
}

/// Reducing keeps plain segments only, where no segment holds a separator.
pub proof fn lemma_reduce_plain(segments: Seq<Seq<char>>)
    requires
        all_separator_free(segments),
    ensures
        all_plain(reduce(segments)),
    decreases segments.len(),
{
    if segments.len() > 0 {
        lemma_reduce_plain(segments.drop_last());
    }
}

/// Reducing plain segments changes nothing.
pub proof fn lemma_reduce_of_plain(segments: Seq<Seq<char>>)
    requires
        all_plain(segments),
    ensures
        reduce(segments) == segments,
    decreases segments.len(),
{
    if segments.len() > 0 {
        lemma_reduce_of_plain(segments.drop_last());
    }
}

/// A `..` in front of everything else removes nothing: there is nothing kept
/// yet that it could remove.
pub proof fn lemma_leading_dot_dot_absorbed(rest: Seq<Seq<char>>)
    ensures
        reduce(seq![dot_dot()] + rest) == reduce(rest),
    decreases rest.len(),
{
    let all = seq![dot_dot()] + rest;
    if rest.len() == 0 {
        assert(reduce(all.drop_last()) =~= Seq::<Seq<char>>::empty());
    } else {
        lemma_leading_dot_dot_absorbed(rest.drop_last());
        assert(all.drop_last() =~= seq![dot_dot()] + rest.drop_last());
    }
}

/// The kept segments of any path are plain: a cleaned path names nothing
/// above the directory it is joined to, however many `..` the path held and
/// whichever separator stood between them.
pub proof fn lemma_clean_segments_plain(path: Seq<char>)
    ensures
        all_plain(clean_segments(path)),
{
    lemma_slashed(path);
    lemma_split_separator_free(slashed(path));
    lemma_reduce_plain(split(slashed(path)));
}

/// Plain segments, joined, neither start nor end with a separator.
pub proof fn lemma_join_plain_ends(segments: Seq<Seq<char>>)
    requires
        segments.len() > 0,
        all_plain(segments),
    ensures
        join(segments).len() > 0,
        join(segments).first() == segments.first().first(),
        join(segments).last() == segments.last().last(),
        join(segments).first() != '/' && join(segments).first() != '\\',
        join(segments).last() != '/' && join(segments).last() != '\\',
    decreases segments.len(),
{
    if segments.len() > 1 {
        lemma_join_plain_ends(segments.drop_last());
    }
}

/// Cleaning does not tell `\` from `/`.
pub proof fn lemma_clean_path_of_slashed(path: Seq<char>)
    ensures
        clean_segments(slashed(path)) == clean_segments(path),
        clean_path(slashed(path)) == clean_path(path),
{
    lemma_slashed(path);
    lemma_slashed(slashed(path));
}

/// A cleaned path holds no `\`.
pub proof fn lemma_clean_path_backslash_free(path: Seq<char>)
    ensures
        backslash_free(clean_path(path)),
{
    lemma_clean_segments_plain(path);
    lemma_join_backslash_free(clean_segments(path));
}

/// The segments of a cleaned path are the kept segments of the path it was
/// made from, or one empty segment where none was kept.
pub proof fn lemma_split_of_clean_path(path: Seq<char>)
    ensures
        clean_segments(path).len() > 0 ==> split(clean_path(path)) == clean_segments(path),
        clean_segments(path).len() == 0 ==> split(clean_path(path)) == seq![Seq::<char>::empty()],
{
    let kept = clean_segments(path);
    lemma_clean_segments_plain(path);
    if kept.len() > 0 {
        lemma_split_join(kept);
    }
}

/// Cleaning a cleaned path changes nothing.
pub proof fn lemma_clean_idempotent(path: Seq<char>)
    ensures
        clean_path(clean_path(path)) == clean_path(path),
{
    let kept = clean_segments(path);
    lemma_clean_segments_plain(path);
    lemma_split_of_clean_path(path);
    lemma_clean_path_backslash_free(path);
    lemma_slashed(clean_path(path));
    if kept.len() == 0 {
        let single = seq![Seq::<char>::empty()];
        assert(reduce(single.drop_last()) =~= Seq::<Seq<char>>::empty());
    } else {
        lemma_reduce_of_plain(kept);
    }
}

} // verus!
