//! Request paths as sequences of segments.
//!
//! A request path is cut at every `/` and every `\`. Empty segments and `.`
//! vanish, `..` removes the segment kept last, and what remains is joined
//! with `/` again. A cleaned path holds neither `\` nor any segment that
//! leads upwards.

use crate::path_laws::{
    lemma_clean_path_backslash_free, lemma_clean_segments_plain, lemma_join_plain_ends,
    lemma_split_of_clean_path,
};
use vstd::prelude::*;

verus! {

/// The segments of `path`: the pieces between its `/` characters, in order.
/// A path with `n` separators has `n + 1` segments, some of them possibly empty.
pub open spec fn split(path: Seq<char>) -> Seq<Seq<char>>
    decreases path.len(),
{
    if path.len() == 0 {
        seq![Seq::empty()]
    } else {
        let before = split(path.drop_last());
        if path.last() == '/' {
            before.push(Seq::empty())
        } else {
            before.drop_last().push(before.last().push(path.last()))
        }
    }
}

/// `path` with every `\` turned into `/`.
pub open spec fn slashed(path: Seq<char>) -> Seq<char> {
    Seq::new(
        path.len(),
        |i: int|
            if path[i] == '\\' {
                '/'
            } else {
                path[i]
            },
    )
}

/// The segment `.`.
pub open spec fn dot() -> Seq<char> {
    seq!['.']
}

/// The segment `..`.
pub open spec fn dot_dot() -> Seq<char> {
    seq!['.', '.']
}

/// The segments kept after `segment` has been seen: an empty segment or `.`
/// changes nothing, `..` removes the last kept segment if there is one, and
/// any other segment is kept.
pub open spec fn retain(kept: Seq<Seq<char>>, segment: Seq<char>) -> Seq<Seq<char>> {
    if segment.len() == 0 || segment == dot() {
        kept
    } else if segment == dot_dot() {
        if kept.len() > 0 {
            kept.drop_last()
        } else {
            kept
        }
    } else {
        kept.push(segment)
    }
}

/// The segments kept after all of `segments` have been seen, first to last.
pub open spec fn reduce(segments: Seq<Seq<char>>) -> Seq<Seq<char>>
    decreases segments.len(),
{
    if segments.len() == 0 {
        Seq::empty()
    } else {
        retain(reduce(segments.drop_last()), segments.last())
    }
}

/// The segments with a `/` between each two neighbours.
pub open spec fn join(segments: Seq<Seq<char>>) -> Seq<char>
    decreases segments.len(),
{
    if segments.len() == 0 {
        Seq::empty()
    } else if segments.len() == 1 {
        segments[0]
    } else {
        join(segments.drop_last()) + seq!['/'] + segments.last()
    }
}

/// The segments that a request path keeps. A `\` separates its segments as a
/// `/` does.
pub open spec fn clean_segments(path: Seq<char>) -> Seq<Seq<char>> {
    reduce(split(slashed(path)))
}

/// The cleaned form of a path: its kept segments, joined.
pub open spec fn clean_path(path: Seq<char>) -> Seq<char> {
    join(clean_segments(path))
}

/// A text without a `\` in it.
pub open spec fn backslash_free(text: Seq<char>) -> bool {
    forall|i: int| 0 <= i < text.len() ==> text[i] != '\\'
}

/// A segment with neither `/` nor `\` in it.
pub open spec fn separator_free(segment: Seq<char>) -> bool {
    forall|i: int| 0 <= i < segment.len() ==> segment[i] != '/' && segment[i] != '\\'
}

/// A segment that names something below the directory it stands in: not
/// empty, neither `.` nor `..`, and without a `/` or a `\`.
pub open spec fn is_plain(segment: Seq<char>) -> bool {
    &&& segment.len() > 0
    &&& segment != dot()
    &&& segment != dot_dot()
    &&& separator_free(segment)
}

/// Every one of `segments` is separator-free.
pub open spec fn all_separator_free(segments: Seq<Seq<char>>) -> bool {
    forall|k: int| 0 <= k < segments.len() ==> separator_free(#[trigger] segments[k])
}

/// Every one of `segments` is plain.
pub open spec fn all_plain(segments: Seq<Seq<char>>) -> bool {
    forall|k: int| 0 <= k < segments.len() ==> is_plain(#[trigger] segments[k])
}

/// What follows `base` in `all`, where `all` starts with `base`.
pub open spec fn below(base: Seq<Seq<char>>, all: Seq<Seq<char>>) -> Option<Seq<Seq<char>>> {
    if base.len() <= all.len() && all.take(base.len() as int) == base {
        Some(all.skip(base.len() as int))
    } else {
        None
    }
}

/// Cutting a path that ends in `c`: a separator opens a new, empty segment,
/// and any other character extends the last one.
pub proof fn lemma_split_push(path: Seq<char>, c: char)
    ensures
        split(path).len() > 0,
        c == '/' ==> split(path.push(c)) == split(path).push(Seq::empty()),
        c != '/' ==> split(path.push(c)) == split(path).drop_last().push(
            split(path).last().push(c),
        ),
    decreases path.len(),
{
    if path.len() > 0 {
        lemma_split_push(path.drop_last(), path.last());
    }
    assert(path.push(c).drop_last() =~= path);
}

/// One more segment is applied to what the segments before it kept.
pub proof fn lemma_reduce_push(segments: Seq<Seq<char>>, segment: Seq<char>)
    ensures
        reduce(segments.push(segment)) == retain(reduce(segments), segment),
{
    assert(segments.push(segment).drop_last() =~= segments);
}

/// One more segment is joined on with a `/` before it, unless it is the
/// first.
pub proof fn lemma_join_push(segments: Seq<Seq<char>>, segment: Seq<char>)
    ensures
        segments.len() == 0 ==> join(segments.push(segment)) == segment,
        segments.len() > 0 ==> join(segments.push(segment)) == join(segments) + seq!['/']
            + segment,
{
    assert(segments.push(segment).drop_last() =~= segments);
}

/// The segments of `path`, empty ones included: cut at every `/`, and where
/// `both` is set at every `\` too.
fn cut(path: &str, both: bool) -> (segments: Vec<String>)
    ensures
        both ==> segments.deep_view() == split(slashed(path@)),
        !both ==> segments.deep_view() == split(path@),
{
    let ghost text = if both {
        slashed(path@)
    } else {
        path@
    };
    let total: usize = path.unicode_len();
    let mut segments: Vec<String> = Vec::new();
    let mut start: usize = 0;
    let mut pos: usize = 0;
    for c in it: path.chars()
        invariant
            it.seq() == path@,
            total == path@.len(),
            text == if both {
                slashed(path@)
            } else {
                path@
            },
            pos == it.index(),
            start <= pos <= total,
            split(text.take(pos as int)).len() > 0,
            split(text.take(pos as int)).last() == path@.subrange(start as int, pos as int),
            segments.deep_view() == split(text.take(pos as int)).drop_last(),
    {
        let ghost seen = split(text.take(pos as int));
        let ghost done = segments.deep_view();
        proof {
            lemma_split_push(text.take(pos as int), text[pos as int]);
            assert(text.take(pos + 1) =~= text.take(pos as int).push(text[pos as int]));
        }
        if c == '/' || (both && c == '\\') {
            segments.push(path.substring_char(start, pos).to_owned());
            start = pos + 1;
            assert(segments.deep_view() =~= done.push(seen.last()));
        }
        pos = pos + 1;
    }
    let ghost done = segments.deep_view();
    segments.push(path.substring_char(start, pos).to_owned());
    assert(text.take(pos as int) =~= text);
    assert(segments.deep_view() =~= done.push(split(text).last()));
    segments
}

/// The segments of `path` between its `/` characters, empty ones included.
pub fn split_path(path: &str) -> (segments: Vec<String>)
    ensures
        segments.deep_view() == split(path@),
{
    cut(path, false)
}

/// The segments of a request path, empty ones included: `path` is cut at
/// every `/` and at every `\`.
pub fn split_request_path(path: &str) -> (segments: Vec<String>)
    ensures
        segments.deep_view() == split(slashed(path@)),
{
    cut(path, true)
}

/// Applies one segment to the kept ones.
fn retain_segment(kept: &mut Vec<String>, segment: &String)
    ensures
        final(kept).deep_view() == retain(old(kept).deep_view(), segment@),
{
    let text = segment.as_str();
    let n: usize = text.unicode_len();
    if n == 0 {
    } else if n == 1 && text.get_char(0) == '.' {
        assert(segment@ =~= dot());
    } else if n == 2 && text.get_char(0) == '.' && text.get_char(1) == '.' {
        assert(segment@ =~= dot_dot());
        if kept.len() > 0 {
            kept.pop();
        }
    } else {
        kept.push(segment.clone());
    }
}

/// The segments that are kept of `segments`, in order.
pub fn reduce_segments(segments: &Vec<String>) -> (kept: Vec<String>)
    ensures
        kept.deep_view() == reduce(segments.deep_view()),
{
    let mut kept: Vec<String> = Vec::new();
    let mut i: usize = 0;
    while i < segments.len()
        invariant
            i <= segments.len(),
            kept.deep_view() == reduce(segments.deep_view().take(i as int)),
        decreases segments.len() - i,
    {
        retain_segment(&mut kept, &segments[i]);
        proof {
            let seen = segments.deep_view().take(i as int);
            lemma_reduce_push(seen, segments[i as int]@);
            assert(segments.deep_view().take(i + 1) =~= seen.push(segments[i as int]@));
        }
        i = i + 1;
    }
    assert(segments.deep_view().take(i as int) =~= segments.deep_view());
    kept
}

/// The segments that `path` keeps, in order.
pub fn path_segments(path: &str) -> (kept: Vec<String>)
    ensures
        kept.deep_view() == clean_segments(path@),
{
    let segments = split_request_path(path);
    reduce_segments(&segments)
}

/// The segments that follow `base` in `all`, or `None` where `all` does not
/// start with `base`.
pub fn strip_segments(all: &Vec<String>, base: &Vec<String>) -> (rest: Option<Vec<String>>)
    ensures
        match below(base.deep_view(), all.deep_view()) {
            Some(tail) => rest matches Some(found) && found.deep_view() == tail,
            None => rest is None,
        },
{
    if base.len() > all.len() {
        return None;
    }
    let mut i: usize = 0;
    while i < base.len()
        invariant
            i <= base.len() <= all.len(),
            forall|k: int| 0 <= k < i ==> all[k]@ == base[k]@,
        decreases base.len() - i,
    {
        if all[i] != base[i] {
            assert(all.deep_view().take(base.len() as int)[i as int] == all[i as int]@);
            return None;
        }
        i = i + 1;
    }
    assert(all.deep_view().take(base.len() as int) =~= base.deep_view());
    let mut rest: Vec<String> = Vec::new();
    while i < all.len()
        invariant
            base.len() <= i <= all.len(),
            rest.deep_view() == all.deep_view().subrange(base.len() as int, i as int),
        decreases all.len() - i,
    {
        let ghost before = rest.deep_view();
        rest.push(all[i].clone());
        assert(rest.deep_view() =~= before.push(all[i as int]@));
        i = i + 1;
    }
    Some(rest)
}

/// The segments with a `/` between each two neighbours.
pub fn join_segments(segments: &Vec<String>) -> (joined: String)
    ensures
        joined@ == join(segments.deep_view()),
{
    let mut joined = String::new();
    let mut i: usize = 0;
    while i < segments.len()
        invariant
            i <= segments.len(),
            joined@ == join(segments.deep_view().take(i as int)),
        decreases segments.len() - i,
    {
        if i > 0 {
            joined.append("/");
        }
        joined.append(segments[i].as_str());
        proof {
            reveal_strlit("/");
            let seen = segments.deep_view().take(i as int);
            lemma_join_push(seen, segments[i as int]@);
            assert(segments.deep_view().take(i + 1) =~= seen.push(segments[i as int]@));
        }
        i = i + 1;
    }
    assert(segments.deep_view().take(i as int) =~= segments.deep_view());
    joined
}

/// Cleans a request path: cuts it at every `/` and every `\`, drops empty
/// segments and `.`, lets `..` remove the segment kept before it (or nothing,
/// where none is kept), and joins what is left with `/`.
///
/// The result is empty or made of plain segments: it never starts or ends
/// with `/`, holds no `\` and no `.` or `..` segment, however many the path
/// held.
pub fn path_clean(path: &str) -> (cleaned: String)
    ensures
        cleaned@ == clean_path(path@),
        cleaned@.len() == 0 || all_plain(split(cleaned@)),
        cleaned@.len() > 0 ==> cleaned@.first() != '/' && cleaned@.last() != '/',
        backslash_free(cleaned@),
{
    let kept = path_segments(path);
    proof {
        lemma_clean_segments_plain(path@);
        lemma_split_of_clean_path(path@);
        lemma_clean_path_backslash_free(path@);
        if kept.len() > 0 {
            lemma_join_plain_ends(clean_segments(path@));
        }
    }
    join_segments(&kept)
}

} // verus!
