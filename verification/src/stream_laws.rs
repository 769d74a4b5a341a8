//! What holds of a stream over its whole life, whatever the reads give.

use crate::stream::{cleanup_for, delivered, next_state, Cleanup, ReadOutcome, StreamState};
use vstd::prelude::*;

verus! {

/// The state that a stream is in, and the bytes that it has handed over,
/// after `outcomes` have been reported to it in `state`, one after the other.
pub open spec fn run(state: StreamState, outcomes: Seq<ReadOutcome>) -> (StreamState, Seq<u8>)
    decreases outcomes.len(),
{
    if outcomes.len() == 0 {
        (state, Seq::empty())
    } else {
        let (reached, bytes) = run(state, outcomes.drop_last());
        (next_state(reached, outcomes.last()), bytes + delivered(reached, outcomes.last()))
    }
}

/// How often the end of the process is asked for while `outcomes` are
/// reported to a stream in `state`.
pub open spec fn terminations(state: StreamState, outcomes: Seq<ReadOutcome>) -> nat
    decreases outcomes.len(),
{
    if outcomes.len() == 0 {
        0
    } else {
        let reached = run(state, outcomes.drop_last()).0;
        let asked: nat = if cleanup_for(reached, next_state(reached, outcomes.last()))
            == Cleanup::Terminate {
            1
        } else {
            0
        };
        terminations(state, outcomes.drop_last()) + asked
    }
}

/// What the process wrote, as far as the reads show it: the bytes of the
/// reads, in order, up to the first read that gave no bytes or failed.
pub open spec fn output(outcomes: Seq<ReadOutcome>) -> Seq<u8>
    decreases outcomes.len(),
{
    if outcomes.len() == 0 {
        Seq::empty()
    } else {
        match outcomes.first() {
            ReadOutcome::Bytes(bytes) => if bytes@.len() == 0 {
                Seq::empty()
            } else {
                bytes@ + output(outcomes.drop_first())
            },
            ReadOutcome::Error => Seq::empty(),
            ReadOutcome::Pending => output(outcomes.drop_first()),
        }
    }
}

/// A stream that has ended stays where it is and hands over nothing more.
pub proof fn lemma_run_after_end(state: StreamState, outcomes: Seq<ReadOutcome>)
    requires
        state.is_terminal(),
    ensures
        run(state, outcomes) == (state, Seq::<u8>::empty()),
        terminations(state, outcomes) == 0,
    decreases outcomes.len(),
{
    if outcomes.len() > 0 {
        lemma_run_after_end(state, outcomes.drop_last());
    }
}

/// Reporting `first` and then `rest` is reporting `rest` in the state that
/// `first` leads to, after what `first` handed over.
pub proof fn lemma_run_first(state: StreamState, first: ReadOutcome, rest: Seq<ReadOutcome>)
    ensures
        run(state, seq![first] + rest).0 == run(next_state(state, first), rest).0,
        run(state, seq![first] + rest).1 == delivered(state, first) + run(
            next_state(state, first),
            rest,
        ).1,
    decreases rest.len(),
{
    let all = seq![first] + rest;
    if rest.len() == 0 {
        assert(all.drop_last() =~= Seq::<ReadOutcome>::empty());
        assert(run(state, Seq::<ReadOutcome>::empty()) == (state, Seq::<u8>::empty()));
    } else {
        lemma_run_first(state, first, rest.drop_last());
        assert(all.drop_last() =~= seq![first] + rest.drop_last());
    }
}

/// The bytes that a stream hands over are the output of its process, in the
/// order in which they were read, and nothing is handed over twice or left
/// out: reads that gave bytes count up to the first that gave none or
/// failed.
pub proof fn lemma_stream_hands_over_output(state: StreamState, outcomes: Seq<ReadOutcome>)
    requires
        !state.is_terminal(),
    ensures
        run(state, outcomes).1 == output(outcomes),
    decreases outcomes.len(),
{
    if outcomes.len() > 0 {
        let first = outcomes.first();
        let rest = outcomes.drop_first();
        assert(seq![first] + rest =~= outcomes);
        lemma_run_first(state, first, rest);
        let then = next_state(state, first);
        if then.is_terminal() {
            lemma_run_after_end(then, rest);
        } else {
            lemma_stream_hands_over_output(then, rest);
        }
    }
}

/// While outcomes are reported, the end of the process is asked for once if
/// the stream ends, and not at all if it does not.
pub proof fn lemma_terminated_once(state: StreamState, outcomes: Seq<ReadOutcome>)
    ensures
        terminations(state, outcomes) == if !state.is_terminal() && run(
            state,
            outcomes,
        ).0.is_terminal() {
            1nat
        } else {
            0nat
        },
        state.is_terminal() ==> run(state, outcomes).0 == state,
    decreases outcomes.len(),
{
    if outcomes.len() > 0 {
        lemma_terminated_once(state, outcomes.drop_last());
    }
}

/// Over the life of a stream, from its creation through any reads to its
/// release, the end of its process is asked for exactly once.
pub proof fn lemma_process_ended_exactly_once(outcomes: Seq<ReadOutcome>)
    ensures
        ({
            let reached = run(StreamState::Created, outcomes).0;
            let released = if reached.is_terminal() {
                reached
            } else {
                StreamState::Abandoned
            };
            let at_release: nat = if cleanup_for(reached, released) == Cleanup::Terminate {
                1
            } else {
                0
            };
            terminations(StreamState::Created, outcomes) + at_release == 1
        }),
{
    lemma_terminated_once(StreamState::Created, outcomes);
}

/// A read of one of two pipes: `of_first` says whether it was a read of the
/// first stream's pipe, and `outcome` what it gave.
pub struct Turn {
    pub of_first: bool,
    pub outcome: ReadOutcome,
}

/// The reads of one of two streams among `turns`, in order.
pub open spec fn reads_of(turns: Seq<Turn>, first: bool) -> Seq<ReadOutcome> {
    turns.filter(|turn: Turn| turn.of_first == first).map_values(|turn: Turn| turn.outcome)
}

/// Where two streams stand, and what each has handed over, after `turns`
/// were reported one after the other, each to the stream whose pipe was
/// read.
pub open spec fn run_both(first: StreamState, second: StreamState, turns: Seq<Turn>) -> (
    (StreamState, Seq<u8>),
    (StreamState, Seq<u8>),
)
    decreases turns.len(),
{
    if turns.len() == 0 {
        ((first, Seq::empty()), (second, Seq::empty()))
    } else {
        let (one, two) = run_both(first, second, turns.drop_last());
        let outcome = turns.last().outcome;
        if turns.last().of_first {
            ((next_state(one.0, outcome), one.1 + delivered(one.0, outcome)), two)
        } else {
            (one, (next_state(two.0, outcome), two.1 + delivered(two.0, outcome)))
        }
    }
}

/// Two streams do not see each other: however the reads of their pipes
/// follow one another, each stream ends where its own reads lead and hands
/// over the bytes of its own reads, in their order and nothing else.
pub proof fn lemma_streams_are_isolated(first: StreamState, second: StreamState, turns: Seq<Turn>)
    ensures
        run_both(first, second, turns).0 == run(first, reads_of(turns, true)),
        run_both(first, second, turns).1 == run(second, reads_of(turns, false)),
    decreases turns.len(),
{
    reveal(Seq::filter);
    if turns.len() > 0 {
        let before = turns.drop_last();
        lemma_streams_are_isolated(first, second, before);
        let mine = turns.last().of_first;
        assert(reads_of(turns, mine).drop_last() =~= reads_of(before, mine));
    }
}

} // verus!
