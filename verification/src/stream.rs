//! The output of a running script as a sequence of chunks, bound to the
//! process that writes it.
//!
//! The stream owns the process and the pipe. It decides what each read of
//! the pipe means for the consumer and when the process has to be ended; the
//! caller does the reading and the ending. A stream asks for its process to
//! be ended exactly once: when its output ends, when a read fails, or when
//! it is released before either.

use vstd::prelude::*;

verus! {

/// The largest number of bytes asked of the pipe in one read.
pub const CHUNK_SIZE: usize = 1024;

/// Where a stream stands.
#[derive(Clone, Copy, Debug, PartialEq, Eq, Structural)]
pub enum StreamState {
    /// Nothing has been pulled yet.
    Created,
    /// At least one pull was made, and the output has not ended.
    Streaming,
    /// The pipe was closed: the output is complete.
    Exhausted,
    /// A read of the pipe failed.
    Failed,
    /// The stream was released before its output ended.
    Abandoned,
}

impl StreamState {
    /// Whether nothing more will come of a stream in this state.
    pub open spec fn is_terminal(self) -> bool {
        self is Exhausted || self is Failed || self is Abandoned
    }

    /// Whether nothing more will come of a stream in this state.
    pub fn terminal(&self) -> (done: bool)
        ensures
            done == self.is_terminal(),
    {
        match self {
            StreamState::Created | StreamState::Streaming => false,
            StreamState::Exhausted | StreamState::Failed | StreamState::Abandoned => true,
        }
    }
}

/// What the consumer's pull calls for.
#[derive(Clone, Copy, Debug, PartialEq, Eq, Structural)]
pub enum Pull {
    /// Read at most `limit` bytes from the pipe and report the outcome.
    Read { limit: usize },
    /// The sequence has ended: read nothing.
    End,
}

/// What one read of the pipe gave.
#[derive(Debug, PartialEq, Eq)]
pub enum ReadOutcome {
    /// The read succeeded with these bytes; none means the pipe was closed.
    Bytes(Vec<u8>),
    /// The read failed.
    Error,
    /// Nothing can be read yet.
    Pending,
}

/// What the consumer is handed for its pull.
#[derive(Debug, PartialEq, Eq)]
pub enum Frame {
    /// The next bytes of the output.
    Chunk(Vec<u8>),
    /// The end of the output.
    End,
    /// A read of the pipe failed: the output breaks off here, and nothing
    /// follows.
    StreamIOError,
    /// Nothing yet: the pull is to be made again.
    Pending,
}

/// What is to be done about the process.
#[derive(Clone, Copy, Debug, PartialEq, Eq, Structural)]
pub enum Cleanup {
    /// Wait for the process to exit, or make it.
    Terminate,
    /// Nothing: the process runs on, or its end was asked for before.
    Nothing,
}

/// The answer to the outcome of a read.
#[derive(Debug, PartialEq, Eq)]
pub struct Pulled {
    pub frame: Frame,
    pub cleanup: Cleanup,
}

/// The state after `outcome` was reported in `state`.
pub open spec fn next_state(state: StreamState, outcome: ReadOutcome) -> StreamState {
    if state.is_terminal() {
        state
    } else {
        match outcome {
            ReadOutcome::Bytes(bytes) => if bytes@.len() == 0 {
                StreamState::Exhausted
            } else {
                StreamState::Streaming
            },
            ReadOutcome::Error => StreamState::Failed,
            ReadOutcome::Pending => StreamState::Streaming,
        }
    }
}

/// The bytes that `outcome`, reported in `state`, hands to the consumer.
pub open spec fn delivered(state: StreamState, outcome: ReadOutcome) -> Seq<u8> {
    match outcome {
        ReadOutcome::Bytes(bytes) if !state.is_terminal() => bytes@,
        _ => Seq::empty(),
    }
}

/// Whether the frame is the right one for `outcome` reported in `state`: a
/// chunk of exactly the bytes read, the end where none were read or the
/// stream had ended before, the failure, or nothing yet.
pub open spec fn frame_matches(frame: Frame, state: StreamState, outcome: ReadOutcome) -> bool {
    if state.is_terminal() {
        frame is End
    } else {
        match outcome {
            ReadOutcome::Bytes(bytes) => if bytes@.len() == 0 {
                frame is End
            } else {
                frame matches Frame::Chunk(chunk) && chunk@ == bytes@
            },
            ReadOutcome::Error => frame is StreamIOError,
            ReadOutcome::Pending => frame is Pending,
        }
    }
}

/// What a step from `before` to `after` asks to be done about the process:
/// its end, where the step is the one that ends the stream.
pub open spec fn cleanup_for(before: StreamState, after: StreamState) -> Cleanup {
    if !before.is_terminal() && after.is_terminal() {
        Cleanup::Terminate
    } else {
        Cleanup::Nothing
    }
}

/// The output of a process, together with the process.
///
/// `T` is the process and `R` the pipe that its output is read from. Both
/// live exactly as long as the stream.
pub struct OwnedResourceStream<T, R> {
    name: String,
    resource: T,
    reader: R,
    state: StreamState,
    emitted: Ghost<Seq<u8>>,
}

impl<T, R> OwnedResourceStream<T, R> {
    /// The name given to the stream.
    pub closed spec fn name_view(&self) -> Seq<char> {
        self.name@
    }

    /// The process.
    pub closed spec fn resource(&self) -> T {
        self.resource
    }

    /// The pipe.
    pub closed spec fn reader(&self) -> R {
        self.reader
    }

    /// Where the stream stands.
    pub closed spec fn state(&self) -> StreamState {
        self.state
    }

    /// All the bytes handed to the consumer so far, in the order in which
    /// they were handed over.
    pub closed spec fn emitted(&self) -> Seq<u8> {
        self.emitted@
    }

    /// A stream of the output of `resource`, read from `reader`. Nothing has
    /// been pulled from it yet.
    pub fn new(name: String, resource: T, reader: R) -> (stream: Self)
        ensures
            stream.name_view() == name@,
            stream.resource() == resource,
            stream.reader() == reader,
            stream.state() == StreamState::Created,
            stream.emitted() == Seq::<u8>::empty(),
    {
        OwnedResourceStream {
            name,
            resource,
            reader,
            state: StreamState::Created,
            emitted: Ghost(Seq::empty()),
        }
    }

    /// The name given to the stream.
    pub fn name(&self) -> (name: &str)
        ensures
            name@ == self.name_view(),
    {
        self.name.as_str()
    }

    /// Where the stream stands.
    pub fn current_state(&self) -> (state: StreamState)
        ensures
            state == self.state(),
    {
        self.state
    }

    /// The pipe, to read from.
    pub fn reader_mut(&mut self) -> (reader: &mut R)
        ensures
            *reader == old(self).reader(),
            final(self).reader() == *final(reader),
            final(self).resource() == old(self).resource(),
            final(self).name_view() == old(self).name_view(),
            final(self).state() == old(self).state(),
            final(self).emitted() == old(self).emitted(),
    {
        &mut self.reader
    }

    /// The process, to end it.
    pub fn resource_mut(&mut self) -> (resource: &mut T)
        ensures
            *resource == old(self).resource(),
            final(self).resource() == *final(resource),
            final(self).reader() == old(self).reader(),
            final(self).name_view() == old(self).name_view(),
            final(self).state() == old(self).state(),
            final(self).emitted() == old(self).emitted(),
    {
        &mut self.resource
    }

    /// Begins a pull. A stream that has not ended asks for a read of at most
    /// `CHUNK_SIZE` bytes and is `Streaming` from then on; one that has ended
    /// asks for none and stays as it is.
    pub fn pull(&mut self) -> (pull: Pull)
        ensures
            old(self).state().is_terminal() ==> pull == Pull::End && final(self).state() == old(
                self,
            ).state(),
            !old(self).state().is_terminal() ==> pull == (Pull::Read { limit: CHUNK_SIZE })
                && final(self).state() == StreamState::Streaming,
            final(self).emitted() == old(self).emitted(),
            final(self).name_view() == old(self).name_view(),
            final(self).resource() == old(self).resource(),
            final(self).reader() == old(self).reader(),
    {
        if self.state.terminal() {
            Pull::End
        } else {
            self.state = StreamState::Streaming;
            Pull::Read { limit: CHUNK_SIZE }
        }
    }

    /// Takes the outcome of a read and says what the consumer gets.
    ///
    /// Bytes are handed on as one chunk, exactly as read. A read of no bytes
    /// ends the output, and a failed read ends it with the failure. The step
    /// that ends the stream asks for the end of the process. An outcome
    /// reported after the end changes nothing and yields the end again.
    pub fn on_read(&mut self, outcome: ReadOutcome) -> (pulled: Pulled)
        ensures
            final(self).state() == next_state(old(self).state(), outcome),
            frame_matches(pulled.frame, old(self).state(), outcome),
            pulled.cleanup == cleanup_for(old(self).state(), final(self).state()),
            final(self).emitted() == old(self).emitted() + delivered(old(self).state(), outcome),
            final(self).name_view() == old(self).name_view(),
            final(self).resource() == old(self).resource(),
            final(self).reader() == old(self).reader(),
    {
        if self.state.terminal() {
            return Pulled { frame: Frame::End, cleanup: Cleanup::Nothing };
        }
        match outcome {
            ReadOutcome::Bytes(bytes) => {
                if bytes.len() == 0 {
                    self.state = StreamState::Exhausted;
                    Pulled { frame: Frame::End, cleanup: Cleanup::Terminate }
                } else {
                    self.state = StreamState::Streaming;
                    self.emitted = Ghost(self.emitted@ + bytes@);
                    Pulled { frame: Frame::Chunk(bytes), cleanup: Cleanup::Nothing }
                }
            },
            ReadOutcome::Error => {
                self.state = StreamState::Failed;
                Pulled { frame: Frame::StreamIOError, cleanup: Cleanup::Terminate }
            },
            ReadOutcome::Pending => {
                self.state = StreamState::Streaming;
                Pulled { frame: Frame::Pending, cleanup: Cleanup::Nothing }
            },
        }
    }

    /// Gives the stream up. One that has not ended is `Abandoned` from now
    /// on, and the end of its process is asked for. One that has ended stays
    /// as it is, and nothing is asked for a second time.
    pub fn release(&mut self) -> (cleanup: Cleanup)
        ensures
            final(self).state().is_terminal(),
            final(self).state() == if old(self).state().is_terminal() {
                old(self).state()
            } else {
                StreamState::Abandoned
            },
            cleanup == cleanup_for(old(self).state(), final(self).state()),
            final(self).emitted() == old(self).emitted(),
            final(self).name_view() == old(self).name_view(),
            final(self).resource() == old(self).resource(),
            final(self).reader() == old(self).reader(),
    {
        if self.state.terminal() {
            Cleanup::Nothing
        } else {
            self.state = StreamState::Abandoned;
            Cleanup::Terminate
        }
    }
}

} // verus!
