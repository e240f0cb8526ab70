//! The relay engine's decisions. Each direction is a [`Flow`]: read a chunk
//! from the source, write it to the sink, repeat; on end of input or an error,
//! shut down the sink's write half and stop. A [`Relay`] joins the two
//! directions of one session: it ends only when both have stopped.
use vstd::prelude::*;

verus! {

/// Size of the buffer that each direction reuses for every read.
pub const RELAY_BUFFER_SIZE: usize = 4096;

/// What a read on a direction's source gave.
#[derive(Clone, Copy, Debug, PartialEq, Eq, Structural)]
pub enum ReadOutcome {
    /// This many bytes (at least one) now stand at the start of the buffer.
    Data(usize),
    /// The peer closed its write side: no more bytes will come.
    End,
    /// The read failed.
    Failed,
}

/// What the caller does next for one direction.
#[derive(Clone, Copy, Debug, PartialEq, Eq, Structural)]
pub enum FlowAction {
    /// Write this many bytes from the start of the buffer to the sink.
    Write(usize),
    /// Read the next chunk from the source into the buffer.
    Read,
    /// Shut down the sink's write half; the direction is over.
    ShutdownSink,
}

/// Where one direction stands.
#[derive(Clone, Copy, Debug, PartialEq, Eq, Structural)]
pub enum FlowState {
    /// Waiting for a read on the source.
    Reading,
    /// Waiting for the write of this many bytes to the sink.
    Writing(usize),
    /// The source ended and every byte read was written.
    Drained,
    /// A read or a write failed.
    Broken,
}

/// One direction of a relay, with the bytes it has read and those it has
/// handed on.
pub struct Flow {
    state: FlowState,
    received: Ghost<Seq<u8>>,
    delivered: Ghost<Seq<u8>>,
}

impl Flow {
    pub closed spec fn state(&self) -> FlowState {
        self.state
    }

    /// Every byte read from the source, in order.
    pub closed spec fn received(&self) -> Seq<u8> {
        self.received@
    }

    /// Every byte written to the sink, in order.
    pub closed spec fn delivered(&self) -> Seq<u8> {
        self.delivered@
    }

    /// The sink gets a prefix of the source's bytes; while reading, and once
    /// drained, it has all of them; while writing, all but the chunk in hand.
    pub open spec fn wf(&self) -> bool {
        &&& self.delivered().len() <= self.received().len()
        &&& self.delivered() == self.received().subrange(0, self.delivered().len() as int)
        &&& (self.state() == FlowState::Reading ==> self.delivered() == self.received())
        &&& (self.state() == FlowState::Drained ==> self.delivered() == self.received())
        &&& (self.state() matches FlowState::Writing(n) ==> self.received().len()
            == self.delivered().len() + n)
    }

    /// Whether the direction is over.
    pub open spec fn is_over(&self) -> bool {
        self.state() == FlowState::Drained || self.state() == FlowState::Broken
    }

    /// A direction that has moved no bytes yet and waits for its first read.
    pub fn new() -> (r: Flow)
        ensures
            r.wf(),
            r.state() == FlowState::Reading,
            r.received() == Seq::<u8>::empty(),
            r.delivered() == Seq::<u8>::empty(),
    {
        let r = Flow {
            state: FlowState::Reading,
            received: Ghost(Seq::empty()),
            delivered: Ghost(Seq::empty()),
        };
        assert(r.received@.subrange(0, 0) =~= r.delivered@);
        r
    }

    /// The state of the direction.
    pub fn current(&self) -> (r: FlowState)
        ensures
            r == self.state(),
    {
        self.state
    }

    /// Whether the direction is over.
    pub fn finished(&self) -> (r: bool)
        ensures
            r == self.is_over(),
    {
        match self.state {
            FlowState::Drained | FlowState::Broken => true,
            _ => false,
        }
    }

    /// Hands in what a read on the source gave, with the buffer it read into.
    /// Data is passed on whole to the sink; end of input or a failure shuts
    /// the sink's write half.
    pub fn on_read(&mut self, buf: &[u8], outcome: ReadOutcome) -> (r: FlowAction)
        requires
            old(self).wf(),
            old(self).state() == FlowState::Reading,
            outcome matches ReadOutcome::Data(n) ==> 0 < n <= buf@.len(),
        ensures
            final(self).wf(),
            final(self).delivered() == old(self).delivered(),
            outcome matches ReadOutcome::Data(n) ==> r == FlowAction::Write(n) && final(self).state()
                == FlowState::Writing(n) && final(self).received() == old(self).received()
                + buf@.subrange(0, n as int),
            outcome == ReadOutcome::End ==> r == FlowAction::ShutdownSink && final(self).state()
                == FlowState::Drained && final(self).received() == old(self).received(),
            outcome == ReadOutcome::Failed ==> r == FlowAction::ShutdownSink && final(self).state()
                == FlowState::Broken && final(self).received() == old(self).received(),
    {
        match outcome {
            ReadOutcome::Data(n) => {
                self.received = Ghost(self.received@ + buf@.subrange(0, n as int));
                self.state = FlowState::Writing(n);
                assert(self.received@.subrange(0, self.delivered@.len() as int) =~= self.delivered@);
                FlowAction::Write(n)
            },
            ReadOutcome::End => {
                self.state = FlowState::Drained;
                FlowAction::ShutdownSink
            },
            ReadOutcome::Failed => {
                self.state = FlowState::Broken;
                FlowAction::ShutdownSink
            },
        }
    }

    /// Reports whether the write of the chunk in hand succeeded.
    pub fn on_written(&mut self, ok: bool) -> (r: FlowAction)
        requires
            old(self).wf(),
            old(self).state() is Writing,
        ensures
            final(self).wf(),
            final(self).received() == old(self).received(),
            ok ==> r == FlowAction::Read && final(self).state() == FlowState::Reading
                && final(self).delivered() == old(self).received(),
            !ok ==> r == FlowAction::ShutdownSink && final(self).state() == FlowState::Broken
                && final(self).delivered() == old(self).delivered(),
    {
        if ok {
            self.delivered = Ghost(self.received@);
            self.state = FlowState::Reading;
            assert(self.received@.subrange(0, self.delivered@.len() as int) =~= self.delivered@);
            FlowAction::Read
        } else {
            self.state = FlowState::Broken;
            FlowAction::ShutdownSink
        }
    }
}

/// A direction whose source ended has handed on every byte it read, in the
/// order it read them.
pub proof fn lemma_drained_flow_delivers_all(f: Flow)
    requires
        f.wf(),
        f.state() == FlowState::Drained,
    ensures
        f.delivered() == f.received(),
{
}

/// Whatever the outcome, a direction never hands on a byte it did not read,
/// nor changes their order.
pub proof fn lemma_flow_delivers_a_prefix(f: Flow)
    requires
        f.wf(),
    ensures
        f.delivered().is_prefix_of(f.received()),
{
}

/// The two directions of a session.
#[derive(Clone, Copy, Debug, PartialEq, Eq, Structural)]
pub enum Direction {
    ClientToDestination,
    DestinationToClient,
}

/// The two sockets of a session.
#[derive(Clone, Copy, Debug, PartialEq, Eq, Structural)]
pub enum Side {
    Client,
    Destination,
}

/// The socket a direction writes to: when the direction ends, this socket's
/// write half is shut down.
pub open spec fn sink_of(d: Direction) -> Side {
    match d {
        Direction::ClientToDestination => Side::Destination,
        Direction::DestinationToClient => Side::Client,
    }
}

/// The socket a direction writes to.
pub fn sink(d: Direction) -> (r: Side)
    ensures
        r == sink_of(d),
{
    match d {
        Direction::ClientToDestination => Side::Destination,
        Direction::DestinationToClient => Side::Client,
    }
}

/// The join of a session's two directions.
pub struct Relay {
    upstream_open: bool,
    downstream_open: bool,
}

impl Relay {
    /// Whether a direction still runs.
    pub closed spec fn is_open(&self, d: Direction) -> bool {
        match d {
            Direction::ClientToDestination => self.upstream_open,
            Direction::DestinationToClient => self.downstream_open,
        }
    }

    /// The session ends once neither direction runs.
    pub open spec fn is_terminated(&self) -> bool {
        !self.is_open(Direction::ClientToDestination) && !self.is_open(
            Direction::DestinationToClient,
        )
    }

    /// Both directions running.
    pub fn new() -> (r: Relay)
        ensures
            r.is_open(Direction::ClientToDestination),
            r.is_open(Direction::DestinationToClient),
            !r.is_terminated(),
    {
        Relay { upstream_open: true, downstream_open: true }
    }

    /// Records that a direction has stopped. The other keeps running.
    pub fn direction_done(&mut self, d: Direction)
        ensures
            !final(self).is_open(d),
            forall|e: Direction| e != d ==> final(self).is_open(e) == old(self).is_open(e),
    {
        match d {
            Direction::ClientToDestination => self.upstream_open = false,
            Direction::DestinationToClient => self.downstream_open = false,
        }
    }

    /// Whether a direction still runs.
    pub fn open(&self, d: Direction) -> (r: bool)
        ensures
            r == self.is_open(d),
    {
        match d {
            Direction::ClientToDestination => self.upstream_open,
            Direction::DestinationToClient => self.downstream_open,
        }
    }

    /// Whether the session has ended.
    pub fn terminated(&self) -> (r: bool)
        ensures
            r == self.is_terminated(),
    {
        !self.upstream_open && !self.downstream_open
    }
}

/// When one direction stops while the other runs, the session goes on: it
/// ends only once the other direction has stopped too.
pub proof fn lemma_half_close_keeps_session(before: Relay, after: Relay, d: Direction, e: Direction)
    requires
        e != d,
        before.is_open(e),
        !after.is_open(d),
        forall|x: Direction| x != d ==> after.is_open(x) == before.is_open(x),
    ensures
        after.is_open(e),
        !after.is_terminated(),
{
}

} // verus!
