//! One direction of the byte relay: what to do with each read from the
//! source stream. The reads and writes themselves are done by the caller.

use vstd::prelude::*;

verus! {

/// Size of the transfer buffer a relay reads into.
pub const RELAY_BUFFER_SIZE: usize = 1024;

/// What one read from the source stream gave.
pub enum ReadOutcome {
    /// These bytes, at least one.
    Data(Vec<u8>),
    /// Zero bytes: the source is closed.
    EndOfStream,
    /// The read failed.
    Failed,
}

/// What the caller does next.
pub enum RelayAction {
    /// Write these bytes in full to the sink, then flush, then read again.
    Forward(Vec<u8>),
    /// Stop this relay.
    Stop,
}

/// Why a relay is no longer running.
#[derive(PartialEq, Eq, Structural, Clone, Copy, Debug)]
pub enum StopReason {
    /// The source reached end of stream.
    EndOfStream,
    /// A read or a write failed.
    IoError,
}

/// Mathematical state of a relay direction.
pub struct RelayModel {
    pub stopped: Option<StopReason>,
    pub received: Seq<u8>,
    pub forwarded: Seq<u8>,
}

/// The state and action that follow a read of `outcome` in state `m`.
pub open spec fn read_step(m: RelayModel, outcome: ReadOutcome) -> (RelayModel, RelayAction) {
    if m.stopped is Some {
        (m, RelayAction::Stop)
    } else {
        match outcome {
            ReadOutcome::Data(bytes) => (
                RelayModel {
                    received: m.received + bytes@,
                    forwarded: m.forwarded + bytes@,
                    ..m
                },
                RelayAction::Forward(bytes),
            ),
            ReadOutcome::EndOfStream => (
                RelayModel { stopped: Some(StopReason::EndOfStream), ..m },
                RelayAction::Stop,
            ),
            ReadOutcome::Failed => (
                RelayModel { stopped: Some(StopReason::IoError), ..m },
                RelayAction::Stop,
            ),
        }
    }
}

/// The state reached, and the actions handed out, when the reads `reads`
/// are fed in turn to a relay in state `m`.
pub open spec fn feed(m: RelayModel, reads: Seq<ReadOutcome>) -> (RelayModel, Seq<RelayAction>)
    decreases reads.len(),
{
    if reads.len() == 0 {
        (m, Seq::empty())
    } else {
        let (m1, a) = read_step(m, reads[0]);
        let (mf, acts) = feed(m1, reads.drop_first());
        (mf, seq![a] + acts)
    }
}

/// The bytes that `acts` asks to be written, in order.
pub open spec fn sent(acts: Seq<RelayAction>) -> Seq<u8>
    decreases acts.len(),
{
    if acts.len() == 0 {
        Seq::empty()
    } else {
        (match acts[0] {
            RelayAction::Forward(bytes) => bytes@,
            RelayAction::Stop => Seq::empty(),
        }) + sent(acts.drop_first())
    }
}

/// The bytes of the reads in order, up to the first read that is not data.
pub open spec fn stream_of(reads: Seq<ReadOutcome>) -> Seq<u8>
    decreases reads.len(),
{
    if reads.len() == 0 {
        Seq::empty()
    } else {
        match reads[0] {
            ReadOutcome::Data(bytes) => bytes@ + stream_of(reads.drop_first()),
            _ => Seq::empty(),
        }
    }
}

/// The state of a relay that has read nothing.
pub open spec fn fresh() -> RelayModel {
    RelayModel { stopped: None, received: Seq::empty(), forwarded: Seq::empty() }
}

/// The state of one relay direction. `received` is every byte read from the
/// source so far, `forwarded` every byte handed on to be written, in order.
pub struct RelayChannel {
    stopped: Option<StopReason>,
    received: Ghost<Seq<u8>>,
    forwarded: Ghost<Seq<u8>>,
}

impl View for RelayChannel {
    type V = RelayModel;

    closed spec fn view(&self) -> RelayModel {
        RelayModel { stopped: self.stopped, received: self.received@, forwarded: self.forwarded@ }
    }
}

impl RelayChannel {
    /// The bytes read from the source so far.
    pub closed spec fn received(&self) -> Seq<u8> {
        self.received@
    }

    /// The bytes handed on to the sink so far.
    pub closed spec fn forwarded(&self) -> Seq<u8> {
        self.forwarded@
    }

    /// Why the relay stopped, or `None` while it runs.
    pub closed spec fn stop_reason(&self) -> Option<StopReason> {
        self.stopped
    }

    /// Every byte read has been handed on, in the order read.
    pub open spec fn wf(&self) -> bool {
        self.forwarded() == self.received()
    }

    /// A relay that has read nothing yet.
    pub fn new() -> (r: RelayChannel)
        ensures
            r.wf(),
            r.received() == Seq::<u8>::empty(),
            r.forwarded() == Seq::<u8>::empty(),
            r.stop_reason() == None::<StopReason>,
            r@ == fresh(),
    {
        RelayChannel {
            stopped: None,
            received: Ghost(Seq::empty()),
            forwarded: Ghost(Seq::empty()),
        }
    }

    /// Whether the relay still runs.
    pub fn is_running(&self) -> (r: bool)
        ensures
            r == (self.stop_reason() is None),
    {
        self.stopped.is_none()
    }

    /// Why the relay stopped, or `None` while it runs.
    pub fn stopped(&self) -> (r: Option<StopReason>)
        ensures
            r == self.stop_reason(),
    {
        self.stopped
    }

    /// Decides what follows a read. Bytes read are forwarded unchanged and
    /// whole; end of stream or a failed read stops the relay. Once stopped
    /// it stays stopped and forwards nothing.
    pub fn on_read(&mut self, outcome: ReadOutcome) -> (action: RelayAction)
        requires
            old(self).wf(),
        ensures
            final(self).wf(),
            (final(self)@, action) == read_step(old(self)@, outcome),
            old(self).stop_reason() is Some ==> {
                &&& action is Stop
                &&& *final(self) == *old(self)
            },
            old(self).stop_reason() is None ==> match outcome {
                ReadOutcome::Data(bytes) => {
                    &&& action == RelayAction::Forward(bytes)
                    &&& final(self).received() == old(self).received() + bytes@
                    &&& final(self).forwarded() == old(self).forwarded() + bytes@
                    &&& final(self).stop_reason() is None
                },
                ReadOutcome::EndOfStream => {
                    &&& action is Stop
                    &&& final(self).received() == old(self).received()
                    &&& final(self).forwarded() == old(self).forwarded()
                    &&& final(self).stop_reason() == Some(StopReason::EndOfStream)
                },
                ReadOutcome::Failed => {
                    &&& action is Stop
                    &&& final(self).received() == old(self).received()
                    &&& final(self).forwarded() == old(self).forwarded()
                    &&& final(self).stop_reason() == Some(StopReason::IoError)
                },
            },
    {
        if self.stopped.is_some() {
            return RelayAction::Stop;
        }
        match outcome {
            ReadOutcome::Data(bytes) => {
                proof {
                    self.received@ = self.received@ + bytes@;
                    self.forwarded@ = self.forwarded@ + bytes@;
                }
                RelayAction::Forward(bytes)
            },
            ReadOutcome::EndOfStream => {
                self.stopped = Some(StopReason::EndOfStream);
                RelayAction::Stop
            },
            ReadOutcome::Failed => {
                self.stopped = Some(StopReason::IoError);
                RelayAction::Stop
            },
        }
    }

    /// Records that writing or flushing a forwarded chunk failed: the relay
    /// stops.
    pub fn on_write_failed(&mut self)
        requires
            old(self).wf(),
        ensures
            final(self).wf(),
            final(self).received() == old(self).received(),
            final(self).forwarded() == old(self).forwarded(),
            final(self).stop_reason() == (match old(self).stop_reason() {
                Some(r) => Some(r),
                None => Some(StopReason::IoError),
            }),
    {
        if self.stopped.is_none() {
            self.stopped = Some(StopReason::IoError);
        }
    }
}

/// Interprets the count a read returned into `buf`: zero is end of stream,
/// anything else the first `n` bytes of the buffer.
pub fn read_outcome(buf: &[u8], n: usize) -> (r: ReadOutcome)
    requires
        n <= buf@.len(),
    ensures
        n == 0 ==> r is EndOfStream,
        n > 0 ==> r is Data && r->Data_0@ == buf@.subrange(0, n as int),
{
    if n == 0 {
        ReadOutcome::EndOfStream
    } else {
        let mut bytes: Vec<u8> = Vec::with_capacity(n);
        let mut i: usize = 0;
        while i < n
            invariant
                n <= buf@.len(),
                i <= n,
                bytes@ == buf@.subrange(0, i as int),
            decreases n - i,
        {
            bytes.push(buf[i]);
            i = i + 1;
        }
        proof {
            assert(bytes@ =~= buf@.subrange(0, n as int));
        }
        ReadOutcome::Data(bytes)
    }
}


proof fn feed_sends_stream(m: RelayModel, reads: Seq<ReadOutcome>)
    ensures
        m.stopped is None ==> sent(feed(m, reads).1) == stream_of(reads),
        m.stopped is Some ==> sent(feed(m, reads).1) == Seq::<u8>::empty(),
        feed(m, reads).0.forwarded == m.forwarded + sent(feed(m, reads).1),
        feed(m, reads).0.received == m.received + sent(feed(m, reads).1),
    decreases reads.len(),
{
    if reads.len() > 0 {
        let (m1, a) = read_step(m, reads[0]);
        feed_sends_stream(m1, reads.drop_first());
        let acts = seq![a] + feed(m1, reads.drop_first()).1;
        assert(acts.drop_first() =~= feed(m1, reads.drop_first()).1);
        if m.stopped is None {
            if let ReadOutcome::Data(bytes) = reads[0] {
                assert(m1.forwarded + sent(feed(m1, reads.drop_first()).1) =~= m.forwarded + (
                bytes@ + sent(feed(m1, reads.drop_first()).1)));
                assert(m1.received + sent(feed(m1, reads.drop_first()).1) =~= m.received + (
                bytes@ + sent(feed(m1, reads.drop_first()).1)));
            } else {
                assert(sent(acts) =~= Seq::<u8>::empty() + sent(feed(m1, reads.drop_first()).1));
            }
        } else {
            assert(sent(acts) =~= Seq::<u8>::empty() + sent(feed(m1, reads.drop_first()).1));
        }
    }
}

/// Whatever bytes a relay reads, in however many chunks, it hands on to be
/// written exactly the bytes of the chunks read before the source closed or
/// failed, unchanged and in order, and nothing after.
pub proof fn relay_forwards_stream(reads: Seq<ReadOutcome>)
    ensures
        sent(feed(fresh(), reads).1) == stream_of(reads),
        feed(fresh(), reads).0.forwarded == stream_of(reads),
        feed(fresh(), reads).0.received == stream_of(reads),
{
    feed_sends_stream(fresh(), reads);
}

} // verus!
