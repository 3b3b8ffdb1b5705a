//! The relay engine's decision core: a state machine that tells the copy
//! loop of one direction what to do next (read, write, flush, stop), tracks
//! the bytes transferred, and carries the throttled prefix.
//!
//! The caller performs the socket operation the pending action names and
//! hands the result back as an event; the machine never touches a socket.

use vstd::prelude::*;

verus! {

/// The fixed relay buffer size: an unthrottled read asks for at most this
/// many bytes.
pub const RELAY_BUFFER_SIZE: usize = 8192;

/// The result of a relay direction that failed: the bytes transferred before
/// the failing operation, and a description of the failure.
#[derive(Debug)]
pub struct TransferError {
    pub count: usize,
    pub message: String,
}

impl TransferError {
    /// Record a failure after `count` transferred bytes.
    pub fn new(count: usize, message: String) -> (r: TransferError)
        ensures
            r.count == count,
            r.message == message,
    {
        TransferError { count, message }
    }

    /// The bytes transferred before the failure.
    pub fn count(&self) -> (r: usize)
        ensures
            r == self.count,
    {
        self.count
    }

    /// The failure description.
    pub fn message(&self) -> (r: &str)
        ensures
            r@ == self.message@,
    {
        self.message.as_str()
    }
}

/// What the copy loop should do next.
#[derive(Clone, Copy, Debug, PartialEq, Eq, Structural)]
pub enum RelayAction {
    /// Read up to `max_len` bytes from the source.
    Read { max_len: usize },
    /// Write the `len` bytes just read to the destination, in full and in
    /// order.
    Write { len: usize },
    /// Flush the destination before the next read.
    Flush,
    /// The direction is finished; the outcome is available.
    Stop,
}

/// What happened when the copy loop performed the pending action.
#[derive(Debug)]
pub enum RelayEvent {
    /// A read returned `len` bytes; zero means end-of-stream.
    DataRead { len: usize },
    /// The pending write of `len` bytes completed in full.
    Wrote { len: usize },
    /// The pending flush completed.
    Flushed,
    /// The pending operation failed with this description.
    Failed { message: String },
}

/// Where the machine stands between two events.
#[derive(Debug)]
pub enum RelayPhase {
    /// Waiting for the result of a read.
    Reading,
    /// Waiting for `len` freshly read bytes to be written.
    Writing { len: usize },
    /// Waiting for the flush that follows a write.
    Flushing,
    /// End-of-stream was reached; the direction succeeded.
    DoneOk,
    /// An operation failed; the direction is over.
    DoneFailed { message: String },
}

/// The decision core of one relay direction.
#[derive(Debug)]
pub struct RelayMachine {
    /// Bytes transferred so far: counted once the write of a chunk has
    /// completed.
    pub count: usize,
    /// How many more bytes are read one at a time before full-buffer reads
    /// resume.
    pub throttle_left: usize,
    /// Where the machine stands.
    pub phase: RelayPhase,
}

impl RelayMachine {
    /// The machine a direction starts with: nothing transferred, the first
    /// `n_throttle` bytes still to be relayed one at a time.
    pub open spec fn spec_new(n_throttle: usize) -> RelayMachine {
        RelayMachine { count: 0, throttle_left: n_throttle, phase: RelayPhase::Reading }
    }

    /// How many bytes the next read may ask for: one while the throttled
    /// prefix lasts, the full buffer afterwards.
    pub open spec fn spec_read_max(self) -> int {
        if self.throttle_left > 0 {
            1
        } else {
            RELAY_BUFFER_SIZE as int
        }
    }

    /// The action pending in each phase.
    pub open spec fn spec_action(self) -> RelayAction {
        match self.phase {
            RelayPhase::Reading => RelayAction::Read { max_len: self.spec_read_max() as usize },
            RelayPhase::Writing { len } => RelayAction::Write { len },
            RelayPhase::Flushing => RelayAction::Flush,
            RelayPhase::DoneOk => RelayAction::Stop,
            RelayPhase::DoneFailed { .. } => RelayAction::Stop,
        }
    }

    /// Whether `event` is an answer the pending action can get: reads answer
    /// reads and stay within the asked length, writes acknowledge exactly the
    /// pending chunk without overflowing the count, flushes answer flushes,
    /// and any pending operation may fail.
    pub open spec fn spec_accepts(self, event: RelayEvent) -> bool {
        match self.phase {
            RelayPhase::Reading => match event {
                RelayEvent::DataRead { len } => len <= self.spec_read_max(),
                RelayEvent::Failed { .. } => true,
                _ => false,
            },
            RelayPhase::Writing { len } => match event {
                RelayEvent::Wrote { len: acknowledged } => acknowledged == len && self.count
                    + len <= usize::MAX,
                RelayEvent::Failed { .. } => true,
                _ => false,
            },
            RelayPhase::Flushing => match event {
                RelayEvent::Flushed => true,
                RelayEvent::Failed { .. } => true,
                _ => false,
            },
            RelayPhase::DoneOk => false,
            RelayPhase::DoneFailed { .. } => false,
        }
    }

    /// The machine after one event: end-of-stream finishes the direction, a
    /// read chunk becomes the pending write, an acknowledged write is counted
    /// and consumes its share of the throttled prefix, a flush leads back to
    /// reading, and a failure ends the direction with the count untouched.
    pub open spec fn spec_step(self, event: RelayEvent) -> RelayMachine {
        match event {
            RelayEvent::DataRead { len } => {
                if len == 0 {
                    RelayMachine { phase: RelayPhase::DoneOk, ..self }
                } else {
                    RelayMachine { phase: RelayPhase::Writing { len }, ..self }
                }
            },
            RelayEvent::Wrote { len } => RelayMachine {
                count: (self.count + len) as usize,
                throttle_left: if len >= self.throttle_left {
                    0
                } else {
                    (self.throttle_left - len) as usize
                },
                phase: RelayPhase::Flushing,
            },
            RelayEvent::Flushed => RelayMachine { phase: RelayPhase::Reading, ..self },
            RelayEvent::Failed { message } => RelayMachine {
                phase: RelayPhase::DoneFailed { message },
                ..self
            },
        }
    }

    /// Whether the direction is over.
    pub open spec fn spec_done(self) -> bool {
        self.phase is DoneOk || self.phase is DoneFailed
    }

    /// Start one relay direction with a throttled prefix of `n_throttle`
    /// bytes; zero disables throttling.
    pub fn new(n_throttle: usize) -> (r: RelayMachine)
        ensures
            r == RelayMachine::spec_new(n_throttle),
    {
        RelayMachine { count: 0, throttle_left: n_throttle, phase: RelayPhase::Reading }
    }

    /// The action the copy loop should perform next.
    pub fn action(&self) -> (a: RelayAction)
        ensures
            a == self.spec_action(),
    {
        match &self.phase {
            RelayPhase::Reading => {
                if self.throttle_left > 0 {
                    RelayAction::Read { max_len: 1 }
                } else {
                    RelayAction::Read { max_len: RELAY_BUFFER_SIZE }
                }
            },
            RelayPhase::Writing { len } => RelayAction::Write { len: *len },
            RelayPhase::Flushing => RelayAction::Flush,
            RelayPhase::DoneOk => RelayAction::Stop,
            RelayPhase::DoneFailed { .. } => RelayAction::Stop,
        }
    }

    /// Feed back what the pending action did.
    pub fn step(&mut self, event: RelayEvent)
        requires
            old(self).spec_accepts(event),
        ensures
            *final(self) == old(self).spec_step(event),
    {
        match event {
            RelayEvent::DataRead { len } => {
                if len == 0 {
                    self.phase = RelayPhase::DoneOk;
                } else {
                    self.phase = RelayPhase::Writing { len };
                }
            },
            RelayEvent::Wrote { len } => {
                self.count = self.count + len;
                if len >= self.throttle_left {
                    self.throttle_left = 0;
                } else {
                    self.throttle_left = self.throttle_left - len;
                }
                self.phase = RelayPhase::Flushing;
            },
            RelayEvent::Flushed => {
                self.phase = RelayPhase::Reading;
            },
            RelayEvent::Failed { message } => {
                self.phase = RelayPhase::DoneFailed { message };
            },
        }
    }

    /// The bytes transferred so far.
    pub fn count(&self) -> (r: usize)
        ensures
            r == self.count,
    {
        self.count
    }

    /// The outcome of a finished direction: the byte count on success, the
    /// byte count and failure description otherwise.
    pub fn outcome(self) -> (r: Result<usize, TransferError>)
        requires
            self.spec_done(),
        ensures
            self.phase is DoneOk ==> r == Ok::<usize, TransferError>(self.count),
            (self.phase matches RelayPhase::DoneFailed { message } ==> r matches Err(e)
                && e.count == self.count && e.message == message),
    {
        match self.phase {
            RelayPhase::DoneOk => Ok(self.count),
            RelayPhase::DoneFailed { message } => Err(TransferError::new(self.count, message)),
            _ => Err(TransferError::new(self.count, String::new())),
        }
    }
}

/// The machine a trace of events drives a direction to, from `start`.
pub open spec fn spec_run(start: RelayMachine, events: Seq<RelayEvent>) -> RelayMachine
    decreases events.len(),
{
    if events.len() == 0 {
        start
    } else {
        spec_run(start.spec_step(events[0]), events.drop_first())
    }
}

/// Whether each event of the trace answers the action pending before it.
pub open spec fn spec_valid_trace(start: RelayMachine, events: Seq<RelayEvent>) -> bool
    decreases events.len(),
{
    events.len() == 0 || (start.spec_accepts(events[0]) && spec_valid_trace(
        start.spec_step(events[0]),
        events.drop_first(),
    ))
}

/// The bytes a trace acknowledges as written to the destination.
pub open spec fn spec_bytes_written(events: Seq<RelayEvent>) -> int
    decreases events.len(),
{
    if events.len() == 0 {
        0
    } else {
        (match events[0] {
            RelayEvent::Wrote { len } => len as int,
            _ => 0,
        }) + spec_bytes_written(events.drop_first())
    }
}

/// Law: from any starting machine, a valid trace raises the count by exactly
/// the bytes it acknowledges as written.
pub proof fn lemma_run_count(start: RelayMachine, events: Seq<RelayEvent>)
    requires
        spec_valid_trace(start, events),
    ensures
        spec_run(start, events).count == start.count + spec_bytes_written(events),
    decreases events.len(),
{
    if events.len() > 0 {
        lemma_run_count(start.spec_step(events[0]), events.drop_first());
    }
}

/// Law: the count a direction reports equals the sum of the bytes whose
/// writes completed — a write that fails, or never happens, contributes
/// nothing, so a failed direction reports exactly the bytes written strictly
/// before the failing operation.
pub proof fn lemma_relay_count_is_bytes_written(n_throttle: usize, events: Seq<RelayEvent>)
    requires
        spec_valid_trace(RelayMachine::spec_new(n_throttle), events),
    ensures
        spec_run(RelayMachine::spec_new(n_throttle), events).count == spec_bytes_written(events),
{
    lemma_run_count(RelayMachine::spec_new(n_throttle), events);
}

/// A trace never acknowledges a negative number of bytes.
proof fn lemma_bytes_written_nonneg(events: Seq<RelayEvent>)
    ensures
        spec_bytes_written(events) >= 0,
    decreases events.len(),
{
    if events.len() > 0 {
        lemma_bytes_written_nonneg(events.drop_first());
    }
}

/// Law: from any starting machine, a valid trace keeps the single-byte
/// budget equal to what the starting budget leaves after the bytes
/// transferred since.
pub proof fn lemma_run_throttle(start: RelayMachine, events: Seq<RelayEvent>)
    requires
        spec_valid_trace(start, events),
    ensures
        ({
            let m = spec_run(start, events);
            m.throttle_left as int == if m.count - start.count >= start.throttle_left {
                0int
            } else {
                start.throttle_left - (m.count - start.count)
            }
        }),
    decreases events.len(),
{
    if events.len() > 0 {
        let stepped = start.spec_step(events[0]);
        lemma_run_throttle(stepped, events.drop_first());
        // the count only grows along the rest of the trace
        lemma_run_count(stepped, events.drop_first());
        lemma_bytes_written_nonneg(events.drop_first());
    }
}

/// Law: the throttled prefix is exact — at every point of a valid trace of a
/// direction started with `n_throttle`, a pending read asks for one byte
/// while fewer than `n_throttle` bytes have been transferred, and for the
/// full buffer from then on.
pub proof fn lemma_throttle_prefix(n_throttle: usize, events: Seq<RelayEvent>)
    requires
        spec_valid_trace(RelayMachine::spec_new(n_throttle), events),
    ensures
        ({
            let m = spec_run(RelayMachine::spec_new(n_throttle), events);
            m.spec_read_max() == if m.count < n_throttle {
                1int
            } else {
                RELAY_BUFFER_SIZE as int
            }
        }),
{
    lemma_run_throttle(RelayMachine::spec_new(n_throttle), events);
}

} // verus!
