//! The event model and the decision core of the event producer.
//!
//! The producer is a background worker that merges a periodic timer, an
//! input-polling source and a control channel into one event stream. Its
//! timing decisions — how control messages change its local state, how
//! long to block on input-polling, and when a tick is due — are pure
//! functions of that local state and are verified here; the thread, the
//! channels and the polling itself live outside the library.

use vstd::prelude::*;

verus! {

/// High-level application events.
#[derive(Clone, Copy, Debug, PartialEq, Eq, Structural)]
pub enum AppEvent {
    /// Reset and randomize the simulation.
    Randomize,
    /// Clear the simulation.
    Clear,
    /// Quit the application.
    Quit,
}

/// Control messages for the event-producing worker.
#[derive(Clone, Copy, Debug, PartialEq, Eq, Structural)]
pub enum ControlMessage {
    /// Update the tick interval, in milliseconds.
    SetTickInterval(u64),
    /// Pause tick events.
    Pause,
    /// Resume tick events.
    Resume,
}

/// Poll interval used while paused, in milliseconds: long enough to avoid
/// busy-waiting, short enough to stay responsive to control and input.
pub const PAUSED_POLL_MS: u64 = 100;

/// The event producer's local timing state: the tick interval and the
/// pause flag, mutated only by control messages received on its channel.
#[derive(Clone, Copy, Debug, PartialEq, Eq, Structural)]
pub struct TickScheduler {
    /// Interval between generated tick events, in milliseconds.
    pub tick_interval: u64,
    /// Whether tick generation is paused.
    pub paused: bool,
}

impl TickScheduler {
    /// The state after applying one control message.
    pub open spec fn apply(self, msg: ControlMessage) -> TickScheduler {
        match msg {
            ControlMessage::SetTickInterval(interval) => TickScheduler {
                tick_interval: interval,
                ..self
            },
            ControlMessage::Pause => TickScheduler { paused: true, ..self },
            ControlMessage::Resume => TickScheduler { paused: false, ..self },
        }
    }

    /// The state after applying a sequence of control messages in order.
    pub open spec fn apply_all(self, msgs: Seq<ControlMessage>) -> TickScheduler
        decreases msgs.len(),
    {
        if msgs.len() == 0 {
            self
        } else {
            self.apply(msgs.first()).apply_all(msgs.drop_first())
        }
    }

    /// How long the producer may block on input-polling: a fixed poll
    /// interval while paused, otherwise the time remaining until the next
    /// tick is due.
    pub open spec fn spec_poll_timeout(self, elapsed: u64) -> u64 {
        if self.paused {
            PAUSED_POLL_MS
        } else if elapsed < self.tick_interval {
            (self.tick_interval - elapsed) as u64
        } else {
            0
        }
    }

    /// Whether a tick is due: never while paused, otherwise exactly when
    /// a full interval has elapsed since the last tick.
    pub open spec fn spec_tick_due(self, elapsed: u64) -> bool {
        !self.paused && elapsed >= self.tick_interval
    }

    /// Creates the producer state with the given interval and pause flag.
    pub fn new(tick_interval: u64, paused: bool) -> (r: TickScheduler)
        ensures
            r.tick_interval == tick_interval,
            r.paused == paused,
    {
        TickScheduler { tick_interval, paused }
    }

    /// Applies one control message to the local state.
    pub fn handle_control_message(&mut self, msg: ControlMessage)
        ensures
            *final(self) == old(self).apply(msg),
    {
        match msg {
            ControlMessage::SetTickInterval(interval) => {
                self.tick_interval = interval;
            },
            ControlMessage::Pause => {
                self.paused = true;
            },
            ControlMessage::Resume => {
                self.paused = false;
            },
        }
    }

    /// How long to block on input-polling, given the milliseconds elapsed
    /// since the last tick.
    pub fn poll_timeout(&self, elapsed: u64) -> (r: u64)
        ensures
            r == self.spec_poll_timeout(elapsed),
    {
        if self.paused {
            PAUSED_POLL_MS
        } else if elapsed < self.tick_interval {
            self.tick_interval - elapsed
        } else {
            0
        }
    }

    /// Whether a tick event is due, given the milliseconds elapsed since
    /// the last tick.
    pub fn tick_due(&self, elapsed: u64) -> (r: bool)
        ensures
            r == self.spec_tick_due(elapsed),
    {
        !self.paused && elapsed >= self.tick_interval
    }
}

/// Pause suppresses tick emission: after a Pause message, no sequence of
/// further control messages that contains no Resume can make a tick due,
/// no matter how much time elapses.
pub proof fn lemma_pause_suppresses_ticks(
    s: TickScheduler,
    msgs: Seq<ControlMessage>,
    elapsed: u64,
)
    requires
        forall|k: int| 0 <= k < msgs.len() ==> !(#[trigger] msgs[k] is Resume),
    ensures
        s.apply(ControlMessage::Pause).apply_all(msgs).paused,
        !s.apply(ControlMessage::Pause).apply_all(msgs).spec_tick_due(elapsed),
{
    lemma_paused_stays_paused(s.apply(ControlMessage::Pause), msgs);
}

/// A paused producer stays paused under any sequence of control messages
/// that contains no Resume.
proof fn lemma_paused_stays_paused(s: TickScheduler, msgs: Seq<ControlMessage>)
    requires
        s.paused,
        forall|k: int| 0 <= k < msgs.len() ==> !(#[trigger] msgs[k] is Resume),
    ensures
        s.apply_all(msgs).paused,
    decreases msgs.len(),
{
    if msgs.len() > 0 {
        assert(!(msgs[0] is Resume));
        lemma_paused_stays_paused(s.apply(msgs.first()), msgs.drop_first());
    }
}

} // verus!
