//! The capture engine: a state machine deciding, for each event the capture
//! thread observes, what the event loop does next, with the cooperative
//! cancellation protocol and its drain-to-zero shutdown.

use vstd::prelude::*;

verus! {

/// Number of bulk read requests kept outstanding while capturing.
pub const NUM_TRANSFERS: usize = 4;

/// Number of bytes requested by each bulk read.
pub const READ_LEN: usize = 0x4000;

/// A failure reported by the transport for one transfer.
#[derive(Copy, Clone, Debug, PartialEq, Eq, Structural)]
pub enum UsbFault {
    /// The transfer was cancelled.
    Cancelled,
    /// The endpoint stalled.
    Stall,
    /// The device disconnected.
    Disconnected,
    /// The transport reported a fault.
    Fault,
    /// An unknown transport failure.
    Unknown,
}

/// Why the capture event loop ended with an error.
#[derive(Copy, Clone, Debug, PartialEq, Eq, Structural)]
pub enum LoopError {
    /// A transfer failed for a reason other than expected cancellation.
    Transport(UsbFault),
    /// Captured data could not be handed to the consumer.
    Forwarding,
}

/// An event observed by the capture thread's event loop.
#[derive(Copy, Clone, Debug, PartialEq, Eq, Structural)]
pub enum EngineEvent {
    /// The cancellation signal was received.
    StopRequested,
    /// An outstanding transfer completed successfully with data.
    TransferComplete,
    /// An outstanding transfer completed with a failure.
    TransferFailed(UsbFault),
    /// Captured data could not be sent on the output channel.
    ForwardFailed,
}

/// What the event loop does in response to one event.
#[derive(Copy, Clone, Debug, PartialEq, Eq, Structural)]
pub enum EngineAction {
    /// Cancel every outstanding transfer; no transfer is resubmitted after
    /// this.
    CancelAll,
    /// Forward the completed transfer's data to the output channel and
    /// resubmit one transfer of the fixed size to keep the pool full.
    Forward,
    /// Drop the completed transfer's data and keep looping.
    Discard,
    /// The loop ends successfully: the pool is fully drained.
    FinishOk,
    /// The loop ends with the given error.
    FinishErr(LoopError),
}

/// The capture engine's state: whether cancellation was observed, and how
/// many transfers are outstanding in the pool.
#[derive(Copy, Clone, Debug, PartialEq, Eq, Structural)]
pub struct Engine {
    /// Set once the cancellation signal has been observed; never cleared.
    pub stopped: bool,
    /// Number of transfers outstanding in the pool.
    pub pending: usize,
}

/// The engine state after handling one event.
pub open spec fn step_state(s: Engine, e: EngineEvent) -> Engine {
    match e {
        EngineEvent::StopRequested => Engine { stopped: true, pending: s.pending },
        EngineEvent::TransferComplete => if s.stopped {
            Engine { stopped: true, pending: (s.pending - 1) as usize }
        } else {
            s
        },
        EngineEvent::TransferFailed(fault) => if fault == UsbFault::Cancelled && s.stopped {
            Engine { stopped: true, pending: (s.pending - 1) as usize }
        } else {
            s
        },
        EngineEvent::ForwardFailed => s,
    }
}

/// The action the event loop takes on one event.
pub open spec fn step_action(s: Engine, e: EngineEvent) -> EngineAction {
    match e {
        EngineEvent::StopRequested => EngineAction::CancelAll,
        EngineEvent::TransferComplete => if s.stopped {
            EngineAction::Discard
        } else {
            EngineAction::Forward
        },
        EngineEvent::TransferFailed(fault) => if fault == UsbFault::Cancelled && s.stopped {
            if s.pending == 1 {
                EngineAction::FinishOk
            } else {
                EngineAction::Discard
            }
        } else {
            EngineAction::FinishErr(LoopError::Transport(fault))
        },
        EngineEvent::ForwardFailed => EngineAction::FinishErr(LoopError::Forwarding),
    }
}

impl Engine {
    /// A completion event can only be observed while a transfer is
    /// outstanding.
    pub open spec fn admits(self, e: EngineEvent) -> bool {
        match e {
            EngineEvent::TransferComplete | EngineEvent::TransferFailed(_) => self.pending >= 1,
            _ => true,
        }
    }

    /// A fresh engine for a pool of `pool_size` submitted transfers, with
    /// cancellation not yet observed.
    pub fn new(pool_size: usize) -> (r: Engine)
        ensures
            r == (Engine { stopped: false, pending: pool_size }),
    {
        Engine { stopped: false, pending: pool_size }
    }

    /// Decide what the event loop does on one event.
    ///
    /// While cancellation has not been observed, completed data is forwarded
    /// and a fresh transfer resubmitted; once it has been observed, data is
    /// discarded and the pool drains without resubmission, ending cleanly
    /// when the last expected cancellation is handled. A transfer failure
    /// other than an expected cancellation ends the loop with that failure,
    /// whether or not cancellation was requested.
    pub fn handle_event(&mut self, e: EngineEvent) -> (r: EngineAction)
        requires
            old(self).admits(e),
        ensures
            *final(self) == step_state(*old(self), e),
            r == step_action(*old(self), e),
            old(self).stopped ==> final(self).stopped,
            old(self).stopped ==> r != EngineAction::Forward,
    {
        match e {
            EngineEvent::StopRequested => {
                self.stopped = true;
                EngineAction::CancelAll
            }
            EngineEvent::TransferComplete => {
                if self.stopped {
                    self.pending = self.pending - 1;
                    EngineAction::Discard
                } else {
                    EngineAction::Forward
                }
            }
            EngineEvent::TransferFailed(fault) => {
                if matches!(fault, UsbFault::Cancelled) && self.stopped {
                    self.pending = self.pending - 1;
                    if self.pending == 0 {
                        EngineAction::FinishOk
                    } else {
                        EngineAction::Discard
                    }
                } else {
                    EngineAction::FinishErr(LoopError::Transport(fault))
                }
            }
            EngineEvent::ForwardFailed => EngineAction::FinishErr(LoopError::Forwarding),
        }
    }
}

/// The engine state after handling a sequence of events in order.
pub open spec fn run_state(s: Engine, events: Seq<EngineEvent>) -> Engine
    decreases events.len(),
{
    if events.len() == 0 {
        s
    } else {
        run_state(step_state(s, events[0]), events.skip(1))
    }
}

/// The actions taken on a sequence of events, in order.
pub open spec fn run_actions(s: Engine, events: Seq<EngineEvent>) -> Seq<EngineAction>
    decreases events.len(),
{
    if events.len() == 0 {
        Seq::empty()
    } else {
        seq![step_action(s, events[0])] + run_actions(step_state(s, events[0]), events.skip(1))
    }
}

/// Each run yields one action per event.
pub proof fn lemma_run_actions_len(s: Engine, events: Seq<EngineEvent>)
    ensures
        run_actions(s, events).len() == events.len(),
    decreases events.len(),
{
    if events.len() > 0 {
        lemma_run_actions_len(step_state(s, events[0]), events.skip(1));
    }
}

/// Once cancellation has been observed it stays observed: no later event
/// clears the stopped flag.
pub proof fn lemma_stopped_is_stable(s: Engine, events: Seq<EngineEvent>)
    requires
        s.stopped,
    ensures
        run_state(s, events).stopped,
    decreases events.len(),
{
    if events.len() > 0 {
        lemma_stopped_is_stable(step_state(s, events[0]), events.skip(1));
    }
}

/// After cancellation is observed, no event whatsoever makes the loop
/// forward data or resubmit a transfer: every later action differs from
/// Forward, the only action that forwards or resubmits.
pub proof fn lemma_no_forward_after_stop(s: Engine, events: Seq<EngineEvent>)
    requires
        s.stopped,
    ensures
        forall|i: int|
            0 <= i < events.len() ==> #[trigger] run_actions(s, events)[i]
                != EngineAction::Forward,
    decreases events.len(),
{
    lemma_run_actions_len(s, events);
    if events.len() > 0 {
        let s1 = step_state(s, events[0]);
        lemma_no_forward_after_stop(s1, events.skip(1));
        lemma_run_actions_len(s1, events.skip(1));
        assert forall|i: int|
            0 <= i < events.len() implies #[trigger] run_actions(s, events)[i]
            != EngineAction::Forward by {
            if i > 0 {
                assert(run_actions(s, events)[i] == run_actions(s1, events.skip(1))[i - 1]);
            }
        }
    }
}

/// While cancellation has not been requested, successful completions keep
/// the pool at a steady size: each one is forwarded and a fresh transfer
/// resubmitted, and the engine's state never changes.
pub proof fn lemma_steady_state_while_running(s: Engine, events: Seq<EngineEvent>)
    requires
        !s.stopped,
        forall|i: int| 0 <= i < events.len() ==> events[i] == EngineEvent::TransferComplete,
    ensures
        run_state(s, events) == s,
        forall|i: int|
            0 <= i < events.len() ==> #[trigger] run_actions(s, events)[i]
                == EngineAction::Forward,
    decreases events.len(),
{
    lemma_run_actions_len(s, events);
    if events.len() > 0 {
        let s1 = step_state(s, events[0]);
        assert(s1 == s);
        assert forall|i: int| 0 <= i < events.skip(1).len() implies events.skip(1)[i]
            == EngineEvent::TransferComplete by {
            assert(events.skip(1)[i] == events[i + 1]);
        }
        lemma_steady_state_while_running(s1, events.skip(1));
        lemma_run_actions_len(s1, events.skip(1));
        assert forall|i: int|
            0 <= i < events.len() implies #[trigger] run_actions(s, events)[i]
            == EngineAction::Forward by {
            if i > 0 {
                assert(run_actions(s, events)[i] == run_actions(s1, events.skip(1))[i - 1]);
            }
        }
    }
}

/// A completion event: a transfer leaving the pool after cancellation, with
/// either a success status (data discarded) or the expected cancelled
/// failure.
pub open spec fn is_drain_event(e: EngineEvent) -> bool {
    e == EngineEvent::TransferComplete || e == EngineEvent::TransferFailed(UsbFault::Cancelled)
}

/// Cancellation drains the pool: from a cancelled state with `n` transfers
/// outstanding, any `n` completions — successes racing the cancellation or
/// the expected cancelled failures — leave the pool empty, forward nothing,
/// and if the last completion is a cancelled failure the loop ends with
/// success.
pub proof fn lemma_cancellation_drains_pool(s: Engine, events: Seq<EngineEvent>)
    requires
        s.stopped,
        events.len() == s.pending,
        forall|i: int| 0 <= i < events.len() ==> is_drain_event(#[trigger] events[i]),
    ensures
        run_state(s, events).pending == 0,
        forall|i: int|
            0 <= i < events.len() ==> #[trigger] run_actions(s, events)[i]
                != EngineAction::Forward,
        events.len() > 0 && events.last() == EngineEvent::TransferFailed(UsbFault::Cancelled)
            ==> run_actions(s, events).last() == EngineAction::FinishOk,
    decreases events.len(),
{
    lemma_no_forward_after_stop(s, events);
    lemma_run_actions_len(s, events);
    if events.len() > 0 {
        let s1 = step_state(s, events[0]);
        assert(s1.pending == s.pending - 1);
        lemma_cancellation_drains_pool(s1, events.skip(1));
        lemma_run_actions_len(s1, events.skip(1));
        if events.len() > 1 {
            assert(events.skip(1).last() == events.last());
            assert(run_actions(s, events).last() == run_actions(s1, events.skip(1)).last());
        }
    }
}

} // verus!
