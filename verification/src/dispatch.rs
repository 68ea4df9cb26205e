use vstd::prelude::*;
use crate::notify::{DispatchMode, Event, OutgoingNotification};
use crate::notify;

verus! {

/// The two states of the dispatch loop. There are no others, and the loop
/// never leaves `Terminated`.
#[derive(Clone, Copy, Debug, PartialEq, Eq, Structural)]
pub enum LoopState {
    Running,
    Terminated,
}

/// One result of polling the schedule source: a fresh event, nothing to do,
/// or a transient source failure.
#[derive(Debug)]
pub enum PollOutcome {
    Event(Event),
    NoOp,
    TransientError,
}

/// One of the two things the loop multiplexes over: the external
/// cancellation signal, or a poll result — whichever becomes ready first.
#[derive(Debug)]
pub enum LoopEvent {
    Cancelled,
    Poll(PollOutcome),
}

/// What the loop's surroundings must do after one step.
#[derive(Debug)]
pub enum DispatchAction {
    /// Stop looping; issue no further polls or deliveries.
    Shutdown,
    /// Hand the payload to the delivery manager and await its full retry
    /// cycle before the next poll.
    Deliver(OutgoingNotification),
    /// Dry run: log the payload that would have been sent; invoke no send
    /// operation and record no metric.
    LogOnly(OutgoingNotification),
    /// Payload validation failed: log an error and drop the event.
    DropEvent,
    /// Transient poll failure: log a warning and keep polling.
    WarnPollError,
    /// Nothing to do this iteration.
    Idle,
}

/// Fixed per-process configuration the loop dispatches under.
#[derive(Debug)]
pub struct DispatchConfig {
    pub mode: DispatchMode,
    pub dry_run: bool,
}

/// The dispatch loop's state machine.
#[derive(Clone, Copy, Debug)]
pub struct DispatchLoop {
    pub state: LoopState,
}

/// The loop's transition relation: from state `pre`, on `ev`, under `cfg`,
/// the loop moves to `post` and demands `act`.
pub open spec fn step_spec(
    pre: LoopState,
    ev: LoopEvent,
    cfg: DispatchConfig,
    post: LoopState,
    act: DispatchAction,
) -> bool {
    match pre {
        LoopState::Terminated => post == LoopState::Terminated && act == DispatchAction::Shutdown,
        LoopState::Running => match ev {
            LoopEvent::Cancelled => {
                &&& post == LoopState::Terminated
                &&& act == DispatchAction::Shutdown
            },
            LoopEvent::Poll(p) => {
                &&& post == LoopState::Running
                &&& match p {
                    PollOutcome::Event(e) => {
                        if notify::text_fits(e.venue@, e.title@) {
                            if cfg.dry_run {
                                &&& act matches DispatchAction::LogOnly(n)
                                &&& notify::translation_matches(e, cfg.mode, n)
                            } else {
                                &&& act matches DispatchAction::Deliver(n)
                                &&& notify::translation_matches(e, cfg.mode, n)
                            }
                        } else {
                            act == DispatchAction::DropEvent
                        }
                    },
                    PollOutcome::NoOp => act == DispatchAction::Idle,
                    PollOutcome::TransientError => act == DispatchAction::WarnPollError,
                }
            },
        },
    }
}

impl DispatchLoop {
    /// A fresh loop starts in `Running`.
    pub fn new() -> (r: DispatchLoop)
        ensures
            r.state == LoopState::Running,
    {
        DispatchLoop { state: LoopState::Running }
    }

    /// Whether the loop should keep iterating.
    pub fn is_running(&self) -> (r: bool)
        ensures
            r == (self.state == LoopState::Running),
    {
        match self.state {
            LoopState::Running => true,
            LoopState::Terminated => false,
        }
    }

    /// Take one step: consume whichever of the two multiplexed events became
    /// ready and say what to do about it.
    pub fn step(&mut self, ev: LoopEvent, cfg: &DispatchConfig) -> (act: DispatchAction)
        ensures
            step_spec(old(self).state, ev, *cfg, final(self).state, act),
    {
        match self.state {
            LoopState::Terminated => DispatchAction::Shutdown,
            LoopState::Running => match ev {
                LoopEvent::Cancelled => {
                    self.state = LoopState::Terminated;
                    DispatchAction::Shutdown
                },
                LoopEvent::Poll(p) => match p {
                    PollOutcome::Event(e) => match notify::translate(&e, &cfg.mode) {
                        Some(n) => {
                            if cfg.dry_run {
                                DispatchAction::LogOnly(n)
                            } else {
                                DispatchAction::Deliver(n)
                            }
                        },
                        None => DispatchAction::DropEvent,
                    },
                    PollOutcome::NoOp => DispatchAction::Idle,
                    PollOutcome::TransientError => DispatchAction::WarnPollError,
                },
            },
        }
    }
}

/// Cancellation observed while the loop is running terminates it at once:
/// the step yields `Shutdown`, so no further poll result is consumed and no
/// delivery is started.
pub proof fn lemma_cancellation_terminates(
    cfg: DispatchConfig,
    post: LoopState,
    act: DispatchAction,
)
    requires
        step_spec(LoopState::Running, LoopEvent::Cancelled, cfg, post, act),
    ensures
        post == LoopState::Terminated,
        act == DispatchAction::Shutdown,
{
}

/// `Terminated` is absorbing: whatever event arrives, a terminated loop
/// stays terminated and only ever demands `Shutdown`.
pub proof fn lemma_terminated_is_absorbing(
    ev: LoopEvent,
    cfg: DispatchConfig,
    post: LoopState,
    act: DispatchAction,
)
    requires
        step_spec(LoopState::Terminated, ev, cfg, post, act),
    ensures
        post == LoopState::Terminated,
        act == DispatchAction::Shutdown,
{
}

/// Under dry run no step ever demands a delivery: whatever the state and
/// whatever arrives, the prescribed action is not `Deliver`.
pub proof fn lemma_dry_run_never_delivers(
    pre: LoopState,
    ev: LoopEvent,
    cfg: DispatchConfig,
    post: LoopState,
    act: DispatchAction,
)
    requires
        cfg.dry_run,
        step_spec(pre, ev, cfg, post, act),
    ensures
        act !is Deliver,
{
}

} // verus!
