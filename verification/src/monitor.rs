//! The lifecycle monitor: a two-state machine that races "cancellation
//! requested" against "process exited". Whichever event arrives first wins;
//! the monitor then stays terminated and ignores everything further. The
//! host runtime performs the returned action: it terminates the child, or
//! emits the terminal error on the output channel.

use vstd::prelude::*;

use crate::events::ExitInfo;

verus! {

/// The monitor's state: `Running` until the race between cancellation and
/// process exit is decided, `Terminated` ever after.
#[derive(Clone, Copy, PartialEq, Eq, Structural, Debug)]
pub enum MonitorState {
    Running,
    Terminated,
}

/// What the monitor observed: whichever of the two racing waits resolved.
pub enum MonitorEvent {
    /// The host's cancellation signal fired.
    CancellationFired,
    /// The wait on the process resolved: the exit outcome, or the wait
    /// operation's own error rendered as text.
    ProcessExited(Result<ExitInfo, String>),
}

/// What the host runtime must do after one step of the monitor.
pub enum MonitorAction {
    /// Request termination of the child, best effort; nothing is emitted on
    /// the output channel — cancellation is never represented as an error.
    TerminateProcess,
    /// Emit the terminal `BinaryExited` error carrying this outcome.
    EmitExited(Result<ExitInfo, String>),
    /// Do nothing: the race was already decided.
    Ignore,
}

/// One transition of the monitor as a function of state and event.
pub open spec fn monitor_step_spec(s: MonitorState, e: MonitorEvent) -> (MonitorState,
    MonitorAction) {
    match s {
        MonitorState::Terminated => (MonitorState::Terminated, MonitorAction::Ignore),
        MonitorState::Running => match e {
            MonitorEvent::CancellationFired => (
                MonitorState::Terminated,
                MonitorAction::TerminateProcess,
            ),
            MonitorEvent::ProcessExited(r) => (
                MonitorState::Terminated,
                MonitorAction::EmitExited(r),
            ),
        },
    }
}

/// Advances the monitor. The first event to reach a running monitor wins
/// the race: cancellation asks for termination and emits nothing; an
/// observed exit emits the terminal error. A terminated monitor ignores
/// every event, so a second termination request is a no-op.
pub fn monitor_step(s: MonitorState, e: MonitorEvent) -> (r: (MonitorState, MonitorAction))
    ensures
        r == monitor_step_spec(s, e),
{
    match s {
        MonitorState::Terminated => (MonitorState::Terminated, MonitorAction::Ignore),
        MonitorState::Running => match e {
            MonitorEvent::CancellationFired => (
                MonitorState::Terminated,
                MonitorAction::TerminateProcess,
            ),
            MonitorEvent::ProcessExited(r) => (
                MonitorState::Terminated,
                MonitorAction::EmitExited(r),
            ),
        },
    }
}

/// The action a running monitor performs for its first event.
pub open spec fn first_action(e: MonitorEvent) -> MonitorAction {
    match e {
        MonitorEvent::CancellationFired => MonitorAction::TerminateProcess,
        MonitorEvent::ProcessExited(r) => MonitorAction::EmitExited(r),
    }
}

/// The actions a monitor started in `s` performs over a whole sequence of
/// observed events, in order.
pub open spec fn monitor_run(s: MonitorState, events: Seq<MonitorEvent>) -> Seq<MonitorAction>
    decreases events.len(),
{
    if events.len() == 0 {
        seq![]
    } else {
        seq![monitor_step_spec(s, events[0]).1] + monitor_run(
            monitor_step_spec(s, events[0]).0,
            events.drop_first(),
        )
    }
}

/// Law: a terminated monitor ignores every further event — terminating an
/// already-terminated handle is a no-op and emits nothing, ever.
pub proof fn lemma_monitor_terminated_ignores(events: Seq<MonitorEvent>)
    ensures
        monitor_run(MonitorState::Terminated, events).len() == events.len(),
        forall|i: int|
            0 <= i < events.len() ==> monitor_run(MonitorState::Terminated, events)[i]
                == MonitorAction::Ignore,
    decreases events.len(),
{
    if events.len() > 0 {
        lemma_monitor_terminated_ignores(events.drop_first());
        assert(monitor_run(MonitorState::Terminated, events) == seq![MonitorAction::Ignore]
            + monitor_run(MonitorState::Terminated, events.drop_first()));
        assert(forall|i: int|
            1 <= i < events.len() ==> monitor_run(MonitorState::Terminated, events)[i]
                == monitor_run(MonitorState::Terminated, events.drop_first())[i - 1]);
    }
}

/// Law: over any run that starts in `Running`, only the first event acts.
/// The first event's action fires exactly once — cancellation terminates the
/// process at most once, at most one terminal exit error is ever emitted,
/// and the two never both happen — and every later event is ignored.
pub proof fn lemma_monitor_first_event_wins(events: Seq<MonitorEvent>)
    ensures
        monitor_run(MonitorState::Running, events).len() == events.len(),
        events.len() > 0 ==> monitor_run(MonitorState::Running, events)[0] == first_action(
            events[0],
        ),
        forall|i: int|
            1 <= i < events.len() ==> monitor_run(MonitorState::Running, events)[i]
                == MonitorAction::Ignore,
{
    if events.len() > 0 {
        lemma_monitor_terminated_ignores(events.drop_first());
        assert(monitor_step_spec(MonitorState::Running, events[0]).0 == MonitorState::Terminated);
        assert(monitor_run(MonitorState::Running, events) == seq![first_action(events[0])]
            + monitor_run(MonitorState::Terminated, events.drop_first()));
        assert(forall|i: int|
            1 <= i < events.len() ==> monitor_run(MonitorState::Running, events)[i]
                == monitor_run(MonitorState::Terminated, events.drop_first())[i - 1]);
    }
}

} // verus!
