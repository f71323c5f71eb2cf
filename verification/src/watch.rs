//! The debounce state machine behind the file-watch loop.
//!
//! The loop that owns the filesystem watcher, the timer and the serial
//! port is unverified plumbing; every decision it takes comes from
//! [`watch_step`], a pure function from state and event to next state and
//! action. Editors emit bursts of notifications for one logical save, so
//! the machine coalesces a burst into a single dispatch: a relevant
//! notification starts (or restarts) the debounce timer, and only the
//! timer running out triggers the read-and-dispatch cycle.

use vstd::prelude::*;

verus! {

/// Where the loop stands.
#[derive(Clone, Copy, Debug, PartialEq, Eq, Structural)]
pub enum WatchState {
    /// Waiting for a filesystem notification.
    Idle,
    /// A change was seen; the debounce timer is running.
    PendingChange,
    /// A read-decode-dispatch cycle is in flight.
    Dispatching,
}

/// The kind of filesystem change a notification reports, reduced to the
/// classes the loop distinguishes.
#[derive(Clone, Copy, Debug, PartialEq, Eq, Structural)]
pub enum ChangeKind {
    /// A file was created.
    FileCreated,
    /// A file's contents changed.
    DataModified,
    /// A file's metadata changed.
    MetadataModified,
    /// A file was renamed into place.
    RenamedTo,
    /// Anything else (removals, renames away, directory events, ...).
    Other,
}

/// One filesystem notification, as plain values: what happened, and
/// whether any of the reported paths is exactly the watched file.
#[derive(Clone, Copy, Debug, PartialEq, Eq, Structural)]
pub struct Notification {
    pub kind: ChangeKind,
    pub targets_watched_path: bool,
}

/// One event the loop reacts to.
#[derive(Clone, Copy, Debug, PartialEq, Eq, Structural)]
pub enum WatchEvent {
    /// A notification arrived from the watcher.
    Changed(Notification),
    /// The debounce timer ran out with no further notification.
    TimerElapsed,
    /// The read-decode-dispatch cycle finished. `succeeded` is false when
    /// the file could not be read or decoded, or the send failed; the loop
    /// carries on either way, so the next edit gets a fresh chance.
    DispatchDone { succeeded: bool },
}

/// What the loop must do after a step.
#[derive(Clone, Copy, Debug, PartialEq, Eq, Structural)]
pub enum WatchAction {
    /// Nothing; keep waiting.
    Nothing,
    /// Start the debounce timer, or restart it if it is running.
    StartTimer,
    /// Read the watched file, decode it, and dispatch the command.
    ReadAndDispatch,
}

/// Whether a notification concerns the watched file: it must target the
/// watched path exactly, and report a creation, a data or metadata
/// modification, or a rename into place.
pub open spec fn spec_relevant(n: Notification) -> bool {
    n.targets_watched_path && match n.kind {
        ChangeKind::FileCreated => true,
        ChangeKind::DataModified => true,
        ChangeKind::MetadataModified => true,
        ChangeKind::RenamedTo => true,
        ChangeKind::Other => false,
    }
}

/// The transition relation of the loop, as one total function.
///
/// - A relevant notification in `Idle` or `PendingChange` moves to
///   `PendingChange` and (re)starts the timer; an irrelevant one changes
///   nothing.
/// - The timer running out in `PendingChange` moves to `Dispatching` and
///   orders the read-and-dispatch cycle; a stale timer in any other state
///   is ignored.
/// - The cycle finishing returns to `Idle`, whether it succeeded or not.
/// - Events that cannot arise in a state (a notification during the
///   synchronous dispatch, a completion while no cycle runs) change
///   nothing.
pub open spec fn spec_step(state: WatchState, event: WatchEvent) -> (WatchState, WatchAction) {
    match (state, event) {
        (WatchState::Idle, WatchEvent::Changed(n)) => if spec_relevant(n) {
            (WatchState::PendingChange, WatchAction::StartTimer)
        } else {
            (WatchState::Idle, WatchAction::Nothing)
        },
        (WatchState::PendingChange, WatchEvent::Changed(n)) => if spec_relevant(n) {
            (WatchState::PendingChange, WatchAction::StartTimer)
        } else {
            (WatchState::PendingChange, WatchAction::Nothing)
        },
        (WatchState::PendingChange, WatchEvent::TimerElapsed) => (
            WatchState::Dispatching,
            WatchAction::ReadAndDispatch,
        ),
        (WatchState::Dispatching, WatchEvent::DispatchDone { .. }) => (
            WatchState::Idle,
            WatchAction::Nothing,
        ),
        _ => (state, WatchAction::Nothing),
    }
}

/// The state and action the loop starts from: before waiting for any
/// notification it performs one read-and-dispatch cycle, so a device
/// coming online sees the file's current contents without waiting for an
/// edit.
pub open spec fn spec_start() -> (WatchState, WatchAction) {
    (WatchState::Dispatching, WatchAction::ReadAndDispatch)
}

/// Whether a notification concerns the watched file.
pub fn is_relevant(n: &Notification) -> (r: bool)
    ensures
        r == spec_relevant(*n),
{
    n.targets_watched_path && match n.kind {
        ChangeKind::FileCreated => true,
        ChangeKind::DataModified => true,
        ChangeKind::MetadataModified => true,
        ChangeKind::RenamedTo => true,
        ChangeKind::Other => false,
    }
}

/// Take one step of the loop: from the current state and the event that
/// arrived, the next state and the action the loop must perform.
pub fn watch_step(state: WatchState, event: WatchEvent) -> (r: (WatchState, WatchAction))
    ensures
        r == spec_step(state, event),
{
    match (state, event) {
        (WatchState::Idle, WatchEvent::Changed(n)) => if is_relevant(&n) {
            (WatchState::PendingChange, WatchAction::StartTimer)
        } else {
            (WatchState::Idle, WatchAction::Nothing)
        },
        (WatchState::PendingChange, WatchEvent::Changed(n)) => if is_relevant(&n) {
            (WatchState::PendingChange, WatchAction::StartTimer)
        } else {
            (WatchState::PendingChange, WatchAction::Nothing)
        },
        (WatchState::PendingChange, WatchEvent::TimerElapsed) => (
            WatchState::Dispatching,
            WatchAction::ReadAndDispatch,
        ),
        (WatchState::Dispatching, WatchEvent::DispatchDone { .. }) => (
            WatchState::Idle,
            WatchAction::Nothing,
        ),
        _ => (state, WatchAction::Nothing),
    }
}

/// Enter the loop: the state to start in and the startup action.
pub fn watch_start() -> (r: (WatchState, WatchAction))
    ensures
        r == spec_start(),
{
    (WatchState::Dispatching, WatchAction::ReadAndDispatch)
}

/// The state after feeding a sequence of events through the machine, first
/// event first.
pub open spec fn run_steps(state: WatchState, events: Seq<WatchEvent>) -> WatchState
    decreases events.len(),
{
    if events.len() == 0 {
        state
    } else {
        run_steps(spec_step(state, events[0]).0, events.drop_first())
    }
}

/// How many read-and-dispatch cycles a sequence of events orders.
pub open spec fn dispatch_count(state: WatchState, events: Seq<WatchEvent>) -> nat
    decreases events.len(),
{
    if events.len() == 0 {
        0
    } else {
        (if spec_step(state, events[0]).1 is ReadAndDispatch {
            1nat
        } else {
            0nat
        }) + dispatch_count(spec_step(state, events[0]).0, events.drop_first())
    }
}

/// Dispatch counts add up across a split of the event sequence.
proof fn lemma_dispatch_count_concat(state: WatchState, a: Seq<WatchEvent>, b: Seq<WatchEvent>)
    ensures
        dispatch_count(state, a + b) == dispatch_count(state, a) + dispatch_count(
            run_steps(state, a),
            b,
        ),
    decreases a.len(),
{
    if a.len() == 0 {
        assert(a + b =~= b);
    } else {
        let next = spec_step(state, a[0]).0;
        assert((a + b).drop_first() =~= a.drop_first() + b);
        lemma_dispatch_count_concat(next, a.drop_first(), b);
    }
}

/// A burst of relevant notifications, with no timer expiry among them,
/// orders no dispatch: from `Idle` or `PendingChange` the machine just
/// keeps (re)starting the timer and ends in `PendingChange`.
proof fn lemma_burst_pends(state: WatchState, notifs: Seq<WatchEvent>)
    requires
        state is Idle || state is PendingChange,
        notifs.len() >= 1,
        forall|i: int|
            0 <= i < notifs.len() ==> (#[trigger] notifs[i] matches WatchEvent::Changed(n) && spec_relevant(n)),
    ensures
        run_steps(state, notifs) is PendingChange,
        dispatch_count(state, notifs) == 0,
    decreases notifs.len(),
{
    assert(notifs[0] matches WatchEvent::Changed(n) && spec_relevant(n));
    let next = spec_step(state, notifs[0]).0;
    let rest = notifs.drop_first();
    if notifs.len() > 1 {
        lemma_burst_pends(next, rest);
    } else {
        assert(rest.len() == 0);
        assert(dispatch_count(next, rest) == 0);
        assert(run_steps(next, rest) == next);
    }
}

/// Debounce coalescing: a burst of one or more relevant notifications
/// inside the debounce window, followed by the timer running out, orders
/// exactly one read-and-dispatch cycle.
pub proof fn lemma_debounce_coalescing(notifs: Seq<WatchEvent>)
    requires
        notifs.len() >= 1,
        forall|i: int|
            0 <= i < notifs.len() ==> (#[trigger] notifs[i] matches WatchEvent::Changed(n) && spec_relevant(n)),
    ensures
        dispatch_count(WatchState::Idle, notifs) == 0,
        run_steps(WatchState::Idle, notifs) is PendingChange,
        dispatch_count(WatchState::Idle, notifs.push(WatchEvent::TimerElapsed)) == 1,
{
    lemma_burst_pends(WatchState::Idle, notifs);
    let timer = seq![WatchEvent::TimerElapsed];
    assert(notifs.push(WatchEvent::TimerElapsed) =~= notifs + timer);
    lemma_dispatch_count_concat(WatchState::Idle, notifs, timer);
    let after = spec_step(WatchState::PendingChange, WatchEvent::TimerElapsed).0;
    assert(timer.drop_first().len() == 0);
    assert(dispatch_count(after, timer.drop_first()) == 0);
    assert(dispatch_count(WatchState::PendingChange, timer) == 1);
}

/// Startup dispatch: entering the loop orders exactly one
/// read-and-dispatch cycle, and completing it leaves the machine in
/// `Idle` with nothing further ordered.
pub proof fn lemma_startup_single_dispatch(succeeded: bool)
    ensures
        spec_start().1 is ReadAndDispatch,
        spec_step(spec_start().0, WatchEvent::DispatchDone { succeeded }).0 is Idle,
        spec_step(spec_start().0, WatchEvent::DispatchDone { succeeded }).1 is Nothing,
{
}

/// Within the loop a read-and-dispatch cycle is ordered only by the
/// debounce timer running out while a change is pending: no notification,
/// however many arrive, and no cycle completion ever orders one directly.
pub proof fn lemma_dispatch_only_on_quiescence(state: WatchState, event: WatchEvent)
    ensures
        spec_step(state, event).1 is ReadAndDispatch <==> (state is PendingChange
            && event is TimerElapsed),
{
}

/// Bad-file resilience: a failed read-decode-dispatch cycle returns the
/// machine to `Idle` without ordering anything, and a subsequent edit
/// burst with its timer expiry orders exactly one dispatch, as any edit
/// from `Idle` does.
pub proof fn lemma_failure_then_valid_edit(notifs: Seq<WatchEvent>)
    requires
        notifs.len() >= 1,
        forall|i: int|
            0 <= i < notifs.len() ==> (#[trigger] notifs[i] matches WatchEvent::Changed(n) && spec_relevant(n)),
    ensures
        spec_step(WatchState::Dispatching, WatchEvent::DispatchDone { succeeded: false }).0
            is Idle,
        spec_step(WatchState::Dispatching, WatchEvent::DispatchDone { succeeded: false }).1
            is Nothing,
        dispatch_count(WatchState::Idle, notifs.push(WatchEvent::TimerElapsed)) == 1,
{
    lemma_debounce_coalescing(notifs);
}

} // verus!
