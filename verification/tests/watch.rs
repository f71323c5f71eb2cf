//! Exercises the debounce state machine with synthetic event sequences.

use selenite_lamp::watch::ChangeKind;
use selenite_lamp::watch::Notification;
use selenite_lamp::watch::WatchAction;
use selenite_lamp::watch::WatchEvent;
use selenite_lamp::watch::WatchState;
use selenite_lamp::watch::is_relevant;
use selenite_lamp::watch::watch_start;
use selenite_lamp::watch::watch_step;

fn edit() -> WatchEvent {
    WatchEvent::Changed(Notification {
        kind: ChangeKind::DataModified,
        targets_watched_path: true,
    })
}

/// Feeds the events through the machine and counts ordered dispatches.
fn run(mut state: WatchState, events: &[WatchEvent]) -> (WatchState, usize) {
    let mut dispatches: usize = 0;
    for event in events {
        let (next, action) = watch_step(state, *event);
        if action == WatchAction::ReadAndDispatch {
            dispatches += 1;
        }
        state = next;
    }
    (state, dispatches)
}

#[test]
fn burst_of_edits_coalesces_to_one_dispatch() {
    for n in 1..6usize {
        let mut events: Vec<WatchEvent> = vec![edit(); n];
        events.push(WatchEvent::TimerElapsed);
        let (state, dispatches) = run(WatchState::Idle, &events);
        assert_eq!(dispatches, 1, "{n} notifications must give exactly 1 dispatch");
        assert_eq!(state, WatchState::Dispatching);
    }
}

#[test]
fn notifications_restart_the_timer_without_dispatching() {
    let (state, dispatches) = run(WatchState::Idle, &vec![edit(); 10]);
    assert_eq!(dispatches, 0);
    assert_eq!(state, WatchState::PendingChange);
    let (_, action) = watch_step(WatchState::PendingChange, edit());
    assert_eq!(action, WatchAction::StartTimer);
}

#[test]
fn startup_dispatches_once_before_any_notification() {
    let (state, action) = watch_start();
    assert_eq!(action, WatchAction::ReadAndDispatch);
    let (state, action) = watch_step(state, WatchEvent::DispatchDone { succeeded: true });
    assert_eq!(state, WatchState::Idle);
    assert_eq!(action, WatchAction::Nothing);
}

#[test]
fn failed_dispatch_returns_to_idle_and_next_edit_dispatches_once() {
    let (state, action) =
        watch_step(WatchState::Dispatching, WatchEvent::DispatchDone { succeeded: false });
    assert_eq!(state, WatchState::Idle);
    assert_eq!(action, WatchAction::Nothing);

    let events = [edit(), edit(), WatchEvent::TimerElapsed];
    let (state, dispatches) = run(state, &events);
    assert_eq!(dispatches, 1);
    assert_eq!(state, WatchState::Dispatching);
}

#[test]
fn irrelevant_notifications_change_nothing() {
    let other_file = WatchEvent::Changed(Notification {
        kind: ChangeKind::DataModified,
        targets_watched_path: false,
    });
    let removal = WatchEvent::Changed(Notification {
        kind: ChangeKind::Other,
        targets_watched_path: true,
    });
    for event in [other_file, removal] {
        let (state, action) = watch_step(WatchState::Idle, event);
        assert_eq!(state, WatchState::Idle);
        assert_eq!(action, WatchAction::Nothing);
        let (state, action) = watch_step(WatchState::PendingChange, event);
        assert_eq!(state, WatchState::PendingChange);
        assert_eq!(action, WatchAction::Nothing);
    }
}

#[test]
fn relevance_matches_the_watched_kinds() {
    for kind in [
        ChangeKind::FileCreated,
        ChangeKind::DataModified,
        ChangeKind::MetadataModified,
        ChangeKind::RenamedTo,
    ] {
        assert!(is_relevant(&Notification { kind, targets_watched_path: true }));
        assert!(!is_relevant(&Notification { kind, targets_watched_path: false }));
    }
    assert!(!is_relevant(&Notification {
        kind: ChangeKind::Other,
        targets_watched_path: true,
    }));
}

#[test]
fn stale_timer_in_idle_is_ignored() {
    let (state, action) = watch_step(WatchState::Idle, WatchEvent::TimerElapsed);
    assert_eq!(state, WatchState::Idle);
    assert_eq!(action, WatchAction::Nothing);
}

#[test]
fn only_timer_expiry_in_pending_change_dispatches() {
    let states = [WatchState::Idle, WatchState::PendingChange, WatchState::Dispatching];
    let events = [
        edit(),
        WatchEvent::TimerElapsed,
        WatchEvent::DispatchDone { succeeded: true },
        WatchEvent::DispatchDone { succeeded: false },
    ];
    for state in states {
        for event in events {
            let (_, action) = watch_step(state, event);
            assert_eq!(
                action == WatchAction::ReadAndDispatch,
                state == WatchState::PendingChange && event == WatchEvent::TimerElapsed
            );
        }
    }
}
