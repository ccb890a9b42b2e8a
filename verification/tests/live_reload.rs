use livereload_server::session::{
    drain_pending, Session, SessionAction, SessionInput, SessionState,
};
use livereload_server::watcher::{EventQueue, FileEvent};
use livereload_server::NOTIFY_CHANNEL_CAPACITY;

#[test]
fn queue_keeps_a_burst_up_to_capacity_and_drops_the_rest() {
    let mut q = EventQueue::new(NOTIFY_CHANNEL_CAPACITY);
    let mut accepted = 0;
    for _ in 0..7 {
        if q.try_push(FileEvent) {
            accepted += 1;
        }
    }
    assert_eq!(accepted, 5);
    assert_eq!(q.len(), 5);
}

#[test]
fn queue_pop_empties_in_order_and_then_yields_nothing() {
    let mut q = EventQueue::new(2);
    assert!(q.try_push(FileEvent));
    assert!(q.try_push(FileEvent));
    assert!(!q.try_push(FileEvent));
    assert!(q.pop().is_some());
    assert!(q.pop().is_some());
    assert!(q.pop().is_none());
    assert_eq!(q.len(), 0);
}

#[test]
fn queue_with_zero_capacity_drops_everything() {
    let mut q = EventQueue::new(0);
    assert!(!q.try_push(FileEvent));
    assert_eq!(q.len(), 0);
}

#[test]
fn session_sends_one_reload_per_change_while_open() {
    let mut session = Session::new();
    assert_eq!(session.on_input(SessionInput::WatchArmed), SessionAction::Idle);

    let mut signals = 0;
    for _ in 0..3 {
        if session.on_input(SessionInput::FsChange) == SessionAction::SendReload {
            signals += 1;
        }
        assert_eq!(session.on_input(SessionInput::SendSucceeded), SessionAction::Idle);
    }
    assert_eq!(signals, 3);
    assert!(!session.is_terminated());
}

#[test]
fn session_survivors_of_a_full_queue_all_reach_the_client() {
    let mut q = EventQueue::new(NOTIFY_CHANNEL_CAPACITY);
    // a burst of 9 notifications, faster than the queue can hold
    let mut kept: usize = 0;
    for _ in 0..9 {
        if q.try_push(FileEvent) {
            kept += 1;
        }
    }
    assert!(kept >= 1 && kept <= 9);

    let mut session = Session::new();
    session.on_input(SessionInput::WatchArmed);
    let signals = drain_pending(&mut session, &mut q);
    assert_eq!(signals, kept);
    assert_eq!(q.len(), 0);
}

#[test]
fn session_aborts_when_watch_cannot_be_armed() {
    let mut session = Session::new();
    assert_eq!(session.on_input(SessionInput::WatchFailed), SessionAction::Idle);
    assert!(session.is_terminated());
}

#[test]
fn session_close_terminates_without_touching_another_session() {
    let mut closing = Session::new();
    let mut other = Session::new();
    closing.on_input(SessionInput::WatchArmed);
    other.on_input(SessionInput::WatchArmed);

    // the client of the first session closes its connection
    assert_eq!(closing.on_input(SessionInput::ClientClosed), SessionAction::Idle);
    assert_eq!(closing.on_input(SessionInput::ClientText), SessionAction::Idle);
    assert!(closing.is_terminated());
    // no reload goes out of a finished session
    assert_eq!(closing.on_input(SessionInput::FsChange), SessionAction::Idle);

    // the other session still reacts to its own watch
    assert!(!other.is_terminated());
    assert_eq!(other.on_input(SessionInput::FsChange), SessionAction::SendReload);
}

#[test]
fn session_ends_on_transport_error_or_send_failure() {
    let mut session = Session::new();
    session.on_input(SessionInput::WatchArmed);
    assert_eq!(session.on_input(SessionInput::ClientError), SessionAction::Idle);
    assert!(session.is_terminated());

    let mut session = Session::new();
    session.on_input(SessionInput::WatchArmed);
    assert_eq!(session.on_input(SessionInput::FsChange), SessionAction::SendReload);
    assert_eq!(session.on_input(SessionInput::SendFailed), SessionAction::Idle);
    assert!(session.is_terminated());
}

#[test]
fn session_ignores_client_text_while_active() {
    let mut session = Session::new();
    session.on_input(SessionInput::WatchArmed);
    assert_eq!(session.on_input(SessionInput::ClientText), SessionAction::Idle);
    assert!(!session.is_terminated());
    assert_eq!(session.on_input(SessionInput::FsChange), SessionAction::SendReload);
}

#[test]
fn session_states_are_observable_values() {
    assert_ne!(SessionState::Starting, SessionState::Terminated);
    let session = Session::new();
    assert!(!session.is_terminated());
}
