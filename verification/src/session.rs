//! The live-reload session: one open bidirectional connection paired with
//! one filesystem watch, driven as a state machine. The surrounding event
//! loop races the watcher's notifications against the connection's inbound
//! messages, feeds whichever arrives first to [`Session::on_input`], and
//! performs the returned action; the machine itself decides every
//! transition and is checked for every input in every state.

use vstd::prelude::*;

use crate::watcher::{offered, EventQueue, FileEvent};

verus! {

/// The lifecycle of a session.
#[derive(Clone, Copy, Debug, PartialEq, Eq, Structural)]
pub enum SessionState {
    /// The watch is being armed against the served root.
    Starting,
    /// Watch armed; the session races notifications against inbound
    /// messages.
    Active,
    /// The client asked to close; the session winds down.
    Closing,
    /// Watch and connection are finished; no further signal is sent.
    Terminated,
}

/// One occurrence a session reacts to.
#[derive(Clone, Copy, Debug, PartialEq, Eq, Structural)]
pub enum SessionInput {
    /// The recursive watch on the served root was armed.
    WatchArmed,
    /// The watch could not be armed; the session is aborted.
    WatchFailed,
    /// A filesystem change notification arrived from the watch.
    FsChange,
    /// The reload signal went out over the connection.
    SendSucceeded,
    /// The connection broke while sending the reload signal.
    SendFailed,
    /// The client closed the connection.
    ClientClosed,
    /// The connection reported a transport error.
    ClientError,
    /// Any other inbound message; no client payload is part of the
    /// protocol, so it is ignored.
    ClientText,
}

/// What the surrounding loop must do after a transition.
#[derive(Clone, Copy, Debug, PartialEq, Eq, Structural)]
pub enum SessionAction {
    /// Nothing to perform.
    Idle,
    /// Push the fixed reload signal over the connection.
    SendReload,
}

/// The transition relation: next state and required action for one input.
pub open spec fn step_spec(s: SessionState, e: SessionInput) -> (SessionState, SessionAction) {
    match s {
        SessionState::Starting => match e {
            SessionInput::WatchArmed => (SessionState::Active, SessionAction::Idle),
            SessionInput::WatchFailed => (SessionState::Terminated, SessionAction::Idle),
            _ => (SessionState::Starting, SessionAction::Idle),
        },
        SessionState::Active => match e {
            SessionInput::FsChange => (SessionState::Active, SessionAction::SendReload),
            SessionInput::SendSucceeded => (SessionState::Active, SessionAction::Idle),
            SessionInput::SendFailed => (SessionState::Terminated, SessionAction::Idle),
            SessionInput::ClientClosed => (SessionState::Closing, SessionAction::Idle),
            SessionInput::ClientError => (SessionState::Terminated, SessionAction::Idle),
            SessionInput::ClientText => (SessionState::Active, SessionAction::Idle),
            _ => (SessionState::Active, SessionAction::Idle),
        },
        SessionState::Closing => (SessionState::Terminated, SessionAction::Idle),
        SessionState::Terminated => (SessionState::Terminated, SessionAction::Idle),
    }
}

/// One live-reload session. Each session owns its state exclusively:
/// stepping one session reads and writes nothing of any other.
pub struct Session {
    state: SessionState,
}

impl Session {
    /// The current lifecycle state.
    pub closed spec fn state_spec(&self) -> SessionState {
        self.state
    }

    /// A fresh session, about to arm its watch.
    pub fn new() -> (s: Session)
        ensures
            s.state_spec() == SessionState::Starting,
    {
        Session { state: SessionState::Starting }
    }

    /// Whether the session is finished.
    pub fn is_terminated(&self) -> (b: bool)
        ensures
            b == (self.state_spec() == SessionState::Terminated),
    {
        match self.state {
            SessionState::Terminated => true,
            _ => false,
        }
    }

    /// Feeds one input to the session and returns the action the
    /// surrounding loop must perform, exactly per [`step_spec`].
    pub fn on_input(&mut self, e: SessionInput) -> (action: SessionAction)
        ensures
            (final(self).state_spec(), action) == step_spec(old(self).state_spec(), e),
    {
        let (next, action) = match self.state {
            SessionState::Starting => match e {
                SessionInput::WatchArmed => (SessionState::Active, SessionAction::Idle),
                SessionInput::WatchFailed => (SessionState::Terminated, SessionAction::Idle),
                _ => (SessionState::Starting, SessionAction::Idle),
            },
            SessionState::Active => match e {
                SessionInput::FsChange => (SessionState::Active, SessionAction::SendReload),
                SessionInput::SendSucceeded => (SessionState::Active, SessionAction::Idle),
                SessionInput::SendFailed => (SessionState::Terminated, SessionAction::Idle),
                SessionInput::ClientClosed => (SessionState::Closing, SessionAction::Idle),
                SessionInput::ClientError => (SessionState::Terminated, SessionAction::Idle),
                SessionInput::ClientText => (SessionState::Active, SessionAction::Idle),
                _ => (SessionState::Active, SessionAction::Idle),
            },
            SessionState::Closing => (SessionState::Terminated, SessionAction::Idle),
            SessionState::Terminated => (SessionState::Terminated, SessionAction::Idle),
        };
        self.state = next;
        action
    }
}

/// The state after a whole run of inputs.
pub open spec fn final_state(s: SessionState, inputs: Seq<SessionInput>) -> SessionState
    decreases inputs.len(),
{
    if inputs.len() == 0 {
        s
    } else {
        final_state(step_spec(s, inputs[0]).0, inputs.drop_first())
    }
}

/// How many reload signals a run of inputs makes the session send.
pub open spec fn reloads_sent(s: SessionState, inputs: Seq<SessionInput>) -> nat
    decreases inputs.len(),
{
    if inputs.len() == 0 {
        0
    } else {
        (if step_spec(s, inputs[0]).1 == SessionAction::SendReload {
            1nat
        } else {
            0nat
        }) + reloads_sent(step_spec(s, inputs[0]).0, inputs.drop_first())
    }
}

/// How many change notifications a run of inputs holds.
pub open spec fn fs_changes(inputs: Seq<SessionInput>) -> nat
    decreases inputs.len(),
{
    if inputs.len() == 0 {
        0
    } else {
        (if inputs[0] == SessionInput::FsChange {
            1nat
        } else {
            0nat
        }) + fs_changes(inputs.drop_first())
    }
}

/// Law: an active session whose connection stays open sends one reload
/// signal per change notification it receives: as many signals as
/// notifications, and it stays active.
pub proof fn lemma_active_session_sends_every_change(inputs: Seq<SessionInput>)
    requires
        forall|i: int|
            0 <= i < inputs.len() ==> inputs[i] == SessionInput::FsChange || inputs[i]
                == SessionInput::SendSucceeded || inputs[i] == SessionInput::ClientText,
    ensures
        final_state(SessionState::Active, inputs) == SessionState::Active,
        reloads_sent(SessionState::Active, inputs) == fs_changes(inputs),
    decreases inputs.len(),
{
    if inputs.len() > 0 {
        lemma_active_session_sends_every_change(inputs.drop_first());
    }
}

/// Law: no run of inputs ever produces more reload signals than it holds
/// change notifications, from any state.
pub proof fn lemma_reloads_at_most_changes(s: SessionState, inputs: Seq<SessionInput>)
    ensures
        reloads_sent(s, inputs) <= fs_changes(inputs),
    decreases inputs.len(),
{
    if inputs.len() > 0 {
        lemma_reloads_at_most_changes(step_spec(s, inputs[0]).0, inputs.drop_first());
    }
}

/// A run of `k` change notifications and nothing else.
pub open spec fn change_burst(k: nat) -> Seq<SessionInput> {
    Seq::new(k, |i: int| SessionInput::FsChange)
}

/// A burst of changes holds exactly as many change notifications as its
/// length.
pub proof fn lemma_change_burst_count(k: nat)
    ensures
        fs_changes(change_burst(k)) == k,
    decreases k,
{
    if k > 0 {
        assert(change_burst(k).drop_first() =~= change_burst((k - 1) as nat));
        lemma_change_burst_count((k - 1) as nat);
    }
}

/// Law: when a burst of notifications reaches a session through the
/// bounded queue while the connection remains open, the session sends one
/// reload signal per surviving notification: never more signals than the
/// burst holds, and never zero when a non-empty burst reaches an empty
/// queue of positive capacity.
pub proof fn lemma_session_burst(cap: nat, events: Seq<FileEvent>)
    requires
        cap >= 1,
    ensures
        ({
            let kept = offered(Seq::<FileEvent>::empty(), cap, events).len();
            &&& kept <= events.len()
            &&& events.len() >= 1 ==> kept >= 1
            &&& reloads_sent(SessionState::Active, change_burst(kept)) == kept
            &&& final_state(SessionState::Active, change_burst(kept)) == SessionState::Active
        }),
{
    crate::watcher::lemma_offered_bounds(Seq::<FileEvent>::empty(), cap, events);
    let kept = offered(Seq::<FileEvent>::empty(), cap, events).len();
    lemma_change_burst_count(kept);
    lemma_active_session_sends_every_change(change_burst(kept));
}

/// Law: once a session is closing or terminated, no run of inputs ever
/// produces a reload signal again, and any further input leaves the
/// session terminated. A client close during an active session puts it
/// into the closing state, so that session ends silently.
pub proof fn lemma_close_silences_session(s: SessionState, inputs: Seq<SessionInput>)
    requires
        s == SessionState::Closing || s == SessionState::Terminated,
    ensures
        reloads_sent(s, inputs) == 0,
        inputs.len() >= 1 ==> final_state(s, inputs) == SessionState::Terminated,
    decreases inputs.len(),
{
    if inputs.len() > 0 {
        lemma_close_silences_session(step_spec(s, inputs[0]).0, inputs.drop_first());
    }
}

/// One pass of the session's event loop over the pending notifications,
/// with the connection staying open: every surviving notification is fed
/// to the session, each demanded reload signal is counted as sent, and the
/// session stays active. Exactly one signal goes out per pending
/// notification.
pub fn drain_pending(session: &mut Session, q: &mut EventQueue) -> (signals: usize)
    requires
        old(session).state_spec() == SessionState::Active,
        old(q).wf(),
    ensures
        final(session).state_spec() == SessionState::Active,
        final(q)@.len() == 0,
        signals == old(q)@.len(),
{
    let total: usize = q.len();
    let mut signals: usize = 0;
    while q.len() > 0
        invariant
            session.state_spec() == SessionState::Active,
            q.wf(),
            total == old(q)@.len(),
            signals + q@.len() == total,
        decreases q@.len(),
    {
        match q.pop() {
            None => {},
            Some(_) => {
                match session.on_input(SessionInput::FsChange) {
                    SessionAction::SendReload => {
                        signals = signals + 1;
                    },
                    SessionAction::Idle => {},
                }
                match session.on_input(SessionInput::SendSucceeded) {
                    SessionAction::SendReload => {},
                    SessionAction::Idle => {},
                }
            },
        }
    }
    signals
}

} // verus!
