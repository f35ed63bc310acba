//! What the tray viewer shows of the agent, and how each read of the snapshot changes it.
use vstd::prelude::*;

use crate::clock::unix_now_seconds;
use crate::connection::{elapsed_since_text, is_stale_age, is_stale_at, STALE_AFTER_SECS};
use crate::protocol::{PortInfo, StatusFile, TicketEvent};
use crate::timestamp::iso_epoch_seconds_of_text;

verus! {

/// How many captured tickets the activity feed keeps.
pub const MAX_RECENT_EVENTS: usize = 6;

#[derive(Debug, Clone, Copy, PartialEq, Eq, Structural)]
pub enum ConnectionState {
    Connected,
    Disconnected,
}

/// The viewer's picture of the agent.
#[derive(Debug, Clone)]
pub struct AgentViewState {
    pub connection: ConnectionState,
    pub agent_name: String,
    /// "ok", "error" or "unknown".
    pub agent_status: String,
    pub agent_status_message: Option<String>,
    pub ports: Vec<PortInfo>,
    /// Most recent first.
    pub recent_events: Vec<TicketEvent>,
}

/// The picture before anything was read: no agent seen.
pub open spec fn is_initial_view(s: AgentViewState) -> bool {
    &&& s.connection == ConnectionState::Disconnected
    &&& s.agent_name@ == "print-capture-agent"@
    &&& s.agent_status@ == "unknown"@
    &&& s.agent_status_message is None
    &&& s.ports@.len() == 0
    &&& s.recent_events@.len() == 0
}

/// `new` is `old` with the agent marked as not detected: status unknown, no message;
/// the name, the ports and the feed stay as they were.
pub open spec fn is_disconnected_from(new: AgentViewState, old: AgentViewState) -> bool {
    &&& new.connection == ConnectionState::Disconnected
    &&& new.agent_status@ == "unknown"@
    &&& new.agent_status_message is None
    &&& new.agent_name == old.agent_name
    &&& new.ports == old.ports
    &&& new.recent_events == old.recent_events
}

/// The first `MAX_RECENT_EVENTS` captured tickets of a snapshot.
pub open spec fn kept_events(events: Seq<TicketEvent>) -> Seq<TicketEvent> {
    if events.len() <= MAX_RECENT_EVENTS {
        events
    } else {
        events.subrange(0, MAX_RECENT_EVENTS as int)
    }
}

/// `new` shows the agent as connected, with what `status` reports.
pub open spec fn shows_snapshot(new: AgentViewState, status: StatusFile) -> bool {
    &&& new.connection == ConnectionState::Connected
    &&& new.agent_name == status.agent.name
    &&& new.agent_status == status.agent.status
    &&& new.agent_status_message == status.status_message
    &&& new.ports == status.ports
    &&& new.recent_events@ == kept_events(status.recent_events@)
}

/// The feed shown for a snapshot is its newest tickets in their order, most recent
/// first: the first `MAX_RECENT_EVENTS` of them, or all where there are fewer.
pub proof fn lemma_shown_feed_is_newest_first(new: AgentViewState, status: StatusFile)
    requires
        shows_snapshot(new, status),
    ensures
        new.recent_events@.len() == (if status.recent_events@.len() < MAX_RECENT_EVENTS {
            status.recent_events@.len()
        } else {
            MAX_RECENT_EVENTS as nat
        }),
        forall|i: int|
            0 <= i < new.recent_events@.len() ==> #[trigger] new.recent_events@[i]
                == status.recent_events@[i],
{
}

/// A snapshot is taken as the agent's state when there is one and its stamp is not
/// stale at the clock reading `now`.
pub open spec fn snapshot_is_live(snapshot: Option<StatusFile>, now: Option<u64>) -> bool {
    snapshot matches Some(status) && !is_stale_age(elapsed_since_text(status.written_at@, now))
}

/// What the viewer's picture always keeps: at most `MAX_RECENT_EVENTS` tickets in the
/// feed, and an agent that is not detected shows status "unknown" and no message.
pub open spec fn view_is_coherent(s: AgentViewState) -> bool {
    &&& s.recent_events@.len() <= MAX_RECENT_EVENTS
    &&& s.connection == ConnectionState::Disconnected ==> s.agent_status@ == "unknown"@
        && s.agent_status_message is None
}

/// `new` follows from `old` by one of the picture's changes: marking the agent as not
/// detected, or showing a live snapshot (what every read of the snapshot does).
pub open spec fn is_view_step(old: AgentViewState, new: AgentViewState) -> bool {
    is_disconnected_from(new, old) || exists|status: StatusFile| #[trigger]
        shows_snapshot(new, status)
}

/// The picture after each change is coherent where the one before was.
pub proof fn lemma_view_step_keeps_coherence(old: AgentViewState, new: AgentViewState)
    requires
        view_is_coherent(old),
        is_view_step(old, new),
    ensures
        view_is_coherent(new),
{
    if !is_disconnected_from(new, old) {
        let status = choose|status: StatusFile| #[trigger] shows_snapshot(new, status);
        assert(kept_events(status.recent_events@).len() <= MAX_RECENT_EVENTS);
    }
}

/// In every run of the viewer from its first picture (that of `SharedState::new`),
/// through any reads of the snapshot and any marking as not detected, the feed never
/// holds more than `MAX_RECENT_EVENTS` tickets, and an agent that is not detected
/// always shows status "unknown" and no message.
pub proof fn lemma_viewer_runs_stay_coherent(pictures: Seq<AgentViewState>)
    requires
        pictures.len() > 0,
        is_initial_view(pictures[0]),
        forall|i: int| 0 < i < pictures.len() ==> #[trigger] is_view_step(pictures[i - 1], pictures[i]),
    ensures
        forall|i: int| 0 <= i < pictures.len() ==> #[trigger] view_is_coherent(pictures[i]),
    decreases pictures.len(),
{
    if pictures.len() > 1 {
        let before = pictures.drop_last();
        assert forall|i: int| 0 < i < before.len() implies #[trigger] is_view_step(before[i - 1], before[i]) by {
            assert(is_view_step(pictures[i - 1], pictures[i]));
        }
        lemma_viewer_runs_stay_coherent(before);
        let n = pictures.len() - 1;
        assert(view_is_coherent(before[n - 1]));
        assert(is_view_step(pictures[n - 1], pictures[n]));
        lemma_view_step_keeps_coherence(pictures[n - 1], pictures[n]);
        assert forall|i: int| 0 <= i < pictures.len() implies #[trigger] view_is_coherent(pictures[i]) by {
            if i < n {
                assert(view_is_coherent(before[i]));
            }
        }
    }
}

impl Default for AgentViewState {
    fn default() -> (s: Self)
        ensures
            is_initial_view(s),
            view_is_coherent(s),
    {
        AgentViewState {
            connection: ConnectionState::Disconnected,
            agent_name: String::from_str("print-capture-agent"),
            agent_status: String::from_str("unknown"),
            agent_status_message: None,
            ports: Vec::new(),
            recent_events: Vec::new(),
        }
    }
}

impl AgentViewState {
    /// Marks the agent as not detected.
    pub fn mark_disconnected(&mut self)
        ensures
            is_disconnected_from(*final(self), *old(self)),
            is_view_step(*old(self), *final(self)),
    {
        self.connection = ConnectionState::Disconnected;
        self.agent_status = String::from_str("unknown");
        self.agent_status_message = None;
    }

    /// Takes in one read of the snapshot, judged at the clock reading `now_secs`: a
    /// live snapshot replaces what is shown (the feed cut to `MAX_RECENT_EVENTS`);
    /// a missing or stale one marks the agent as not detected.
    pub fn apply_snapshot_at(&mut self, snapshot: Option<StatusFile>, now_secs: Option<u64>)
        ensures
            snapshot_is_live(snapshot, now_secs) ==> shows_snapshot(*final(self), snapshot.unwrap()),
            !snapshot_is_live(snapshot, now_secs) ==> is_disconnected_from(*final(self), *old(self)),
            is_view_step(*old(self), *final(self)),
            ({
                let st = snapshot.unwrap();
                let age = elapsed_since_text(st.written_at@, now_secs);
                snapshot is Some && age is Some && -STALE_AFTER_SECS <= age.unwrap() <= STALE_AFTER_SECS
                    ==> {
                &&& final(self).connection == ConnectionState::Connected
                &&& final(self).agent_name == st.agent.name
                &&& final(self).agent_status == st.agent.status
                &&& final(self).agent_status_message == st.status_message
                &&& final(self).ports == st.ports
                &&& final(self).recent_events@.len() == (if st.recent_events@.len() < MAX_RECENT_EVENTS {
                    st.recent_events@.len()
                } else {
                    MAX_RECENT_EVENTS as nat
                })
                &&& forall|i: int|
                    0 <= i < final(self).recent_events@.len() ==> #[trigger] final(self).recent_events@[i]
                        == st.recent_events@[i]
                }
            }),
            ({
                let st = snapshot.unwrap();
                let age = elapsed_since_text(st.written_at@, now_secs);
                !(snapshot is Some && age is Some && -STALE_AFTER_SECS <= age.unwrap() <= STALE_AFTER_SECS)
                    ==> {
                &&& final(self).connection == ConnectionState::Disconnected
                &&& final(self).agent_status@ == "unknown"@
                &&& final(self).agent_status_message is None
                &&& final(self).agent_name == old(self).agent_name
                &&& final(self).ports == old(self).ports
                &&& final(self).recent_events == old(self).recent_events
                }
            }),
    {
        match snapshot {
            Some(status) => {
                let ghost shown = status;
                if !is_stale_at(status.written_at.as_str(), now_secs) {
                    self.connection = ConnectionState::Connected;
                    self.agent_name = status.agent.name;
                    self.agent_status = status.agent.status;
                    self.agent_status_message = status.status_message;
                    self.ports = status.ports;
                    self.recent_events = status.recent_events;
                    let ghost events = self.recent_events@;
                    self.recent_events.truncate(MAX_RECENT_EVENTS);
                    assert(self.recent_events@ =~= kept_events(events));
                    assert(shows_snapshot(*self, shown));
                } else {
                    self.mark_disconnected();
                }
            },
            None => self.mark_disconnected(),
        }
    }

    /// Takes in one read of the snapshot, judged by the system clock now, and returns
    /// the clock reading it was judged at. A missing snapshot, or one whose stamp does
    /// not parse, marks the agent as not detected.
    pub fn apply_snapshot(&mut self, snapshot: Option<StatusFile>) -> (now: Option<u64>)
        ensures
            snapshot_is_live(snapshot, now) ==> shows_snapshot(*final(self), snapshot.unwrap()),
            !snapshot_is_live(snapshot, now) ==> is_disconnected_from(*final(self), *old(self)),
            ({
                let st = snapshot.unwrap();
                let age = elapsed_since_text(st.written_at@, now);
                snapshot is Some && age is Some && -STALE_AFTER_SECS <= age.unwrap() <= STALE_AFTER_SECS
                    ==> {
                &&& final(self).connection == ConnectionState::Connected
                &&& final(self).agent_name == st.agent.name
                &&& final(self).agent_status == st.agent.status
                &&& final(self).agent_status_message == st.status_message
                &&& final(self).ports == st.ports
                &&& final(self).recent_events@.len() == (if st.recent_events@.len() < MAX_RECENT_EVENTS {
                    st.recent_events@.len()
                } else {
                    MAX_RECENT_EVENTS as nat
                })
                &&& forall|i: int|
                    0 <= i < final(self).recent_events@.len() ==> #[trigger] final(self).recent_events@[i]
                        == st.recent_events@[i]
                }
            }),
            ({
                let st = snapshot.unwrap();
                let age = elapsed_since_text(st.written_at@, now);
                !(snapshot is Some && age is Some && -STALE_AFTER_SECS <= age.unwrap() <= STALE_AFTER_SECS)
                    ==> {
                &&& final(self).connection == ConnectionState::Disconnected
                &&& final(self).agent_status@ == "unknown"@
                &&& final(self).agent_status_message is None
                &&& final(self).agent_name == old(self).agent_name
                &&& final(self).ports == old(self).ports
                &&& final(self).recent_events == old(self).recent_events
                }
            }),

            shows_snapshot(*final(self), snapshot.unwrap()) && snapshot is Some
                || is_disconnected_from(*final(self), *old(self)),
            snapshot is None ==> is_disconnected_from(*final(self), *old(self)),
            snapshot matches Some(status) && iso_epoch_seconds_of_text(status.written_at@)
                is None ==> is_disconnected_from(*final(self), *old(self)),
            is_view_step(*old(self), *final(self)),
    {
        let now = unix_now_seconds();
        self.apply_snapshot_at(snapshot, now);
        now
    }
}

#[verifier::external_type_specification]
#[verifier::external_body]
#[verifier::reject_recursive_types(T)]
pub struct ExMutex<T: ?Sized>(std::sync::Mutex<T>);

/// What a mutex holding the viewer's picture holds: one picture.
pub uninterp spec fn mutex_contents(m: std::sync::Mutex<AgentViewState>) -> Seq<AgentViewState>;

/// Whether a mutex holding the viewer's picture is free: not locked and not
/// poisoned, so that `lock()` succeeds.
pub uninterp spec fn mutex_is_free(m: std::sync::Mutex<AgentViewState>) -> bool;

/// Wraps `std::sync::Mutex::new`, which std documents as a new mutex, unlocked (and so
/// not poisoned) and holding the given value: here the one picture `state`.
#[verifier::external_body]
fn new_picture_mutex(state: AgentViewState) -> (m: std::sync::Mutex<AgentViewState>)
    ensures
        mutex_contents(m) == seq![state],
        mutex_is_free(m),
{
    std::sync::Mutex::new(state)
}

/// The viewer's picture, shared between the polling task and the window.
pub struct SharedState(pub std::sync::Mutex<AgentViewState>);

impl SharedState {
    /// A shared picture that starts as `AgentViewState::default()`: no agent seen.
    pub fn new() -> (s: Self)
        ensures
            mutex_contents(s.0).len() == 1,
            is_initial_view(mutex_contents(s.0)[0]),
            mutex_is_free(s.0),
    {
        SharedState(new_picture_mutex(AgentViewState::default()))
    }
}

} // verus!
