//! The decisions of the service loop that keeps the agent running: when to stop, when
//! to restart the agent because the credentials changed, when to launch it, and how
//! long to wait after a failed launch. The loop itself (waiting for the service
//! manager, reading the credentials' modification time, launching and killing the
//! process) performs what these decisions say and reports back what it saw.
use vstd::prelude::*;

verus! {

/// Wait after the first failed launch, and after any successful one.
pub const INITIAL_BACKOFF_SECS: u64 = 2;

/// Longest wait between failed launches.
pub const MAX_BACKOFF_SECS: u64 = 60;

/// How long the loop waits for a stop request before each round.
pub const TICK_SECS: u64 = 3;

/// The loop's state: whether it holds a running agent, the modification stamp of the
/// credentials it last saw (nanoseconds from the Unix epoch, `None` for no file), and
/// the wait before the next launch attempt should this one fail.
#[derive(Debug, Clone, Copy, PartialEq, Eq, Structural)]
pub struct SupervisorView {
    pub agent_running: bool,
    pub last_credentials: Option<i128>,
    pub backoff_secs: u64,
}

/// The waits stay between the first and the longest.
pub open spec fn is_valid_view(s: SupervisorView) -> bool {
    INITIAL_BACKOFF_SECS <= s.backoff_secs <= MAX_BACKOFF_SECS
}

/// The wait after the next failure: twice this one, at most `MAX_BACKOFF_SECS`.
pub open spec fn next_backoff(b: u64) -> u64 {
    if 2 * b < MAX_BACKOFF_SECS {
        (2 * b) as u64
    } else {
        MAX_BACKOFF_SECS
    }
}

/// What the loop does on waking up.
#[derive(Debug, Clone, Copy, PartialEq, Eq, Structural)]
pub enum WakeDecision {
    /// Leave the loop, killing the agent first where `kill_agent`.
    Stop { kill_agent: bool },
    /// Go on with the round.
    Continue,
}

/// What the loop does after reading the credentials' modification stamp.
#[derive(Debug, Clone, Copy, PartialEq, Eq, Structural)]
pub struct CredentialsDecision {
    /// The stamp differs from the one seen before.
    pub changed: bool,
    /// Kill the running agent so that it starts again with the new credentials.
    pub kill_agent: bool,
}

/// What the loop must look at to decide on a launch.
#[derive(Debug, Clone, Copy, PartialEq, Eq, Structural)]
pub enum AgentCheck {
    /// No agent runs: whether credentials exist (without them the agent waits for activation).
    CredentialsPresence,
    /// An agent runs: whether it has ended.
    AgentExit,
}

/// What the loop saw when it looked.
#[derive(Debug, Clone, Copy, PartialEq, Eq, Structural)]
pub enum Observation {
    /// With no agent running: whether the credentials file exists.
    Credentials { present: bool },
    /// The running agent has ended (it crashed or quit on an error).
    AgentExited,
    /// The running agent is still running.
    AgentRunning,
    /// Asking the running agent's status failed.
    WaitFailed,
}

pub open spec fn woken(s: SupervisorView, shutdown: bool) -> (SupervisorView, WakeDecision) {
    if shutdown {
        (SupervisorView { agent_running: false, ..s }, WakeDecision::Stop { kill_agent: s.agent_running })
    } else {
        (s, WakeDecision::Continue)
    }
}

pub open spec fn credentials_seen(s: SupervisorView, stamp: Option<i128>) -> (SupervisorView, CredentialsDecision) {
    if stamp != s.last_credentials {
        (
            SupervisorView { agent_running: false, last_credentials: stamp, ..s },
            CredentialsDecision { changed: true, kill_agent: s.agent_running },
        )
    } else {
        (s, CredentialsDecision { changed: false, kill_agent: false })
    }
}

pub open spec fn check_for(s: SupervisorView) -> AgentCheck {
    if s.agent_running {
        AgentCheck::AgentExit
    } else {
        AgentCheck::CredentialsPresence
    }
}

/// The observation answers the check that the state asks for.
pub open spec fn observation_fits(s: SupervisorView, obs: Observation) -> bool {
    (obs is Credentials) == !s.agent_running
}

pub open spec fn observed(s: SupervisorView, obs: Observation) -> (SupervisorView, bool) {
    match obs {
        Observation::Credentials { present } => (s, present),
        Observation::AgentExited => (SupervisorView { agent_running: false, ..s }, true),
        Observation::AgentRunning => (s, false),
        Observation::WaitFailed => (s, false),
    }
}

/// After a launch attempt: the new state, and the pause before the next round.
pub open spec fn launched(s: SupervisorView, started: bool) -> (SupervisorView, Option<u64>) {
    if started {
        (
            SupervisorView { agent_running: true, backoff_secs: INITIAL_BACKOFF_SECS, ..s },
            None,
        )
    } else {
        (
            SupervisorView { backoff_secs: next_backoff(s.backoff_secs), ..s },
            Some(s.backoff_secs),
        )
    }
}

/// Every decision keeps the wait between `INITIAL_BACKOFF_SECS` and `MAX_BACKOFF_SECS`.
pub proof fn lemma_decisions_keep_wait_in_range(
    s: SupervisorView,
    shutdown: bool,
    stamp: Option<i128>,
    obs: Observation,
    started: bool,
)
    requires
        is_valid_view(s),
    ensures
        is_valid_view(woken(s, shutdown).0),
        is_valid_view(credentials_seen(s, stamp).0),
        is_valid_view(observed(s, obs).0),
        is_valid_view(launched(s, started).0),
{
}

/// A tick without a stop request goes on with the round and changes nothing,
/// whether or not an agent runs.
pub proof fn lemma_quiet_tick_continues(s: SupervisorView)
    ensures
        woken(s, false).1 == WakeDecision::Continue,
        woken(s, false).0 == s,
{
}

/// A stop or shutdown request always ends the loop, and a running agent is killed
/// with it: after it no agent runs.
pub proof fn lemma_stop_kills_agent(s: SupervisorView)
    ensures
        woken(s, true).1 == (WakeDecision::Stop { kill_agent: s.agent_running }),
        !woken(s, true).0.agent_running,
{
}

/// When the credentials change (activation or reactivation), a running agent is killed,
/// and, the new credentials being there, the same round launches it again; once the
/// launch succeeds the agent runs with the new stamp remembered.
pub proof fn lemma_new_credentials_restart_agent(s: SupervisorView, stamp: Option<i128>)
    requires
        is_valid_view(s),
        stamp != s.last_credentials,
    ensures
        ({
            let (after, d) = credentials_seen(s, stamp);
            &&& d.changed
            &&& d.kill_agent == s.agent_running
            &&& check_for(after) == AgentCheck::CredentialsPresence
            &&& observation_fits(after, Observation::Credentials { present: true })
            &&& observed(after, Observation::Credentials { present: true }) == (after, true)
            &&& launched(after, true).0.agent_running
            &&& launched(after, true).0.last_credentials == stamp
        }),
{
}

/// The same stamp seen again changes nothing and leaves the agent alone.
pub proof fn lemma_same_credentials_keep_agent(s: SupervisorView)
    ensures
        credentials_seen(s, s.last_credentials) == (s, CredentialsDecision {
            changed: false,
            kill_agent: false,
        }),
{
}

/// At most one agent runs: the loop is told to launch only when it holds no running
/// agent, and with no agent it launches exactly when credentials exist.
pub proof fn lemma_launch_only_without_agent(s: SupervisorView, obs: Observation)
    requires
        observation_fits(s, obs),
    ensures
        observed(s, obs).1 ==> !observed(s, obs).0.agent_running,
        !s.agent_running ==> observed(s, obs).1 == (obs == Observation::Credentials { present: true }),
{
}

/// One step of the service loop, as the loop feeds it to the supervisor.
#[derive(Debug, Clone, Copy, PartialEq, Eq, Structural)]
pub enum LoopStep {
    /// Woken up, with or without a stop request.
    Wake { shutdown: bool },
    /// The credentials' modification stamp was read.
    Credentials { stamp: Option<i128> },
    /// The loop looked, as `next_check` asked, and saw this.
    Look { seen: Observation },
    /// A launch was attempted, after `decide_launch` said so.
    Launch { started: bool },
}

/// The step is one the loop can take in state `s`: what it saw answers the check the
/// state asks for, and it launches only when it holds no running agent.
pub open spec fn step_fits(s: SupervisorView, step: LoopStep) -> bool {
    match step {
        LoopStep::Look { seen } => observation_fits(s, seen),
        LoopStep::Launch { .. } => !s.agent_running,
        _ => true,
    }
}

pub open spec fn after_step(s: SupervisorView, step: LoopStep) -> SupervisorView {
    match step {
        LoopStep::Wake { shutdown } => woken(s, shutdown).0,
        LoopStep::Credentials { stamp } => credentials_seen(s, stamp).0,
        LoopStep::Look { seen } => observed(s, seen).0,
        LoopStep::Launch { started } => launched(s, started).0,
    }
}

/// How the number of live agent processes changes as the loop carries out a step: a
/// kill it is told to make ends one (it kills and waits for it), an agent seen to have
/// ended is one fewer, a successful launch is one more.
pub open spec fn live_agents_change(s: SupervisorView, step: LoopStep) -> int {
    match step {
        LoopStep::Wake { shutdown } => if woken(s, shutdown).1 == (WakeDecision::Stop { kill_agent: true }) {
            -1
        } else {
            0
        },
        LoopStep::Credentials { stamp } => if credentials_seen(s, stamp).1.kill_agent {
            -1
        } else {
            0
        },
        LoopStep::Look { seen } => if seen == Observation::AgentExited {
            -1
        } else {
            0
        },
        LoopStep::Launch { started } => if started {
            1
        } else {
            0
        },
    }
}

/// The supervisor's state after a run of steps from `s0`.
pub open spec fn state_after(s0: SupervisorView, steps: Seq<LoopStep>) -> SupervisorView
    decreases steps.len(),
{
    if steps.len() == 0 {
        s0
    } else {
        after_step(state_after(s0, steps.drop_last()), steps.last())
    }
}

/// The number of live agent processes after a run of steps from a start with none.
pub open spec fn live_agents_after(s0: SupervisorView, steps: Seq<LoopStep>) -> int
    decreases steps.len(),
{
    if steps.len() == 0 {
        0
    } else {
        live_agents_after(s0, steps.drop_last()) + live_agents_change(
            state_after(s0, steps.drop_last()),
            steps.last(),
        )
    }
}

/// Every step of the run is one the loop can take where it stands.
pub open spec fn run_fits(s0: SupervisorView, steps: Seq<LoopStep>) -> bool
    decreases steps.len(),
{
    steps.len() == 0 || (run_fits(s0, steps.drop_last()) && step_fits(
        state_after(s0, steps.drop_last()),
        steps.last(),
    ))
}

/// At most one agent runs at any time: in every run of the loop from a start with no
/// agent, the live agent processes number one exactly when the supervisor holds a
/// running agent, and none otherwise.
pub proof fn lemma_at_most_one_agent(s0: SupervisorView, steps: Seq<LoopStep>)
    requires
        !s0.agent_running,
        run_fits(s0, steps),
    ensures
        live_agents_after(s0, steps) == (if state_after(s0, steps).agent_running {
            1int
        } else {
            0int
        }),
        0 <= live_agents_after(s0, steps) <= 1,
    decreases steps.len(),
{
    if steps.len() > 0 {
        lemma_at_most_one_agent(s0, steps.drop_last());
    }
}

/// The wait after `k` consecutive failed launches, counted from a reset wait.
pub open spec fn wait_after_failures(k: nat) -> u64
    decreases k,
{
    if k == 0 {
        INITIAL_BACKOFF_SECS
    } else {
        next_backoff(wait_after_failures((k - 1) as nat))
    }
}

/// The state after `k` failed launches in a row.
pub open spec fn after_failed_launches(s: SupervisorView, k: nat) -> SupervisorView
    decreases k,
{
    if k == 0 {
        s
    } else {
        launched(after_failed_launches(s, (k - 1) as nat), false).0
    }
}

/// From a reset wait, consecutive failed launches pause 2, 4, 8, 16 and 32 seconds,
/// then 60 seconds each time.
pub proof fn lemma_failed_launches_back_off(s: SupervisorView, k: nat)
    requires
        s.backoff_secs == INITIAL_BACKOFF_SECS,
    ensures
        after_failed_launches(s, k).backoff_secs == wait_after_failures(k),
        launched(after_failed_launches(s, k), false).1 == Some(wait_after_failures(k)),
        wait_after_failures(k) == (if k < 5 {
            vstd::arithmetic::power2::pow2(k + 1) as u64
        } else {
            MAX_BACKOFF_SECS
        }),
    decreases k,
{
    if k > 0 {
        lemma_failed_launches_back_off(s, (k - 1) as nat);
    }
    vstd::arithmetic::power2::lemma2_to64();
    if k > 5 {
        assert(wait_after_failures((k - 1) as nat) == MAX_BACKOFF_SECS);
    }
}

/// The service loop's decisions.
pub struct Supervisor {
    agent_running: bool,
    last_credentials: Option<i128>,
    backoff_secs: u64,
}

impl View for Supervisor {
    type V = SupervisorView;

    closed spec fn view(&self) -> SupervisorView {
        SupervisorView {
            agent_running: self.agent_running,
            last_credentials: self.last_credentials,
            backoff_secs: self.backoff_secs,
        }
    }
}

impl Supervisor {
    /// The state at start: no agent, the credentials' stamp as read at start.
    pub fn new(credentials: Option<i128>) -> (s: Self)
        ensures
            s@ == (SupervisorView {
                agent_running: false,
                last_credentials: credentials,
                backoff_secs: INITIAL_BACKOFF_SECS,
            }),
            is_valid_view(s@),
    {
        Supervisor { agent_running: false, last_credentials: credentials, backoff_secs: INITIAL_BACKOFF_SECS }
    }

    pub fn agent_running(&self) -> (r: bool)
        ensures
            r == self@.agent_running,
    {
        self.agent_running
    }

    pub fn backoff_secs(&self) -> (r: u64)
        ensures
            r == self@.backoff_secs,
    {
        self.backoff_secs
    }

    /// On waking up: a stop or shutdown request (or a closed channel) ends the loop and
    /// the agent with it.
    pub fn on_wake(&mut self, shutdown: bool) -> (d: WakeDecision)
        requires
            is_valid_view(old(self)@),
        ensures
            (final(self)@, d) == woken(old(self)@, shutdown),
            is_valid_view(final(self)@),
            !shutdown ==> d == WakeDecision::Continue && final(self)@ == old(self)@,
            shutdown ==> d == (WakeDecision::Stop { kill_agent: old(self)@.agent_running })
                && !final(self)@.agent_running
                && final(self)@.last_credentials == old(self)@.last_credentials
                && final(self)@.backoff_secs == old(self)@.backoff_secs,
    {
        if shutdown {
            let kill_agent = self.agent_running;
            self.agent_running = false;
            WakeDecision::Stop { kill_agent }
        } else {
            WakeDecision::Continue
        }
    }

    /// On reading the credentials' modification stamp: a new stamp (activation or
    /// reactivation) restarts the agent.
    pub fn on_credentials(&mut self, stamp: Option<i128>) -> (d: CredentialsDecision)
        requires
            is_valid_view(old(self)@),
        ensures
            (final(self)@, d) == credentials_seen(old(self)@, stamp),
            is_valid_view(final(self)@),
    {
        let same = match (stamp, self.last_credentials) {
            (Some(a), Some(b)) => a == b,
            (None, None) => true,
            _ => false,
        };
        if same {
            CredentialsDecision { changed: false, kill_agent: false }
        } else {
            let kill_agent = self.agent_running;
            self.last_credentials = stamp;
            self.agent_running = false;
            CredentialsDecision { changed: true, kill_agent }
        }
    }

    /// What to look at before deciding on a launch.
    pub fn next_check(&self) -> (c: AgentCheck)
        ensures
            c == check_for(self@),
    {
        if self.agent_running {
            AgentCheck::AgentExit
        } else {
            AgentCheck::CredentialsPresence
        }
    }

    /// Whether to launch the agent, given what the check saw: with no agent, when
    /// credentials exist; with one, when it has ended.
    pub fn decide_launch(&mut self, obs: Observation) -> (launch: bool)
        requires
            is_valid_view(old(self)@),
            observation_fits(old(self)@, obs),
        ensures
            (final(self)@, launch) == observed(old(self)@, obs),
            launch ==> !final(self)@.agent_running,
            is_valid_view(final(self)@),
    {
        match obs {
            Observation::Credentials { present } => present,
            Observation::AgentExited => {
                self.agent_running = false;
                true
            },
            Observation::AgentRunning => false,
            Observation::WaitFailed => false,
        }
    }

    /// After a launch attempt: a started agent resets the wait; a failed launch
    /// returns the pause to take and doubles the next one, up to `MAX_BACKOFF_SECS`.
    pub fn on_launch(&mut self, started: bool) -> (pause: Option<u64>)
        requires
            is_valid_view(old(self)@),
            !old(self)@.agent_running,
        ensures
            (final(self)@, pause) == launched(old(self)@, started),
            is_valid_view(final(self)@),
    {
        if started {
            self.agent_running = true;
            self.backoff_secs = INITIAL_BACKOFF_SECS;
            None
        } else {
            let pause = self.backoff_secs;
            self.backoff_secs = if self.backoff_secs < MAX_BACKOFF_SECS / 2 {
                self.backoff_secs * 2
            } else {
                MAX_BACKOFF_SECS
            };
            Some(pause)
        }
    }
}

} // verus!
