//! The sidecar supervisor: ownership of the child process, the lifecycle
//! state, and the event-driven machines for start, shutdown and restart.
//!
//! The machines decide; an unverified driver performs the prescribed actions
//! (probe the port, spawn, poll health, send signals, sleep) and feeds the
//! observed events back in. Every step states exactly how the manager's
//! handle and state move.

use vstd::prelude::*;
use crate::error::StartupError;
use crate::state::{SidecarState, spec_startable, valid_transition};

verus! {

/// How many times the shutdown sequence polls for a graceful exit after
/// `Terminate`, one poll per sleep of [`GRACE_POLL_SLEEP_MS`].
pub const GRACE_POLLS: u32 = 20;

/// Sleep before each graceful-exit poll.
pub const GRACE_POLL_SLEEP_MS: u64 = 100;

/// Settle time granted after `Kill` before the handle is cleared.
pub const KILL_SETTLE_MS: u64 = 500;

/// Pause between the teardown and start phases of a restart.
pub const RESTART_PAUSE_MS: u64 = 500;

/// Identifies at most one live child process. The driver keeps the real
/// operating-system handle beside it under the same process id.
#[derive(Debug, Clone, Copy, PartialEq, Eq, Structural)]
pub struct ProcessHandle {
    /// Process id of the child.
    pub pid: u32,
}

impl ProcessHandle {
    /// The process identifier, for signalling and diagnostics.
    pub fn id(&self) -> (r: u32)
        ensures
            r == self.pid,
    {
        self.pid
    }
}

/// Owns the (at most one) sidecar process handle and the lifecycle state.
/// The driver must serialize `start`, `shutdown` and `restart` against one
/// manager; the machines below assume no interleaving.
#[derive(Debug, Clone)]
pub struct SidecarManager {
    /// Handle of the tracked child process; `None` when none is tracked.
    pub process: Option<ProcessHandle>,
    /// Current lifecycle state.
    pub state: SidecarState,
    /// Whether an automatic restart has been attempted this session.
    pub restart_attempted: bool,
}

impl SidecarManager {
    /// Consistency of handle and state: a starting or healthy sidecar has a
    /// process; a stopped one has none. `Failed` and `Restarting` may hold a
    /// handle that teardown has not yet cleared.
    pub open spec fn inv(self) -> bool {
        &&& (self.state is Starting || self.state is Healthy) ==> self.process is Some
        &&& self.state is Stopped ==> self.process is None
    }

    /// A fresh manager: nothing running, nothing attempted.
    pub fn new() -> (r: SidecarManager)
        ensures
            r.process is None,
            r.state is Stopped,
            !r.restart_attempted,
            r.inv(),
    {
        SidecarManager { process: None, state: SidecarState::Stopped, restart_attempted: false }
    }

    /// Begin a host-requested shutdown: with no owned process this is a
    /// no-op and yields no sequence; otherwise the returned sequence will
    /// escalate signals against the owned process and, once completed, set
    /// the state to `Stopped`.
    pub fn begin_shutdown(&self) -> (r: Option<ShutdownSequence>)
        requires
            self.inv(),
        ensures
            (r is None) <==> (self.process is None),
            r matches Some(s) ==> {
                &&& self.process matches Some(h) && s.pid == h.pid
                &&& s.phase is SignalTerm
                &&& !s.kill_sent
                &&& s.set_stopped
                &&& s.polls@ == Seq::<bool>::empty()
                &&& s.inv()
            },
    {
        match &self.process {
            None => None,
            Some(h) => Some(
                ShutdownSequence {
                    pid: h.pid,
                    phase: ShutdownPhase::SignalTerm,
                    kill_sent: false,
                    set_stopped: true,
                    polls: Ghost(Seq::empty()),
                },
            ),
        }
    }

    /// Begin an internal teardown, as run inside a failed start or a restart:
    /// the same signal escalation, but completion leaves the lifecycle state
    /// where it is (`Failed` or `Restarting`) and only clears the handle.
    pub fn begin_teardown(&self) -> (r: Option<ShutdownSequence>)
        requires
            self.inv(),
            self.state is Failed || self.state is Restarting,
        ensures
            (r is None) <==> (self.process is None),
            r matches Some(s) ==> {
                &&& self.process matches Some(h) && s.pid == h.pid
                &&& s.phase is SignalTerm
                &&& !s.kill_sent
                &&& !s.set_stopped
                &&& s.polls@ == Seq::<bool>::empty()
                &&& s.inv()
            },
    {
        match &self.process {
            None => None,
            Some(h) => Some(
                ShutdownSequence {
                    pid: h.pid,
                    phase: ShutdownPhase::SignalTerm,
                    kill_sent: false,
                    set_stopped: false,
                    polls: Ghost(Seq::empty()),
                },
            ),
        }
    }

    /// Enter the restart phase: the state becomes `Restarting` while the old
    /// process (if any) is torn down; the handle is untouched here.
    pub fn begin_restart(&mut self)
        requires
            old(self).inv(),
        ensures
            final(self).state is Restarting,
            final(self).process == old(self).process,
            final(self).restart_attempted == old(self).restart_attempted,
            final(self).inv(),
            valid_transition(old(self).state, final(self).state),
    {
        self.state = SidecarState::Restarting;
    }
}

impl Default for SidecarManager {
    /// Same as [`SidecarManager::new`].
    fn default() -> (r: Self)
        ensures
            r.process is None,
            r.state is Stopped,
            !r.restart_attempted,
            r.inv(),
    {
        SidecarManager::new()
    }
}

/// The two signals the supervisor may send, graceful first.
#[derive(Debug, Clone, Copy, PartialEq, Eq, Structural)]
pub enum SignalKind {
    /// Ask the process to exit (SIGTERM-like).
    Terminate,
    /// Force the process down (SIGKILL-like).
    Kill,
}

/// What the shutdown driver must do next.
#[derive(Debug, Clone, Copy, PartialEq, Eq, Structural)]
pub enum ShutdownAction {
    /// Send the given signal to the process; delivery failure is logged, not
    /// fatal, and reported back as the signal having been attempted.
    SendSignal { pid: u32, kind: SignalKind },
    /// Sleep, then poll the exit status once, and report whether the process
    /// has exited.
    SleepAndPoll { pid: u32, sleep_ms: u64 },
    /// Sleep the settle window after `Kill`, poll the exit status once for
    /// the log, and report back regardless of the outcome.
    SettleAndPoll { pid: u32, sleep_ms: u64 },
    /// Clear the handle via [`ShutdownSequence::complete`].
    Finish,
}

/// Phase of the shutdown escalation.
#[derive(Debug, Clone, Copy, PartialEq, Eq, Structural)]
pub enum ShutdownPhase {
    /// `Terminate` is still to be sent.
    SignalTerm,
    /// Waiting for a graceful exit, with this many polls left in the grace
    /// window.
    AwaitExit { polls_left: u32 },
    /// The grace window elapsed without an exit; `Kill` is still to be sent.
    SignalKill,
    /// `Kill` was sent; the settle window is still to pass.
    Settle,
    /// The sequence is over; only completion remains.
    Finished,
}

/// The graceful-then-forceful shutdown machine for one owned process:
/// `Terminate`, then up to [`GRACE_POLLS`] exit polls, then — only if the
/// process never exited — a single `Kill` and a settle window. Completion
/// clears the manager's handle whether or not the exit was confirmed.
pub struct ShutdownSequence {
    /// Process being shut down.
    pub pid: u32,
    /// Current phase.
    pub phase: ShutdownPhase,
    /// Whether `Kill` has been sent.
    pub kill_sent: bool,
    /// Whether completion sets the lifecycle state to `Stopped` (host
    /// shutdown) or leaves it untouched (internal teardown).
    pub set_stopped: bool,
    /// Outcome of every graceful-exit poll so far, `true` meaning the
    /// process had exited.
    pub polls: Ghost<Seq<bool>>,
}

impl ShutdownSequence {
    /// Well-formedness: the polls recorded match the phase, `Kill` is only
    /// ever sent after a full grace window in which every poll saw the
    /// process still running, and a graceful exit ends the sequence with no
    /// `Kill`.
    pub open spec fn inv(self) -> bool {
        match self.phase {
            ShutdownPhase::SignalTerm => self.polls@.len() == 0 && !self.kill_sent,
            ShutdownPhase::AwaitExit { polls_left } => {
                &&& 1 <= polls_left <= GRACE_POLLS
                &&& self.polls@.len() == GRACE_POLLS - polls_left
                &&& forall|i: int| 0 <= i < self.polls@.len() ==> !(#[trigger] self.polls@[i])
                &&& !self.kill_sent
            },
            ShutdownPhase::SignalKill => {
                &&& self.polls@.len() == GRACE_POLLS
                &&& forall|i: int| 0 <= i < self.polls@.len() ==> !(#[trigger] self.polls@[i])
                &&& !self.kill_sent
            },
            ShutdownPhase::Settle => {
                &&& self.polls@.len() == GRACE_POLLS
                &&& forall|i: int| 0 <= i < self.polls@.len() ==> !(#[trigger] self.polls@[i])
                &&& self.kill_sent
            },
            ShutdownPhase::Finished => {
                self.kill_sent ==> (self.polls@.len() == GRACE_POLLS && forall|i: int|
                    0 <= i < self.polls@.len() ==> !(#[trigger] self.polls@[i]))
            },
        }
    }

    /// What the driver must do next in this phase.
    pub fn next_action(&self) -> (r: ShutdownAction)
        requires
            self.inv(),
        ensures
            self.phase is SignalTerm ==> r == (ShutdownAction::SendSignal {
                pid: self.pid,
                kind: SignalKind::Terminate,
            }),
            self.phase is AwaitExit ==> r == (ShutdownAction::SleepAndPoll {
                pid: self.pid,
                sleep_ms: GRACE_POLL_SLEEP_MS,
            }),
            self.phase is SignalKill ==> r == (ShutdownAction::SendSignal {
                pid: self.pid,
                kind: SignalKind::Kill,
            }),
            self.phase is Settle ==> r == (ShutdownAction::SettleAndPoll {
                pid: self.pid,
                sleep_ms: KILL_SETTLE_MS,
            }),
            self.phase is Finished ==> r is Finish,
    {
        match self.phase {
            ShutdownPhase::SignalTerm => ShutdownAction::SendSignal {
                pid: self.pid,
                kind: SignalKind::Terminate,
            },
            ShutdownPhase::AwaitExit { .. } => ShutdownAction::SleepAndPoll {
                pid: self.pid,
                sleep_ms: GRACE_POLL_SLEEP_MS,
            },
            ShutdownPhase::SignalKill => ShutdownAction::SendSignal {
                pid: self.pid,
                kind: SignalKind::Kill,
            },
            ShutdownPhase::Settle => ShutdownAction::SettleAndPoll {
                pid: self.pid,
                sleep_ms: KILL_SETTLE_MS,
            },
            ShutdownPhase::Finished => ShutdownAction::Finish,
        }
    }

    /// The driver attempted to send the prescribed signal (delivery failure
    /// included): after `Terminate` the grace window opens; after `Kill` the
    /// settle window opens.
    pub fn on_signal_sent(&mut self)
        requires
            old(self).inv(),
            old(self).phase is SignalTerm || old(self).phase is SignalKill,
        ensures
            final(self).inv(),
            final(self).pid == old(self).pid,
            final(self).set_stopped == old(self).set_stopped,
            final(self).polls@ == old(self).polls@,
            old(self).phase is SignalTerm ==> final(self).phase == (ShutdownPhase::AwaitExit {
                polls_left: GRACE_POLLS,
            }) && final(self).kill_sent == old(self).kill_sent,
            old(self).phase is SignalKill ==> final(self).phase is Settle && final(self).kill_sent,
    {
        match self.phase {
            ShutdownPhase::SignalTerm => {
                self.phase = ShutdownPhase::AwaitExit { polls_left: GRACE_POLLS };
            },
            _ => {
                self.kill_sent = true;
                self.phase = ShutdownPhase::Settle;
            },
        }
    }

    /// The driver slept and polled the exit status once. A confirmed exit
    /// finishes the sequence gracefully; otherwise the grace window shrinks
    /// by one poll, escalating to `Kill` when it is spent.
    pub fn on_exit_poll(&mut self, exited: bool)
        requires
            old(self).inv(),
            old(self).phase is AwaitExit,
        ensures
            final(self).inv(),
            final(self).pid == old(self).pid,
            final(self).set_stopped == old(self).set_stopped,
            final(self).kill_sent == old(self).kill_sent,
            final(self).polls@ == old(self).polls@.push(exited),
            exited ==> final(self).phase is Finished,
            !exited && (old(self).phase matches ShutdownPhase::AwaitExit { polls_left } && polls_left
                > 1) ==> final(self).phase == (ShutdownPhase::AwaitExit {
                polls_left: (old(self).phase->AwaitExit_polls_left - 1) as u32,
            }),
            !exited && old(self).phase == (ShutdownPhase::AwaitExit { polls_left: 1u32 })
                ==> final(self).phase is SignalKill,
    {
        let polls_left = match self.phase {
            ShutdownPhase::AwaitExit { polls_left } => polls_left,
            _ => 0,
        };
        self.polls = Ghost(self.polls@.push(exited));
        if exited {
            self.phase = ShutdownPhase::Finished;
        } else if polls_left > 1 {
            self.phase = ShutdownPhase::AwaitExit { polls_left: polls_left - 1 };
        } else {
            self.phase = ShutdownPhase::SignalKill;
        }
    }

    /// The settle window after `Kill` has passed (the final exit poll is
    /// only logged): the sequence is over.
    pub fn on_settled(&mut self)
        requires
            old(self).inv(),
            old(self).phase is Settle,
        ensures
            final(self).inv(),
            final(self).pid == old(self).pid,
            final(self).set_stopped == old(self).set_stopped,
            final(self).kill_sent == old(self).kill_sent,
            final(self).polls@ == old(self).polls@,
            final(self).phase is Finished,
    {
        self.phase = ShutdownPhase::Finished;
    }

    /// Complete the sequence against the manager it was begun from: the
    /// handle is cleared regardless of whether the exit could be confirmed,
    /// and a host shutdown sets the state to `Stopped` while an internal
    /// teardown leaves it untouched.
    pub fn complete(&self, m: &mut SidecarManager)
        requires
            self.inv(),
            self.phase is Finished,
            old(m).inv(),
            old(m).process matches Some(h) && h.pid == self.pid,
            !self.set_stopped ==> old(m).state is Failed || old(m).state is Restarting,
        ensures
            final(m).process is None,
            self.set_stopped ==> final(m).state is Stopped,
            !self.set_stopped ==> final(m).state == old(m).state,
            final(m).restart_attempted == old(m).restart_attempted,
            final(m).inv(),
            self.set_stopped ==> valid_transition(old(m).state, final(m).state),
    {
        m.process = None;
        if self.set_stopped {
            m.state = SidecarState::Stopped;
        }
    }
}

/// A process that exited within the grace window was never sent `Kill`.
pub proof fn lemma_graceful_exit_no_kill(s: ShutdownSequence)
    requires
        s.inv(),
        s.phase is Finished,
        exists|i: int| 0 <= i < s.polls@.len() && #[trigger] s.polls@[i],
    ensures
        !s.kill_sent,
{
}

/// `Kill` is sent only after the full grace window, every poll of which saw
/// the process still running — and the phase order allows it at most once.
pub proof fn lemma_kill_only_after_full_grace_window(s: ShutdownSequence)
    requires
        s.inv(),
        s.kill_sent,
    ensures
        s.polls@.len() == GRACE_POLLS,
        forall|i: int| 0 <= i < s.polls@.len() ==> !(#[trigger] s.polls@[i]),
{
}

/// What the start driver must do next.
#[derive(Debug)]
pub enum StartAction {
    /// Check that nothing is bound on the sidecar's port.
    ProbePort { port: u16 },
    /// Spawn the sidecar process and report its pid, or the failure detail.
    SpawnProcess,
    /// Run the health-check polling loop and report its verdict.
    PollHealth,
    /// Tear the just-failed process down with a [`ShutdownSequence`] from
    /// [`SidecarManager::begin_teardown`], then report back.
    TearDown,
    /// Surface this result to the caller.
    Complete { result: Result<(), StartupError> },
}

/// Phase of a start attempt.
#[derive(Debug)]
pub enum StartPhase {
    /// The port precondition is still to be checked.
    ProbePort,
    /// The process is still to be spawned.
    Spawn,
    /// The health poll is still to deliver a verdict.
    AwaitHealth,
    /// The attempt failed after the spawn; the process is being torn down.
    CleanUp { reason: StartupError },
    /// The attempt is over with this result.
    Done { result: Result<(), StartupError> },
}

/// The start machine: port precondition, then spawn, then health polling,
/// with an internal teardown on any failure after the spawn — a failed start
/// never leaves a process handle owned.
pub struct StartSequence {
    /// Port checked by the precondition.
    pub port: u16,
    /// Current phase.
    pub phase: StartPhase,
}

impl StartSequence {
    /// Agreement between the machine's phase and the manager it drives. In
    /// particular, a finished failed attempt has cleared the handle and left
    /// the state `Failed` with the surfaced reason, and a finished successful
    /// attempt holds the handle with state `Healthy`.
    pub open spec fn consistent_with(self, m: SidecarManager) -> bool {
        &&& m.inv()
        &&& match self.phase {
            StartPhase::ProbePort => m.process is None && spec_startable(m.state),
            StartPhase::Spawn => m.process is None && spec_startable(m.state),
            StartPhase::AwaitHealth => m.process is Some && m.state is Starting,
            StartPhase::CleanUp { reason } => m.state == SidecarState::Failed(reason),
            StartPhase::Done { result } => match result {
                Ok(_) => m.process is Some && m.state is Healthy,
                Err(e) => m.process is None && m.state == SidecarState::Failed(e),
            },
        }
    }

    /// Begin a start attempt on a manager with no owned process, in a state
    /// that permits starting.
    pub fn begin(m: &SidecarManager, port: u16) -> (r: StartSequence)
        requires
            m.inv(),
            m.process is None,
            spec_startable(m.state),
        ensures
            r.phase is ProbePort,
            r.port == port,
            r.consistent_with(*m),
    {
        StartSequence { port, phase: StartPhase::ProbePort }
    }

    /// What the driver must do next in this phase.
    pub fn next_action(&self) -> (r: StartAction)
        ensures
            self.phase is ProbePort ==> r == (StartAction::ProbePort { port: self.port }),
            self.phase is Spawn ==> r is SpawnProcess,
            self.phase is AwaitHealth ==> r is PollHealth,
            self.phase is CleanUp ==> r is TearDown,
            self.phase matches StartPhase::Done { result } ==> r == (StartAction::Complete {
                result,
            }),
    {
        match &self.phase {
            StartPhase::ProbePort => StartAction::ProbePort { port: self.port },
            StartPhase::Spawn => StartAction::SpawnProcess,
            StartPhase::AwaitHealth => StartAction::PollHealth,
            StartPhase::CleanUp { .. } => StartAction::TearDown,
            StartPhase::Done { result } => {
                let duplicated: Result<(), StartupError> = match result {
                    Ok(u) => {
                        proof {
                            // the payload of Ok is the unit value
                            assert(*u == ());
                        }
                        Ok(())
                    },
                    Err(e) => Err(e.duplicate()),
                };
                StartAction::Complete { result: duplicated }
            },
        }
    }

    /// The port was probed: free means the spawn may proceed; bound means
    /// the attempt fails with `PortInUse` before any process exists.
    pub fn on_port_probed(&mut self, m: &mut SidecarManager, available: bool)
        requires
            old(self).phase is ProbePort,
            old(self).consistent_with(*old(m)),
        ensures
            final(self).consistent_with(*final(m)),
            final(self).port == old(self).port,
            final(m).process == old(m).process,
            final(m).restart_attempted == old(m).restart_attempted,
            available ==> final(self).phase is Spawn && final(m).state == old(m).state,
            !available ==> final(self).phase == (StartPhase::Done {
                result: Err(StartupError::PortInUse),
            }) && final(m).state == SidecarState::Failed(StartupError::PortInUse),
            valid_transition(old(m).state, final(m).state) || final(m).state == old(m).state,
    {
        if available {
            self.phase = StartPhase::Spawn;
        } else {
            m.state = SidecarState::Failed(StartupError::PortInUse);
            self.phase = StartPhase::Done { result: Err(StartupError::PortInUse) };
        }
    }

    /// The spawn was attempted: on success the manager owns the new handle
    /// and enters `Starting`; on failure the attempt ends with
    /// `SidecarSpawnFailed` and no process was ever created.
    pub fn on_spawned(&mut self, m: &mut SidecarManager, spawn_result: Result<u32, String>)
        requires
            old(self).phase is Spawn,
            old(self).consistent_with(*old(m)),
        ensures
            final(self).consistent_with(*final(m)),
            final(self).port == old(self).port,
            final(m).restart_attempted == old(m).restart_attempted,
            spawn_result matches Ok(pid) ==> {
                &&& final(self).phase is AwaitHealth
                &&& final(m).process == Some(ProcessHandle { pid })
                &&& final(m).state is Starting
            },
            spawn_result matches Err(detail) ==> {
                &&& final(self).phase == (StartPhase::Done {
                    result: Err(StartupError::SidecarSpawnFailed(detail)),
                })
                &&& final(m).process is None
                &&& final(m).state == SidecarState::Failed(StartupError::SidecarSpawnFailed(detail))
            },
            valid_transition(old(m).state, final(m).state),
    {
        match spawn_result {
            Ok(pid) => {
                m.process = Some(ProcessHandle { pid });
                m.state = SidecarState::Starting;
                self.phase = StartPhase::AwaitHealth;
            },
            Err(detail) => {
                m.state = SidecarState::Failed(StartupError::SidecarSpawnFailed(detail.clone()));
                self.phase = StartPhase::Done {
                    result: Err(StartupError::SidecarSpawnFailed(detail)),
                };
            },
        }
    }

    /// The health poll finished: healthy means the attempt succeeds with the
    /// handle kept; otherwise the state records the reason and the spawned
    /// process must be torn down before the error surfaces.
    pub fn on_health_checked(&mut self, m: &mut SidecarManager, health: Result<(), StartupError>)
        requires
            old(self).phase is AwaitHealth,
            old(self).consistent_with(*old(m)),
        ensures
            final(self).consistent_with(*final(m)),
            final(self).port == old(self).port,
            final(m).process == old(m).process,
            final(m).restart_attempted == old(m).restart_attempted,
            health is Ok ==> final(self).phase == (StartPhase::Done { result: Ok(()) })
                && final(m).state is Healthy,
            health matches Err(e) ==> final(self).phase == (StartPhase::CleanUp { reason: e })
                && final(m).state == SidecarState::Failed(e),
            valid_transition(old(m).state, final(m).state),
    {
        match health {
            Ok(_) => {
                m.state = SidecarState::Healthy;
                self.phase = StartPhase::Done { result: Ok(()) };
            },
            Err(e) => {
                m.state = SidecarState::Failed(e.duplicate());
                self.phase = StartPhase::CleanUp { reason: e };
            },
        }
    }

    /// The internal teardown has completed (the manager's handle is cleared,
    /// its state still `Failed` with the reason): the attempt ends with that
    /// reason.
    pub fn on_cleanup_done(&mut self, m: &SidecarManager)
        requires
            old(self).phase is CleanUp,
            old(self).consistent_with(*m),
            m.process is None,
        ensures
            final(self).port == old(self).port,
            final(self).phase == (StartPhase::Done {
                result: Err(old(self).phase->CleanUp_reason),
            }),
            final(self).consistent_with(*m),
    {
        let reason = match &self.phase {
            StartPhase::CleanUp { reason } => reason.duplicate(),
            _ => StartupError::HealthCheckTimeout,
        };
        self.phase = StartPhase::Done { result: Err(reason) };
    }
}

/// A finished failed start attempt never leaves a process handle owned: the
/// manager's handle is cleared and its state records the surfaced reason.
pub proof fn lemma_failed_start_leaves_no_handle(s: StartSequence, m: SidecarManager)
    requires
        s.consistent_with(m),
        s.phase matches StartPhase::Done { result } && result is Err,
    ensures
        m.process is None,
        m.state == SidecarState::Failed(s.phase->Done_result->Err_0),
{
}

/// At the boundary between the teardown and start phases of a restart the
/// state is `Restarting` — never `Healthy` nor a stale `Starting` — no handle
/// is owned, and a new start attempt may begin.
pub proof fn lemma_restart_boundary(m: SidecarManager)
    requires
        m.inv(),
        m.state is Restarting,
        m.process is None,
    ensures
        spec_startable(m.state),
        !(m.state is Healthy),
        !(m.state is Starting),
{
}

} // verus!
