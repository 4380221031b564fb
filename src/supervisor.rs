use vstd::prelude::*;

use crate::probe::Liveness;
use crate::registry::ProcessDescriptor;
use crate::termination::TerminationOutcome;

verus! {

/// The runtime identity of a backend instance that this session started.
#[derive(Clone, Copy, Debug, PartialEq, Eq, Structural)]
pub struct BackendHandle {
    pub pid: u32,
    pub start_time: u64,
}

impl BackendHandle {
    /// The process that this handle names.
    pub fn descriptor(&self) -> (d: ProcessDescriptor)
        ensures
            d == handle_descriptor(*self),
    {
        ProcessDescriptor { pid: self.pid, start_time: self.start_time }
    }
}

pub open spec fn handle_descriptor(h: BackendHandle) -> ProcessDescriptor {
    ProcessDescriptor { pid: h.pid, start_time: h.start_time }
}

/// Where a start is in its sequence.
#[derive(Clone, Copy, Debug, PartialEq, Eq, Structural)]
pub enum StartStep {
    AwaitProbe,
    AwaitScan,
    /// Stale instances are being stopped, one at a time.
    Terminating,
    AwaitSpawn,
}

/// Where a stop is in its sequence.
#[derive(Clone, Copy, Debug, PartialEq, Eq, Structural)]
pub enum StopStep {
    /// No handle was retained: the process table is being scanned.
    AwaitScan,
    Terminating,
}

/// The lifecycle state of the backend as this session sees it.
#[derive(Clone, Copy, Debug, PartialEq, Eq, Structural)]
pub enum SupervisorState {
    Stopped,
    Starting(StartStep),
    /// Running; the handle is known when this session spawned the instance, and
    /// absent when an instance that was already alive was adopted.
    Running(Option<BackendHandle>),
    Stopping(StopStep),
}

/// What the outside world reports back to the supervisor.
#[derive(Clone, Debug)]
pub enum Event {
    /// The shell wants the backend running.
    EnsureRunning,
    /// The shell's main window is gone.
    Shutdown,
    Probed(Liveness),
    /// A snapshot of the matching processes.
    Scanned(Vec<ProcessDescriptor>),
    TerminationDone(TerminationOutcome),
    Spawned(BackendHandle),
    SpawnFailed,
}

/// Errors that the supervisor hands to the shell.
#[derive(Clone, Copy, Debug, PartialEq, Eq, Structural)]
pub enum SupervisorError {
    /// The backend executable could not be started.
    SpawnFailure,
    /// A stale instance could not be stopped, so no new one was started.
    TerminationFailed,
}

/// What the supervisor asks its driver to do next.
#[derive(Clone, Copy, Debug, PartialEq, Eq, Structural)]
pub enum Action {
    /// Nothing to do.
    Idle,
    Probe,
    Scan,
    Terminate(ProcessDescriptor),
    /// Start the backend executable without waiting for it to be ready.
    Spawn,
    Fail(SupervisorError),
}

/// The abstract state of a supervisor.
pub struct SupervisorModel {
    pub state: SupervisorState,
    /// Processes still to be stopped in the current sequence.
    pub pending: Seq<ProcessDescriptor>,
    /// Set by a shutdown and cleared by the next spawn: while set, an instance
    /// that a probe reports alive is not adopted.
    pub after_shutdown: bool,
    /// A liveness probe is in flight; the state stays `Stopped` until it
    /// answers, so that an instance found alive is taken over directly.
    pub probing: bool,
    /// A shutdown arrived while a start was under way: the start spawns
    /// nothing more, and an instance that it already spawned is stopped.
    pub stop_requested: bool,
}

/// Single owner of the backend's lifecycle in one application session.
pub struct Supervisor {
    state: SupervisorState,
    pending: Vec<ProcessDescriptor>,
    after_shutdown: bool,
    probing: bool,
    stop_requested: bool,
}

impl View for Supervisor {
    type V = SupervisorModel;

    closed spec fn view(&self) -> SupervisorModel {
        SupervisorModel {
            state: self.state,
            pending: self.pending@,
            after_shutdown: self.after_shutdown,
            probing: self.probing,
            stop_requested: self.stop_requested,
        }
    }
}

/// The state of a fresh session.
pub open spec fn initial() -> SupervisorModel {
    SupervisorModel {
        state: SupervisorState::Stopped,
        pending: Seq::empty(),
        after_shutdown: false,
        probing: false,
        stop_requested: false,
    }
}

/// The state after a start or a stop has ended in `Stopped`.
pub open spec fn stopped(m: SupervisorModel) -> SupervisorModel {
    SupervisorModel {
        state: SupervisorState::Stopped,
        pending: Seq::empty(),
        probing: false,
        stop_requested: false,
        ..m
    }
}

/// The state of stopping the instance `h` that this session spawned.
pub open spec fn stopping_handle(h: BackendHandle) -> (SupervisorModel, Action) {
    (
        SupervisorModel {
            state: SupervisorState::Stopping(StopStep::Terminating),
            pending: Seq::empty(),
            after_shutdown: true,
            probing: false,
            stop_requested: false,
        },
        Action::Terminate(handle_descriptor(h)),
    )
}

/// Continues a start or a stop with `todo` still to be stopped: the last one
/// is handed out; when none is left a start spawns (unless a shutdown came
/// meanwhile) and a stop is done.
pub open spec fn continue_with(m: SupervisorModel, todo: Seq<ProcessDescriptor>, starting: bool) -> (
    SupervisorModel,
    Action,
) {
    if todo.len() == 0 {
        if starting && !m.stop_requested {
            (
                SupervisorModel {
                    state: SupervisorState::Starting(StartStep::AwaitSpawn),
                    pending: Seq::empty(),
                    ..m
                },
                Action::Spawn,
            )
        } else {
            (stopped(m), Action::Idle)
        }
    } else {
        (
            SupervisorModel {
                state: if starting {
                    SupervisorState::Starting(StartStep::Terminating)
                } else {
                    SupervisorState::Stopping(StopStep::Terminating)
                },
                pending: todo.drop_last(),
                ..m
            },
            Action::Terminate(todo.last()),
        )
    }
}

/// The transition function: the next state and the action for event `e`.
/// An event that does not fit the current state changes nothing.
pub open spec fn next(m: SupervisorModel, e: Event) -> (SupervisorModel, Action) {
    let unchanged = (m, Action::Idle);
    match e {
        Event::EnsureRunning => if m.state == SupervisorState::Stopped && !m.probing {
            (SupervisorModel { pending: Seq::empty(), probing: true, ..m }, Action::Probe)
        } else {
            unchanged
        },
        Event::Shutdown => match m.state {
            SupervisorState::Running(Some(h)) => stopping_handle(h),
            SupervisorState::Running(None) => (
                SupervisorModel {
                    state: SupervisorState::Stopping(StopStep::AwaitScan),
                    pending: Seq::empty(),
                    after_shutdown: true,
                    probing: false,
                    stop_requested: false,
                },
                Action::Scan,
            ),
            SupervisorState::Stopped => if m.probing {
                (SupervisorModel { probing: false, after_shutdown: true, ..m }, Action::Idle)
            } else {
                unchanged
            },
            SupervisorState::Starting(_) => (
                SupervisorModel { stop_requested: true, after_shutdown: true, ..m },
                Action::Idle,
            ),
            _ => unchanged,
        },
        Event::Probed(l) => if m.state == SupervisorState::Stopped && m.probing {
            if l == Liveness::Alive && !m.after_shutdown {
                (
                    SupervisorModel {
                        state: SupervisorState::Running(None),
                        pending: Seq::empty(),
                        after_shutdown: false,
                        probing: false,
                        stop_requested: false,
                    },
                    Action::Idle,
                )
            } else {
                (
                    SupervisorModel {
                        state: SupervisorState::Starting(StartStep::AwaitScan),
                        probing: false,
                        ..m
                    },
                    Action::Scan,
                )
            }
        } else {
            unchanged
        },
        Event::Scanned(found) => match m.state {
            SupervisorState::Starting(StartStep::AwaitScan) => continue_with(m, found@, true),
            SupervisorState::Stopping(StopStep::AwaitScan) => continue_with(m, found@, false),
            _ => unchanged,
        },
        Event::TerminationDone(outcome) => match m.state {
            SupervisorState::Starting(StartStep::Terminating) => if outcome is Failed {
                (stopped(m), Action::Fail(SupervisorError::TerminationFailed))
            } else {
                continue_with(m, m.pending, true)
            },
            SupervisorState::Stopping(StopStep::Terminating) => continue_with(m, m.pending, false),
            _ => unchanged,
        },
        Event::Spawned(h) => match m.state {
            SupervisorState::Starting(StartStep::AwaitSpawn) => if m.stop_requested {
                stopping_handle(h)
            } else {
                (
                    SupervisorModel {
                        state: SupervisorState::Running(Some(h)),
                        pending: Seq::empty(),
                        after_shutdown: false,
                        probing: false,
                        stop_requested: false,
                    },
                    Action::Idle,
                )
            },
            _ => unchanged,
        },
        Event::SpawnFailed => match m.state {
            SupervisorState::Starting(StartStep::AwaitSpawn) => (
                stopped(m),
                Action::Fail(SupervisorError::SpawnFailure),
            ),
            _ => unchanged,
        },
    }
}

impl Supervisor {
    /// A supervisor for a fresh session: stopped, with nothing recorded.
    pub fn new() -> (s: Self)
        ensures
            s@ == initial(),
            wf(s@),
    {
        let s = Supervisor {
            state: SupervisorState::Stopped,
            pending: Vec::new(),
            after_shutdown: false,
            probing: false,
            stop_requested: false,
        };
        assert(s@.pending =~= Seq::<ProcessDescriptor>::empty());
        s
    }

    /// The current lifecycle state.
    pub fn state(&self) -> (st: SupervisorState)
        ensures
            st == self@.state,
    {
        self.state
    }

    /// Whether a liveness probe is awaited.
    pub fn probing(&self) -> (b: bool)
        ensures
            b == self@.probing,
    {
        self.probing
    }

    /// Whether a shutdown is waiting for the current start to end.
    pub fn stop_requested(&self) -> (b: bool)
        ensures
            b == self@.stop_requested,
    {
        self.stop_requested
    }

    /// The handle of the instance this session spawned, if it is running.
    pub fn handle(&self) -> (h: Option<BackendHandle>)
        ensures
            h == (match self@.state {
                SupervisorState::Running(h) => h,
                _ => None,
            }),
    {
        match self.state {
            SupervisorState::Running(h) => h,
            _ => None,
        }
    }

    fn become_stopped(&mut self)
        ensures
            final(self)@ == stopped(old(self)@),
    {
        self.state = SupervisorState::Stopped;
        self.pending = Vec::new();
        self.probing = false;
        self.stop_requested = false;
        assert(self@.pending =~= Seq::<ProcessDescriptor>::empty());
    }

    fn stop_handle(&mut self, h: BackendHandle) -> (a: Action)
        ensures
            (final(self)@, a) == stopping_handle(h),
    {
        self.state = SupervisorState::Stopping(StopStep::Terminating);
        self.pending = Vec::new();
        self.after_shutdown = true;
        self.probing = false;
        self.stop_requested = false;
        assert(self@.pending =~= Seq::<ProcessDescriptor>::empty());
        Action::Terminate(h.descriptor())
    }

    /// Hands out the next process still to be stopped, or, when none is
    /// left, moves on: a start to spawning, a stop to `Stopped`.
    fn advance(&mut self, starting: bool) -> (a: Action)
        ensures
            (final(self)@, a) == continue_with(old(self)@, old(self)@.pending, starting),
    {
        match self.pending.pop() {
            Some(d) => {
                self.state = if starting {
                    SupervisorState::Starting(StartStep::Terminating)
                } else {
                    SupervisorState::Stopping(StopStep::Terminating)
                };
                Action::Terminate(d)
            },
            None => {
                if starting && !self.stop_requested {
                    self.state = SupervisorState::Starting(StartStep::AwaitSpawn);
                    assert(self@.pending =~= Seq::<ProcessDescriptor>::empty());
                    Action::Spawn
                } else {
                    self.become_stopped();
                    Action::Idle
                }
            },
        }
    }

    /// Applies one event and returns what the driver must do next.
    pub fn step(&mut self, e: Event) -> (a: Action)
        ensures
            (final(self)@, a) == next(old(self)@, e),
            wf(old(self)@) ==> wf(final(self)@),
    {
        proof {
            if wf(self@) {
                next_preserves_wf(self@, e);
            }
        }
        match e {
            Event::EnsureRunning => {
                if self.state == SupervisorState::Stopped && !self.probing {
                    self.pending = Vec::new();
                    self.probing = true;
                    assert(self@.pending =~= Seq::<ProcessDescriptor>::empty());
                    Action::Probe
                } else {
                    Action::Idle
                }
            },
            Event::Shutdown => {
                match self.state {
                    SupervisorState::Running(Some(h)) => self.stop_handle(h),
                    SupervisorState::Running(None) => {
                        self.state = SupervisorState::Stopping(StopStep::AwaitScan);
                        self.pending = Vec::new();
                        self.after_shutdown = true;
                        self.probing = false;
                        self.stop_requested = false;
                        assert(self@.pending =~= Seq::<ProcessDescriptor>::empty());
                        Action::Scan
                    },
                    SupervisorState::Stopped => {
                        if self.probing {
                            self.probing = false;
                            self.after_shutdown = true;
                        }
                        Action::Idle
                    },
                    SupervisorState::Starting(_) => {
                        self.stop_requested = true;
                        self.after_shutdown = true;
                        Action::Idle
                    },
                    _ => Action::Idle,
                }
            },
            Event::Probed(l) => {
                if self.state == SupervisorState::Stopped && self.probing {
                    if l == Liveness::Alive && !self.after_shutdown {
                        self.state = SupervisorState::Running(None);
                        self.pending = Vec::new();
                        self.probing = false;
                        self.stop_requested = false;
                        assert(self@.pending =~= Seq::<ProcessDescriptor>::empty());
                        Action::Idle
                    } else {
                        self.state = SupervisorState::Starting(StartStep::AwaitScan);
                        self.probing = false;
                        Action::Scan
                    }
                } else {
                    Action::Idle
                }
            },
            Event::Scanned(found) => {
                match self.state {
                    SupervisorState::Starting(StartStep::AwaitScan) => {
                        self.pending = found;
                        self.advance(true)
                    },
                    SupervisorState::Stopping(StopStep::AwaitScan) => {
                        self.pending = found;
                        self.advance(false)
                    },
                    _ => Action::Idle,
                }
            },
            Event::TerminationDone(outcome) => {
                match self.state {
                    SupervisorState::Starting(StartStep::Terminating) => {
                        if let TerminationOutcome::Failed(_) = outcome {
                            self.become_stopped();
                            Action::Fail(SupervisorError::TerminationFailed)
                        } else {
                            self.advance(true)
                        }
                    },
                    SupervisorState::Stopping(StopStep::Terminating) => self.advance(false),
                    _ => Action::Idle,
                }
            },
            Event::Spawned(h) => {
                if self.state == SupervisorState::Starting(StartStep::AwaitSpawn) {
                    if self.stop_requested {
                        self.stop_handle(h)
                    } else {
                        self.state = SupervisorState::Running(Some(h));
                        self.pending = Vec::new();
                        self.after_shutdown = false;
                        self.probing = false;
                        assert(self@.pending =~= Seq::<ProcessDescriptor>::empty());
                        Action::Idle
                    }
                } else {
                    Action::Idle
                }
            },
            Event::SpawnFailed => {
                if self.state == SupervisorState::Starting(StartStep::AwaitSpawn) {
                    self.become_stopped();
                    Action::Fail(SupervisorError::SpawnFailure)
                } else {
                    Action::Idle
                }
            },
        }
    }

    /// Asks for the backend to be running. From `Stopped`, with no probe in
    /// flight, this asks for a liveness probe and stays `Stopped` until it
    /// answers; in any other case it changes nothing.
    pub fn ensure_running(&mut self) -> (a: Action)
        ensures
            (final(self)@, a) == next(old(self)@, Event::EnsureRunning),
            wf(old(self)@) ==> wf(final(self)@),
            old(self)@.state == SupervisorState::Stopped && !old(self)@.probing ==> a
                == Action::Probe && final(self)@.state == SupervisorState::Stopped
                && final(self)@.probing,
            !(old(self)@.state == SupervisorState::Stopped && !old(self)@.probing) ==> a
                == Action::Idle && final(self)@ == old(self)@,
    {
        self.step(Event::EnsureRunning)
    }

    /// Asks for the backend to be stopped. From `Running` this stops the
    /// recorded instance, or scans for it when no handle was retained. During
    /// a start it is recorded, and the start ends without leaving a backend
    /// behind. An awaited probe is abandoned. Otherwise it changes nothing.
    pub fn shutdown(&mut self) -> (a: Action)
        ensures
            (final(self)@, a) == next(old(self)@, Event::Shutdown),
            wf(old(self)@) ==> wf(final(self)@),
            old(self)@.state == SupervisorState::Stopped && !old(self)@.probing ==> a
                == Action::Idle && final(self)@ == old(self)@,
    {
        self.step(Event::Shutdown)
    }
}

/// Creates the session's supervisor and asks for the backend to be running:
/// the first action is the liveness probe that precedes any stop or start.
pub fn init_server() -> (r: (Supervisor, Action))
    ensures
        r.0@ == next(initial(), Event::EnsureRunning).0,
        r.0@.state == SupervisorState::Stopped,
        r.0@.probing,
        r.1 == Action::Probe,
        wf(r.0@),
{
    let mut s = Supervisor::new();
    let a = s.ensure_running();
    (s, a)
}

/// The state after the events `evs`, in order, starting from `m`.
pub open spec fn run(m: SupervisorModel, evs: Seq<Event>) -> SupervisorModel
    decreases evs.len(),
{
    if evs.len() == 0 {
        m
    } else {
        run(next(m, evs[0]).0, evs.drop_first())
    }
}

/// Whether event `e` records a newly spawned backend in state `m`.
pub open spec fn accepts_spawn(m: SupervisorModel, e: Event) -> bool {
    e is Spawned && m.state == SupervisorState::Starting(StartStep::AwaitSpawn)
}

/// How many spawned backends the events `evs` record, starting from `m`.
pub open spec fn spawn_count(m: SupervisorModel, evs: Seq<Event>) -> nat
    decreases evs.len(),
{
    if evs.len() == 0 {
        0
    } else {
        (if accepts_spawn(m, evs[0]) {
            1nat
        } else {
            0nat
        }) + spawn_count(next(m, evs[0]).0, evs.drop_first())
    }
}

/// No event of `evs` is a shutdown.
pub open spec fn no_shutdown(evs: Seq<Event>) -> bool {
    forall|i: int| 0 <= i < evs.len() ==> !(#[trigger] evs[i] is Shutdown)
}

proof fn lemma_no_shutdown_rest(evs: Seq<Event>)
    requires
        evs.len() > 0,
        no_shutdown(evs),
    ensures
        no_shutdown(evs.drop_first()),
        !(evs[0] is Shutdown),
{
    let rest = evs.drop_first();
    assert forall|i: int| 0 <= i < rest.len() implies !(#[trigger] rest[i] is Shutdown) by {
        assert(rest[i] == evs[i + 1]);
    }
}

proof fn lemma_running_spawns_none(m: SupervisorModel, evs: Seq<Event>)
    requires
        m.state is Running,
        no_shutdown(evs),
    ensures
        spawn_count(m, evs) == 0,
    decreases evs.len(),
{
    if evs.len() > 0 {
        lemma_no_shutdown_rest(evs);
        lemma_running_spawns_none(next(m, evs[0]).0, evs.drop_first());
    }
}

/// Idempotence of starting: from any state in which no shutdown is pending,
/// however many requests to run the backend and reports of probes, scans and
/// terminations arrive, at most one backend process is spawned until the
/// next shutdown.
pub proof fn ensure_running_spawns_at_most_once(m: SupervisorModel, evs: Seq<Event>)
    requires
        !m.stop_requested,
        no_shutdown(evs),
    ensures
        spawn_count(m, evs) <= 1,
    decreases evs.len(),
{
    if evs.len() > 0 {
        lemma_no_shutdown_rest(evs);
        let n = next(m, evs[0]).0;
        if accepts_spawn(m, evs[0]) {
            lemma_running_spawns_none(n, evs.drop_first());
        } else {
            ensure_running_spawns_at_most_once(n, evs.drop_first());
        }
    }
}

/// Holds from a shutdown until the next spawn: nothing has been adopted on
/// the word of a probe.
pub open spec fn adopts_nothing(m: SupervisorModel) -> bool {
    (m.after_shutdown && !(m.state is Running)) || (m.state matches SupervisorState::Running(
        Some(_),
    ))
}

proof fn lemma_run_adopts_nothing(m: SupervisorModel, evs: Seq<Event>)
    requires
        adopts_nothing(m),
        no_shutdown(evs),
    ensures
        adopts_nothing(run(m, evs)),
    decreases evs.len(),
{
    if evs.len() > 0 {
        lemma_no_shutdown_rest(evs);
        lemma_run_adopts_nothing(next(m, evs[0]).0, evs.drop_first());
    }
}

/// No race between stopping and starting: once the running backend is shut
/// down, no sequence of events without another shutdown leads the supervisor
/// to take an instance that a probe reports alive as its running backend;
/// it runs again only with an instance that it spawned itself.
pub proof fn shutdown_then_start_never_adopts(m: SupervisorModel, evs: Seq<Event>)
    requires
        m.state is Running,
        no_shutdown(evs),
    ensures
        run(next(m, Event::Shutdown).0, evs).state != SupervisorState::Running(None),
{
    lemma_run_adopts_nothing(next(m, Event::Shutdown).0, evs);
}

/// Well-formedness: processes wait to be stopped only while stopping them is
/// under way, a probe is awaited only while stopped, a shutdown waits only
/// for a start, and a running backend carries neither leftovers nor the mark
/// of a shutdown.
pub open spec fn wf(m: SupervisorModel) -> bool {
    &&& m.pending.len() > 0 ==> (m.state == SupervisorState::Starting(StartStep::Terminating)
        || m.state == SupervisorState::Stopping(StopStep::Terminating))
    &&& m.probing ==> m.state == SupervisorState::Stopped
    &&& m.stop_requested ==> m.state is Starting
    &&& m.state is Running ==> !m.after_shutdown && m.pending.len() == 0
}

/// Every transition keeps the supervisor well formed.
pub proof fn next_preserves_wf(m: SupervisorModel, e: Event)
    requires
        wf(m),
    ensures
        wf(next(m, e).0),
{
}

/// Event `e` ends the stopping of stale instances during a start in state `m`:
/// a scan that found no match, or a report that the last one stopped or was
/// already gone.
pub open spec fn leaves_nothing_to_stop(m: SupervisorModel, e: Event) -> bool {
    match e {
        Event::Scanned(found) => m.state == SupervisorState::Starting(StartStep::AwaitScan)
            && found@.len() == 0,
        Event::TerminationDone(o) => m.state == SupervisorState::Starting(StartStep::Terminating)
            && m.pending.len() == 0 && !(o is Failed),
        _ => false,
    }
}

/// No start is issued while a matching process may still be alive: a spawn is
/// asked for only during a start, and only when the scan found no match or
/// the last stale instance has been reported stopped (or gone) and none is
/// left to stop, and no shutdown has come meanwhile.
pub proof fn spawn_only_when_nothing_is_left(m: SupervisorModel, e: Event)
    requires
        wf(m),
        next(m, e).1 == Action::Spawn,
    ensures
        next(m, e).0.pending.len() == 0,
        next(m, e).0.state == SupervisorState::Starting(StartStep::AwaitSpawn),
        leaves_nothing_to_stop(m, e),
        !m.stop_requested,
{
}

/// A shutdown that arrives during a start is not lost: from then on the start
/// asks for no spawn, and an instance whose spawn was already under way is
/// stopped as soon as it is reported.
pub proof fn shutdown_during_start_is_kept(m: SupervisorModel, e: Event)
    requires
        m.state is Starting,
    ensures
        next(next(m, Event::Shutdown).0, e).1 != Action::Spawn,
        e matches Event::Spawned(h) ==> (m.state == SupervisorState::Starting(StartStep::AwaitSpawn)
            ==> next(next(m, Event::Shutdown).0, e) == stopping_handle(h)),
{
}

} // verus!
