//! The session's lifecycle: which setup, relay and teardown step comes next,
//! given how the last one went. The steps themselves are done by the caller,
//! which reports each result back as an event.

use crate::terminal::{raw_of, restored, RawModeBits, TermAttrs, TerminalSnapshot};
use vstd::prelude::*;

verus! {

/// Display geometry handed to the pseudo-terminal when it is allocated. It
/// stays fixed for the session.
#[derive(PartialEq, Eq, Structural, Clone, Copy, Debug)]
pub struct PtyGeometry {
    pub rows: u16,
    pub cols: u16,
    pub pixel_width: u16,
    pub pixel_height: u16,
}

impl PtyGeometry {
    /// The session's geometry: 24 rows of 80 columns, no pixel size.
    pub fn session_default() -> (r: PtyGeometry)
        ensures
            r == (PtyGeometry { rows: 24, cols: 80, pixel_width: 0, pixel_height: 0 }),
    {
        PtyGeometry { rows: 24, cols: 80, pixel_width: 0, pixel_height: 0 }
    }
}

/// The states a session passes through.
#[derive(PartialEq, Eq, Structural, Clone, Copy, Debug)]
pub enum Phase {
    Init,
    TerminalRaw,
    PtyOpen,
    ChildSpawned,
    Relaying,
    Draining,
    Restored,
    Done,
    Aborted,
}

/// A fatal failure of a setup step, or of waiting for the child.
#[derive(PartialEq, Eq, Structural, Clone, Copy, Debug)]
pub enum SessionError {
    /// The terminal's mode could not be read or set.
    Terminal,
    /// No pseudo-terminal could be allocated.
    Pty,
    /// The child could not be started.
    Spawn,
    /// The child's exit status could not be obtained.
    Wait,
}

/// How a session ended.
#[derive(PartialEq, Eq, Structural, Clone, Copy, Debug)]
pub enum SessionOutcome {
    /// The child exited with this status.
    Exited(u32),
    /// A step failed.
    Failed(SessionError),
}

/// The step the session asks the caller to perform next.
#[derive(PartialEq, Eq, Structural, Clone, Copy, Debug)]
pub enum Action {
    /// Capture the terminal's attributes and put it into raw mode.
    EnterRawMode,
    /// Allocate the pseudo-terminal pair.
    OpenPty,
    /// Start the child on the slave side.
    SpawnChild,
    /// Drop this process's handle to the slave side.
    ReleaseSlave,
    /// Start both relays; report when the output relay stops.
    StartRelay,
    /// Wait for the child to exit.
    WaitForChild,
    /// Write the captured attributes back to the terminal.
    RestoreTerminal,
    /// Close the pseudo-terminal's handles.
    ClosePty,
    /// The session is over, with this outcome.
    Finish(SessionOutcome),
}

/// The result of the step last asked for.
#[derive(PartialEq, Eq, Structural, Clone, Copy, Debug)]
pub enum Event {
    Start,
    RawEntered,
    TerminalFailed,
    PtyOpened,
    PtyFailed,
    Spawned,
    SpawnFailed,
    SlaveReleased,
    OutputEnded,
    ChildExited(u32),
    WaitFailed,
    TerminalRestored,
    PtyClosed,
}

/// Mathematical state of a session.
pub struct SessionModel {
    pub phase: Phase,
    /// The action last handed out, awaiting its event; `None` before the
    /// first event.
    pub pending: Option<Action>,
    /// The terminal is in raw mode and not yet restored.
    pub raw: bool,
    /// The pseudo-terminal's handles are held.
    pub pty_open: bool,
    /// This process still holds the slave side.
    pub slave_held: bool,
    pub outcome: Option<SessionOutcome>,
    /// Raw mode was entered at some point.
    pub ever_raw: bool,
    /// A pseudo-terminal was opened at some point.
    pub ever_pty: bool,
    /// How many times the terminal was restored.
    pub restores: nat,
    /// How many times the slave side was released.
    pub slave_releases: nat,
}

/// Whether `e` answers the action last handed out.
pub open spec fn accepts(m: SessionModel, e: Event) -> bool {
    match m.pending {
        None => e is Start,
        Some(Action::EnterRawMode) => e is RawEntered || e is TerminalFailed,
        Some(Action::OpenPty) => e is PtyOpened || e is PtyFailed,
        Some(Action::SpawnChild) => e is Spawned || e is SpawnFailed,
        Some(Action::ReleaseSlave) => e is SlaveReleased,
        Some(Action::StartRelay) => e is OutputEnded,
        Some(Action::WaitForChild) => e is ChildExited || e is WaitFailed,
        Some(Action::RestoreTerminal) => e is TerminalRestored,
        Some(Action::ClosePty) => e is PtyClosed,
        Some(Action::Finish(_)) => true,
    }
}

/// Hands out the action `a` in state `m`.
pub open spec fn issue(m: SessionModel, a: Action) -> (SessionModel, Action) {
    (SessionModel { pending: Some(a), ..m }, a)
}

/// The next teardown step: restore the terminal if it is raw, then close
/// the pseudo-terminal if it is open, then finish.
pub open spec fn teardown(m: SessionModel) -> (SessionModel, Action) {
    if m.raw {
        issue(SessionModel { raw: false, restores: m.restores + 1, ..m }, Action::RestoreTerminal)
    } else if m.pty_open {
        issue(
            SessionModel {
                pty_open: false,
                slave_held: false,
                slave_releases: if m.slave_held { m.slave_releases + 1 } else { m.slave_releases },
                ..m
            },
            Action::ClosePty,
        )
    } else {
        let o = match m.outcome {
            Some(o) => o,
            None => SessionOutcome::Failed(SessionError::Wait),
        };
        issue(SessionModel { phase: Phase::Done, outcome: Some(o), ..m }, Action::Finish(o))
    }
}

/// Abandons setup with `err`; teardown follows.
pub open spec fn abort(m: SessionModel, err: SessionError) -> (SessionModel, Action) {
    teardown(
        SessionModel { phase: Phase::Aborted, outcome: Some(SessionOutcome::Failed(err)), ..m },
    )
}

/// The state and action that follow event `e` in state `m`.
pub open spec fn next(m: SessionModel, e: Event) -> (SessionModel, Action) {
    match m.pending {
        Some(Action::Finish(o)) => (m, Action::Finish(o)),
        _ => match e {
            Event::Start => issue(m, Action::EnterRawMode),
            Event::RawEntered => issue(
                SessionModel { phase: Phase::TerminalRaw, raw: true, ever_raw: true, ..m },
                Action::OpenPty,
            ),
            Event::TerminalFailed => issue(
                SessionModel {
                    phase: Phase::Done,
                    outcome: Some(SessionOutcome::Failed(SessionError::Terminal)),
                    ..m
                },
                Action::Finish(SessionOutcome::Failed(SessionError::Terminal)),
            ),
            Event::PtyOpened => issue(
                SessionModel {
                    phase: Phase::PtyOpen,
                    pty_open: true,
                    slave_held: true,
                    ever_pty: true,
                    ..m
                },
                Action::SpawnChild,
            ),
            Event::PtyFailed => abort(m, SessionError::Pty),
            Event::Spawned => issue(
                SessionModel {
                    phase: Phase::ChildSpawned,
                    slave_held: false,
                    slave_releases: m.slave_releases + 1,
                    ..m
                },
                Action::ReleaseSlave,
            ),
            Event::SpawnFailed => abort(m, SessionError::Spawn),
            Event::SlaveReleased => issue(
                SessionModel { phase: Phase::Relaying, ..m },
                Action::StartRelay,
            ),
            Event::OutputEnded => issue(
                SessionModel { phase: Phase::Draining, ..m },
                Action::WaitForChild,
            ),
            Event::ChildExited(code) => teardown(
                SessionModel {
                    phase: Phase::Restored,
                    outcome: Some(SessionOutcome::Exited(code)),
                    ..m
                },
            ),
            Event::WaitFailed => abort(m, SessionError::Wait),
            Event::TerminalRestored => teardown(m),
            Event::PtyClosed => teardown(m),
        },
    }
}

/// The invariant of every state a session reaches.
pub open spec fn wf(m: SessionModel) -> bool {
    &&& m.restores <= 1
    &&& m.slave_releases <= 1
    &&& m.raw ==> m.ever_raw && m.restores == 0
    &&& m.ever_raw && !m.raw ==> m.restores == 1
    &&& !m.ever_raw ==> m.restores == 0 && !m.raw && !m.pty_open
    &&& m.slave_held ==> m.pty_open && m.slave_releases == 0
    &&& m.pty_open ==> m.ever_pty
    &&& m.ever_pty && !m.slave_held ==> m.slave_releases == 1
    &&& !m.ever_pty ==> m.slave_releases == 0 && !m.pty_open && !m.slave_held
    &&& (m.pending matches Some(Action::Finish(o)) ==> {
        &&& m.phase == Phase::Done
        &&& m.outcome == Some(o)
        &&& !m.raw
        &&& !m.pty_open
    })
    &&& (m.phase == Phase::Done ==> m.pending matches Some(Action::Finish(_)))
    &&& (m.pending matches Some(Action::WaitForChild) ==> m.outcome is None)
    &&& (m.pending matches Some(Action::RestoreTerminal) ==> m.outcome is Some)
    &&& (m.pending matches Some(Action::ClosePty) ==> m.outcome is Some && !m.raw)
    &&& (m.pending is None ==> !m.ever_raw && !m.ever_pty && m.outcome is None)
    &&& (m.pending matches Some(Action::EnterRawMode) ==> !m.ever_raw && !m.ever_pty
        && m.outcome is None)
    &&& (m.pending matches Some(Action::OpenPty) ==> m.raw && !m.ever_pty && m.outcome is None)
    &&& (m.pending matches Some(Action::SpawnChild) ==> m.raw && m.slave_held
        && m.outcome is None)
    &&& (m.pending matches Some(Action::ReleaseSlave) ==> m.raw && m.pty_open && !m.slave_held
        && m.outcome is None)
    &&& (m.pending matches Some(Action::StartRelay) ==> m.raw && m.pty_open && !m.slave_held
        && m.outcome is None)
    &&& (m.pending matches Some(Action::WaitForChild) ==> m.raw && m.pty_open && !m.slave_held)
}

/// The state of a new session.
pub open spec fn initial() -> SessionModel {
    SessionModel {
        phase: Phase::Init,
        pending: None,
        raw: false,
        pty_open: false,
        slave_held: false,
        outcome: None,
        ever_raw: false,
        ever_pty: false,
        restores: 0,
        slave_releases: 0,
    }
}

/// A session's supervisor.
pub struct Supervisor {
    phase: Phase,
    pending: Option<Action>,
    raw: bool,
    pty_open: bool,
    slave_held: bool,
    outcome: Option<SessionOutcome>,
    ever_raw: Ghost<bool>,
    ever_pty: Ghost<bool>,
    restores: Ghost<nat>,
    slave_releases: Ghost<nat>,
}

impl View for Supervisor {
    type V = SessionModel;

    closed spec fn view(&self) -> SessionModel {
        SessionModel {
            phase: self.phase,
            pending: self.pending,
            raw: self.raw,
            pty_open: self.pty_open,
            slave_held: self.slave_held,
            outcome: self.outcome,
            ever_raw: self.ever_raw@,
            ever_pty: self.ever_pty@,
            restores: self.restores@,
            slave_releases: self.slave_releases@,
        }
    }
}


impl Supervisor {
    /// A session that has not started.
    pub fn new() -> (r: Supervisor)
        ensures
            r@ == initial(),
    {
        Supervisor {
            phase: Phase::Init,
            pending: None,
            raw: false,
            pty_open: false,
            slave_held: false,
            outcome: None,
            ever_raw: Ghost(false),
            ever_pty: Ghost(false),
            restores: Ghost(0),
            slave_releases: Ghost(0),
        }
    }

    /// The state the session is in.
    pub fn phase(&self) -> (r: Phase)
        ensures
            r == self@.phase,
    {
        self.phase
    }

    /// How the session ended, once it has.
    pub fn outcome(&self) -> (r: Option<SessionOutcome>)
        ensures
            r == (if self@.phase == Phase::Done { self@.outcome } else { None }),
    {
        if self.phase == Phase::Done {
            self.outcome
        } else {
            None
        }
    }

    /// Whether `e` answers the action last handed out.
    pub fn accepts(&self, e: &Event) -> (r: bool)
        ensures
            r == accepts(self@, *e),
    {
        match self.pending {
            None => matches!(e, Event::Start),
            Some(Action::EnterRawMode) => matches!(e, Event::RawEntered | Event::TerminalFailed),
            Some(Action::OpenPty) => matches!(e, Event::PtyOpened | Event::PtyFailed),
            Some(Action::SpawnChild) => matches!(e, Event::Spawned | Event::SpawnFailed),
            Some(Action::ReleaseSlave) => matches!(e, Event::SlaveReleased),
            Some(Action::StartRelay) => matches!(e, Event::OutputEnded),
            Some(Action::WaitForChild) => matches!(e, Event::ChildExited(_) | Event::WaitFailed),
            Some(Action::RestoreTerminal) => matches!(e, Event::TerminalRestored),
            Some(Action::ClosePty) => matches!(e, Event::PtyClosed),
            Some(Action::Finish(_)) => true,
        }
    }

    fn issue(&mut self, a: Action) -> (r: Action)
        ensures
            (final(self)@, r) == issue(old(self)@, a),
    {
        self.pending = Some(a);
        a
    }

    fn teardown(&mut self) -> (r: Action)
        ensures
            (final(self)@, r) == teardown(old(self)@),
    {
        if self.raw {
            self.raw = false;
            proof {
                self.restores@ = self.restores@ + 1;
            }
            self.issue(Action::RestoreTerminal)
        } else if self.pty_open {
            self.pty_open = false;
            if self.slave_held {
                proof {
                    self.slave_releases@ = self.slave_releases@ + 1;
                }
            }
            self.slave_held = false;
            self.issue(Action::ClosePty)
        } else {
            let o = match self.outcome {
                Some(o) => o,
                None => SessionOutcome::Failed(SessionError::Wait),
            };
            self.phase = Phase::Done;
            self.outcome = Some(o);
            self.issue(Action::Finish(o))
        }
    }

    fn abort(&mut self, err: SessionError) -> (r: Action)
        ensures
            (final(self)@, r) == abort(old(self)@, err),
    {
        self.phase = Phase::Aborted;
        self.outcome = Some(SessionOutcome::Failed(err));
        self.teardown()
    }

    /// Takes the result of the last step and hands out the next one. After
    /// `Finish` the session stays finished and hands out `Finish` again.
    pub fn step(&mut self, e: Event) -> (r: Action)
        requires
            wf(old(self)@),
            accepts(old(self)@, e),
        ensures
            (final(self)@, r) == next(old(self)@, e),
            wf(final(self)@),
    {
        proof {
            next_keeps_wf(self@, e);
        }
        if let Some(Action::Finish(o)) = self.pending {
            return Action::Finish(o);
        }
        match e {
            Event::Start => self.issue(Action::EnterRawMode),
            Event::RawEntered => {
                self.phase = Phase::TerminalRaw;
                self.raw = true;
                proof {
                    self.ever_raw@ = true;
                }
                self.issue(Action::OpenPty)
            },
            Event::TerminalFailed => {
                let o = SessionOutcome::Failed(SessionError::Terminal);
                self.phase = Phase::Done;
                self.outcome = Some(o);
                self.issue(Action::Finish(o))
            },
            Event::PtyOpened => {
                self.phase = Phase::PtyOpen;
                self.pty_open = true;
                self.slave_held = true;
                proof {
                    self.ever_pty@ = true;
                }
                self.issue(Action::SpawnChild)
            },
            Event::PtyFailed => self.abort(SessionError::Pty),
            Event::Spawned => {
                self.phase = Phase::ChildSpawned;
                self.slave_held = false;
                proof {
                    self.slave_releases@ = self.slave_releases@ + 1;
                }
                self.issue(Action::ReleaseSlave)
            },
            Event::SpawnFailed => self.abort(SessionError::Spawn),
            Event::SlaveReleased => {
                self.phase = Phase::Relaying;
                self.issue(Action::StartRelay)
            },
            Event::OutputEnded => {
                self.phase = Phase::Draining;
                self.issue(Action::WaitForChild)
            },
            Event::ChildExited(code) => {
                self.phase = Phase::Restored;
                self.outcome = Some(SessionOutcome::Exited(code));
                self.teardown()
            },
            Event::WaitFailed => self.abort(SessionError::Wait),
            Event::TerminalRestored => self.teardown(),
            Event::PtyClosed => self.teardown(),
        }
    }
}

/// Every accepted event leads from a well-formed state to a well-formed one.
pub proof fn next_keeps_wf(m: SessionModel, e: Event)
    requires
        wf(m),
        accepts(m, e),
    ensures
        wf(next(m, e).0),
{
}


/// The state reached, and the actions handed out, when the events `es` are
/// fed in turn to a session in state `m`.
pub open spec fn run(m: SessionModel, es: Seq<Event>) -> (SessionModel, Seq<Action>)
    decreases es.len(),
{
    if es.len() == 0 {
        (m, Seq::empty())
    } else {
        let (m1, a) = next(m, es[0]);
        let (mf, acts) = run(m1, es.drop_first());
        (mf, seq![a] + acts)
    }
}

/// Each of `es`, fed in turn from state `m`, answers the action before it.
pub open spec fn accepted(m: SessionModel, es: Seq<Event>) -> bool
    decreases es.len(),
{
    es.len() == 0 || (accepts(m, es[0]) && accepted(next(m, es[0]).0, es.drop_first()))
}

/// How many times `acts` asks for the terminal to be restored.
pub open spec fn restore_count(acts: Seq<Action>) -> nat
    decreases acts.len(),
{
    if acts.len() == 0 {
        0
    } else {
        (if acts[0] == Action::RestoreTerminal { 1nat } else { 0nat }) + restore_count(
            acts.drop_first(),
        )
    }
}

/// Every `Finish` among `acts` carries the outcome `o`.
pub open spec fn finishes_with(acts: Seq<Action>, o: SessionOutcome) -> bool {
    forall|i: int| 0 <= i < acts.len() && (#[trigger] acts[i]) is Finish ==> acts[i] == Action::Finish(o)
}

proof fn run_keeps_wf(m: SessionModel, es: Seq<Event>)
    requires
        wf(m),
        accepted(m, es),
    ensures
        wf(run(m, es).0),
        run(m, es).0.restores == m.restores + restore_count(run(m, es).1),
        run(m, es).0.slave_releases >= m.slave_releases,
    decreases es.len(),
{
    if es.len() > 0 {
        next_keeps_wf(m, es[0]);
        let (m1, a) = next(m, es[0]);
        run_keeps_wf(m1, es.drop_first());
        let acts = seq![a] + run(m1, es.drop_first()).1;
        assert(acts.drop_first() =~= run(m1, es.drop_first()).1);
    }
}

proof fn teardown_keeps_outcome(m: SessionModel, o: SessionOutcome, es: Seq<Event>)
    requires
        wf(m),
        accepted(m, es),
        m.outcome == Some(o),
        m.pending == Some(Action::RestoreTerminal) || m.pending == Some(Action::ClosePty)
            || m.pending == Some(Action::Finish(o)),
    ensures
        run(m, es).0.outcome == Some(o),
        finishes_with(run(m, es).1, o),
    decreases es.len(),
{
    if es.len() > 0 {
        next_keeps_wf(m, es[0]);
        let (m1, a) = next(m, es[0]);
        teardown_keeps_outcome(m1, o, es.drop_first());
        let rest = run(m1, es.drop_first()).1;
        let acts = seq![a] + rest;
        assert forall|i: int| 0 <= i < acts.len() && (#[trigger] acts[i]) is Finish implies acts[i]
            == Action::Finish(o) by {
            if i > 0 {
                assert(acts[i] == rest[i - 1]);
            }
        }
    }
}

/// Whatever the steps report, a session restores the terminal at most once;
/// a session that has ended has restored it exactly once if it ever entered
/// raw mode, and has released the slave side exactly once if it ever opened
/// a pseudo-terminal, and holds neither raw mode nor the pseudo-terminal.
pub proof fn teardown_happens_once(es: Seq<Event>)
    requires
        accepted(initial(), es),
    ensures
        wf(run(initial(), es).0),
        restore_count(run(initial(), es).1) <= 1,
        run(initial(), es).0.phase == Phase::Done ==> {
            let mf = run(initial(), es).0;
            &&& restore_count(run(initial(), es).1) == (if mf.ever_raw { 1nat } else { 0nat })
            &&& mf.slave_releases == (if mf.ever_pty { 1nat } else { 0nat })
            &&& !mf.raw
            &&& !mf.pty_open
            &&& !mf.slave_held
        },
{
    run_keeps_wf(initial(), es);
}

/// Once raw mode is entered, a failure to allocate the pseudo-terminal
/// makes the next step a restore of the terminal, before anything else,
/// which gives the terminal back the attributes captured before raw mode;
/// the session then ends reporting that failure.
pub proof fn pty_failure_restores_terminal(
    m: SessionModel,
    es: Seq<Event>,
    start: TermAttrs,
    snapshot: TerminalSnapshot,
    bits: RawModeBits,
)
    requires
        wf(m),
        m.pending == Some(Action::OpenPty),
        accepted(next(m, Event::PtyFailed).0, es),
        snapshot@ == start@,
    ensures
        restored(snapshot@, raw_of(start@, bits)) == start@,
        next(m, Event::PtyFailed).1 == Action::RestoreTerminal,
        next(m, Event::PtyFailed).0.restores == 1,
        !next(m, Event::PtyFailed).0.raw,
        finishes_with(
            run(next(m, Event::PtyFailed).0, es).1,
            SessionOutcome::Failed(SessionError::Pty),
        ),
{
    let m1 = next(m, Event::PtyFailed).0;
    next_keeps_wf(m, Event::PtyFailed);
    teardown_keeps_outcome(m1, SessionOutcome::Failed(SessionError::Pty), es);
}

/// When the output relay reports its end, the session goes straight to
/// draining and waits for the child; no input is awaited.
pub proof fn output_end_starts_draining(m: SessionModel)
    requires
        wf(m),
        m.pending == Some(Action::StartRelay),
    ensures
        next(m, Event::OutputEnded) == (
            SessionModel { phase: Phase::Draining, pending: Some(Action::WaitForChild), ..m },
            Action::WaitForChild,
        ),
{
}

/// Once the child is spawned, the slave side is released at once, and only
/// that once.
pub proof fn spawn_releases_slave(m: SessionModel, es: Seq<Event>)
    requires
        wf(m),
        m.pending == Some(Action::SpawnChild),
        accepted(next(m, Event::Spawned).0, es),
    ensures
        next(m, Event::Spawned).1 == Action::ReleaseSlave,
        !next(m, Event::Spawned).0.slave_held,
        next(m, Event::Spawned).0.slave_releases == 1,
        run(next(m, Event::Spawned).0, es).0.slave_releases == 1,
{
    next_keeps_wf(m, Event::Spawned);
    run_keeps_wf(next(m, Event::Spawned).0, es);
}

/// The status a child exits with is the one the session ends with.
pub proof fn exit_status_passes_through(m: SessionModel, code: u32, es: Seq<Event>)
    requires
        wf(m),
        m.pending == Some(Action::WaitForChild),
        accepted(next(m, Event::ChildExited(code)).0, es),
    ensures
        next(m, Event::ChildExited(code)).0.outcome == Some(SessionOutcome::Exited(code)),
        finishes_with(
            seq![next(m, Event::ChildExited(code)).1] + run(
                next(m, Event::ChildExited(code)).0,
                es,
            ).1,
            SessionOutcome::Exited(code),
        ),
        run(next(m, Event::ChildExited(code)).0, es).0.phase == Phase::Done ==> run(
            next(m, Event::ChildExited(code)).0,
            es,
        ).0.outcome == Some(SessionOutcome::Exited(code)),
{
    let (m1, a) = next(m, Event::ChildExited(code));
    let o = SessionOutcome::Exited(code);
    next_keeps_wf(m, Event::ChildExited(code));
    teardown_keeps_outcome(m1, o, es);
    let rest = run(m1, es).1;
    let acts = seq![a] + rest;
    assert forall|i: int| 0 <= i < acts.len() && (#[trigger] acts[i]) is Finish implies acts[i]
        == Action::Finish(o) by {
        if i > 0 {
            assert(acts[i] == rest[i - 1]);
        }
    }
}

} // verus!
