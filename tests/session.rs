use ecs_pty::session::{Action, Event, Phase, PtyGeometry, SessionError, SessionOutcome, Supervisor};

fn drive(events: &[Event]) -> (Supervisor, Vec<Action>) {
    let mut s = Supervisor::new();
    let mut acts = Vec::new();
    for e in events {
        assert!(s.accepts(e), "event {:?} not expected", e);
        acts.push(s.step(*e));
    }
    (s, acts)
}

#[test]
fn child_exit_status_is_reported() {
    let (s, acts) = drive(&[
        Event::Start,
        Event::RawEntered,
        Event::PtyOpened,
        Event::Spawned,
        Event::SlaveReleased,
        Event::OutputEnded,
        Event::ChildExited(42),
        Event::TerminalRestored,
        Event::PtyClosed,
    ]);
    assert_eq!(
        acts,
        vec![
            Action::EnterRawMode,
            Action::OpenPty,
            Action::SpawnChild,
            Action::ReleaseSlave,
            Action::StartRelay,
            Action::WaitForChild,
            Action::RestoreTerminal,
            Action::ClosePty,
            Action::Finish(SessionOutcome::Exited(42)),
        ]
    );
    assert_eq!(s.phase(), Phase::Done);
    assert_eq!(s.outcome(), Some(SessionOutcome::Exited(42)));
}

#[test]
fn pty_failure_restores_terminal_before_finishing() {
    let (s, acts) = drive(&[Event::Start, Event::RawEntered, Event::PtyFailed, Event::TerminalRestored]);
    assert_eq!(
        acts,
        vec![
            Action::EnterRawMode,
            Action::OpenPty,
            Action::RestoreTerminal,
            Action::Finish(SessionOutcome::Failed(SessionError::Pty)),
        ]
    );
    assert_eq!(s.outcome(), Some(SessionOutcome::Failed(SessionError::Pty)));
}

#[test]
fn terminal_failure_ends_with_nothing_to_undo() {
    let (s, acts) = drive(&[Event::Start, Event::TerminalFailed]);
    assert_eq!(
        acts,
        vec![Action::EnterRawMode, Action::Finish(SessionOutcome::Failed(SessionError::Terminal))]
    );
    assert_eq!(s.phase(), Phase::Done);
}

#[test]
fn spawn_failure_restores_then_closes_pty() {
    let (_, acts) = drive(&[
        Event::Start,
        Event::RawEntered,
        Event::PtyOpened,
        Event::SpawnFailed,
        Event::TerminalRestored,
        Event::PtyClosed,
    ]);
    assert_eq!(
        &acts[3..],
        &[
            Action::RestoreTerminal,
            Action::ClosePty,
            Action::Finish(SessionOutcome::Failed(SessionError::Spawn)),
        ]
    );
}

#[test]
fn wait_failure_is_reported_after_teardown() {
    let (s, acts) = drive(&[
        Event::Start,
        Event::RawEntered,
        Event::PtyOpened,
        Event::Spawned,
        Event::SlaveReleased,
        Event::OutputEnded,
        Event::WaitFailed,
        Event::TerminalRestored,
        Event::PtyClosed,
    ]);
    assert_eq!(acts[6], Action::RestoreTerminal);
    assert_eq!(acts[7], Action::ClosePty);
    assert_eq!(s.outcome(), Some(SessionOutcome::Failed(SessionError::Wait)));
}

#[test]
fn output_end_moves_to_draining_at_once() {
    let (s, acts) = drive(&[
        Event::Start,
        Event::RawEntered,
        Event::PtyOpened,
        Event::Spawned,
        Event::SlaveReleased,
        Event::OutputEnded,
    ]);
    assert_eq!(s.phase(), Phase::Draining);
    assert_eq!(*acts.last().unwrap(), Action::WaitForChild);
    assert_eq!(s.outcome(), None);
}

#[test]
fn slave_is_released_once_right_after_spawn() {
    let (s, acts) = drive(&[Event::Start, Event::RawEntered, Event::PtyOpened, Event::Spawned]);
    assert_eq!(*acts.last().unwrap(), Action::ReleaseSlave);
    assert_eq!(s.phase(), Phase::ChildSpawned);
    let releases = acts.iter().filter(|a| **a == Action::ReleaseSlave).count();
    assert_eq!(releases, 1);
}

#[test]
fn finished_session_repeats_its_outcome() {
    let (mut s, _) = drive(&[Event::Start, Event::TerminalFailed]);
    assert!(s.accepts(&Event::PtyOpened));
    assert_eq!(s.step(Event::PtyOpened), Action::Finish(SessionOutcome::Failed(SessionError::Terminal)));
}

#[test]
fn unexpected_event_is_not_accepted() {
    let s = Supervisor::new();
    assert!(!s.accepts(&Event::OutputEnded));
    assert!(s.accepts(&Event::Start));
    assert_eq!(s.phase(), Phase::Init);
}

#[test]
fn default_geometry_is_eighty_by_twenty_four() {
    let g = PtyGeometry::session_default();
    assert_eq!((g.rows, g.cols, g.pixel_width, g.pixel_height), (24, 80, 0, 0));
}
