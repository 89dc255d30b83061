use ecs_pty::terminal::{apply_change, enter_raw, AttrChange, RawModeBits, TermAttrs, TerminalSnapshot};

fn sample() -> TermAttrs {
    TermAttrs {
        input_flags: 0o2400,
        output_flags: 0o5,
        control_flags: 0o277,
        local_flags: 0o105073,
        control_chars: vec![3, 28, 127, 21, 4, 0, 1, 0],
    }
}

fn linux_bits() -> RawModeBits {
    RawModeBits { echo: 0o10, canonical: 0o2, signals: 0o1 }
}

fn same(a: &TermAttrs, b: &TermAttrs) -> bool {
    a.input_flags == b.input_flags
        && a.output_flags == b.output_flags
        && a.control_flags == b.control_flags
        && a.local_flags == b.local_flags
        && a.control_chars == b.control_chars
}

#[test]
fn raw_mode_clears_echo_canonical_and_signals() {
    let mut t = sample();
    enter_raw(&mut t, &linux_bits());
    assert_eq!(t.local_flags, 0o105073 & !0o13);
    assert_eq!(t.local_flags, 0o105060);
    assert_eq!(t.input_flags, 0o2400);
    assert_eq!(t.control_chars, vec![3, 28, 127, 21, 4, 0, 1, 0]);
}

#[test]
fn native_bits_are_cleared_by_raw_mode() {
    let bits = RawModeBits::native();
    assert_ne!(bits.echo, 0);
    assert_ne!(bits.canonical, 0);
    assert_ne!(bits.signals, 0);
    assert_eq!(bits.echo & bits.canonical, 0);
    assert_eq!(bits.echo & bits.signals, 0);
    assert_eq!(bits.canonical & bits.signals, 0);
    let mut t = TermAttrs { local_flags: u32::MAX, ..sample() };
    enter_raw(&mut t, &bits);
    assert_eq!(t.local_flags & bits.echo, 0);
    assert_eq!(t.local_flags & bits.canonical, 0);
    assert_eq!(t.local_flags & bits.signals, 0);
}

#[test]
fn restore_after_changes_gives_original_attributes() {
    let mut t = sample();
    let snap = TerminalSnapshot::capture(&t);
    let changes = vec![
        AttrChange::Raw(linux_bits()),
        AttrChange::SetLocal(0o7777),
        AttrChange::ClearLocal(0o1),
        AttrChange::SetInput(0),
        AttrChange::SetOutput(7),
        AttrChange::SetControl(1),
        AttrChange::SetControlChars(vec![9, 9]),
    ];
    for c in &changes {
        apply_change(&mut t, c);
    }
    assert!(!same(&t, &sample()));
    snap.restore(&mut t);
    assert!(same(&t, &sample()));
    snap.restore(&mut t);
    assert!(same(&t, &sample()));
    assert!(same(snap.attrs(), &sample()));
}

#[test]
fn restore_with_no_changes_keeps_attributes() {
    let mut t = sample();
    let snap = TerminalSnapshot::capture(&t);
    snap.restore(&mut t);
    assert!(same(&t, &sample()));
}

#[test]
fn duplicate_copies_every_field() {
    let t = sample();
    assert!(same(&t.duplicate(), &t));
}
