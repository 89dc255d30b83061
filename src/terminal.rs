//! Terminal line-discipline attributes, the snapshot taken before raw mode,
//! and the changes that raw mode makes.

use vstd::prelude::*;

verus! {

/// Mathematical value of a terminal's attribute set.
pub struct AttrsModel {
    pub input_flags: u32,
    pub output_flags: u32,
    pub control_flags: u32,
    pub local_flags: u32,
    pub control_chars: Seq<u8>,
}

/// A terminal's line-discipline attributes held as plain values: the four
/// flag words and the control characters.
pub struct TermAttrs {
    pub input_flags: u32,
    pub output_flags: u32,
    pub control_flags: u32,
    pub local_flags: u32,
    pub control_chars: Vec<u8>,
}

impl View for TermAttrs {
    type V = AttrsModel;

    open spec fn view(&self) -> AttrsModel {
        AttrsModel {
            input_flags: self.input_flags,
            output_flags: self.output_flags,
            control_flags: self.control_flags,
            local_flags: self.local_flags,
            control_chars: self.control_chars@,
        }
    }
}

impl TermAttrs {
    /// A copy holding the same attributes.
    pub fn duplicate(&self) -> (r: TermAttrs)
        ensures
            r@ == self@,
    {
        TermAttrs {
            input_flags: self.input_flags,
            output_flags: self.output_flags,
            control_flags: self.control_flags,
            local_flags: self.local_flags,
            control_chars: self.control_chars.clone(),
        }
    }
}

/// The local-mode bits that raw mode clears: echo, canonical input and
/// signal generation.
pub struct RawModeBits {
    pub echo: u32,
    pub canonical: u32,
    pub signals: u32,
}

impl RawModeBits {
    /// The mask of every bit that raw mode clears.
    pub open spec fn mask(self) -> u32 {
        self.echo | self.canonical | self.signals
    }

    /// The bits as the platform's terminal interface defines them.
    pub fn native() -> (r: RawModeBits)
        ensures
            r.echo != 0,
            r.canonical != 0,
            r.signals != 0,
            r.echo & r.canonical == 0,
            r.echo & r.signals == 0,
            r.canonical & r.signals == 0,
    {
        native_raw_mode_bits()
    }
}

/// Relies on the termios constants `ECHO`, `ICANON` and `ISIG`: the
/// platform's values of the three local-mode bits, three distinct single
/// bits on every platform the crate supports.
#[verifier::external_body]
fn native_raw_mode_bits() -> (r: RawModeBits)
    ensures
        r.echo != 0,
        r.canonical != 0,
        r.signals != 0,
        r.echo & r.canonical == 0,
        r.echo & r.signals == 0,
        r.canonical & r.signals == 0,
{
    RawModeBits {
        echo: termios::ECHO as u32,
        canonical: termios::ICANON as u32,
        signals: termios::ISIG as u32,
    }
}

/// The attributes with raw mode applied: the echo, canonical and signal bits
/// of the local flags cleared, everything else kept.
pub open spec fn raw_of(a: AttrsModel, bits: RawModeBits) -> AttrsModel {
    AttrsModel { local_flags: a.local_flags & !bits.mask(), ..a }
}

/// Puts `attrs` into raw mode.
pub fn enter_raw(attrs: &mut TermAttrs, bits: &RawModeBits)
    ensures
        final(attrs)@ == raw_of(old(attrs)@, *bits),
{
    attrs.local_flags = attrs.local_flags & !(bits.echo | bits.canonical | bits.signals);
}

/// A change to a terminal's attributes, as a session may make while the
/// snapshot is held.
pub enum AttrChange {
    /// Raw mode with the given bits.
    Raw(RawModeBits),
    /// Clear these local-flag bits.
    ClearLocal(u32),
    /// Set these local-flag bits.
    SetLocal(u32),
    /// Replace the input flags.
    SetInput(u32),
    /// Replace the output flags.
    SetOutput(u32),
    /// Replace the control flags.
    SetControl(u32),
    /// Replace the control characters.
    SetControlChars(Vec<u8>),
}

/// The attributes after one change.
pub open spec fn changed(a: AttrsModel, c: AttrChange) -> AttrsModel {
    match c {
        AttrChange::Raw(bits) => raw_of(a, bits),
        AttrChange::ClearLocal(m) => AttrsModel { local_flags: a.local_flags & !m, ..a },
        AttrChange::SetLocal(m) => AttrsModel { local_flags: a.local_flags | m, ..a },
        AttrChange::SetInput(f) => AttrsModel { input_flags: f, ..a },
        AttrChange::SetOutput(f) => AttrsModel { output_flags: f, ..a },
        AttrChange::SetControl(f) => AttrsModel { control_flags: f, ..a },
        AttrChange::SetControlChars(cc) => AttrsModel { control_chars: cc@, ..a },
    }
}

/// The attributes after a sequence of changes, applied in order.
pub open spec fn changed_all(a: AttrsModel, cs: Seq<AttrChange>) -> AttrsModel
    decreases cs.len(),
{
    if cs.len() == 0 {
        a
    } else {
        changed_all(changed(a, cs[0]), cs.drop_first())
    }
}

/// Applies one change to `attrs`.
pub fn apply_change(attrs: &mut TermAttrs, change: &AttrChange)
    ensures
        final(attrs)@ == changed(old(attrs)@, *change),
{
    match change {
        AttrChange::Raw(bits) => enter_raw(attrs, bits),
        AttrChange::ClearLocal(m) => {
            attrs.local_flags = attrs.local_flags & !*m;
        },
        AttrChange::SetLocal(m) => {
            attrs.local_flags = attrs.local_flags | *m;
        },
        AttrChange::SetInput(f) => {
            attrs.input_flags = *f;
        },
        AttrChange::SetOutput(f) => {
            attrs.output_flags = *f;
        },
        AttrChange::SetControl(f) => {
            attrs.control_flags = *f;
        },
        AttrChange::SetControlChars(cc) => {
            attrs.control_chars = cc.clone();
        },
    }
}

/// The attributes a terminal had when the session began. Taken once, never
/// changed, and written back to end the session.
pub struct TerminalSnapshot {
    attrs: TermAttrs,
}

impl View for TerminalSnapshot {
    type V = AttrsModel;

    closed spec fn view(&self) -> AttrsModel {
        self.attrs@
    }
}

impl TerminalSnapshot {
    /// Captures the attributes `current` holds.
    pub fn capture(current: &TermAttrs) -> (s: TerminalSnapshot)
        ensures
            s@ == current@,
    {
        TerminalSnapshot { attrs: current.duplicate() }
    }

    /// The captured attributes.
    pub fn attrs(&self) -> (r: &TermAttrs)
        ensures
            r@ == self@,
    {
        &self.attrs
    }

    /// Writes the captured attributes back over `term`, whatever it holds.
    /// Doing so again leaves it as it is.
    pub fn restore(&self, term: &mut TermAttrs)
        ensures
            final(term)@ == restored(self@, old(term)@),
    {
        *term = self.attrs.duplicate();
    }
}

/// The attributes a terminal holds after `snapshot` is restored over
/// `current`: the snapshot's, whatever `current` was.
pub open spec fn restored(snapshot: AttrsModel, current: AttrsModel) -> AttrsModel {
    snapshot
}

/// Restoring a snapshot after any sequence of changes to the attributes it
/// was captured from gives back exactly those attributes, bit for bit; and
/// restoring a second time changes nothing.
pub proof fn restore_undoes_changes(
    snapshot: TerminalSnapshot,
    start: TermAttrs,
    changes: Seq<AttrChange>,
)
    requires
        snapshot@ == start@,
    ensures
        restored(snapshot@, changed_all(start@, changes)) == start@,
        restored(snapshot@, restored(snapshot@, changed_all(start@, changes))) == start@,
{
}

} // verus!
