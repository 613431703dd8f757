//! A model of the terminal state that the session's control commands act on:
//! raw input mode, the alternate screen buffer, cursor visibility, and the
//! cursor position as set by explicit moves. The session and guard types
//! record which commands they issue as ghost logs of `TermCmd`, and the
//! lemmas here say what running those logs does to a terminal.

use vstd::prelude::*;

verus! {

/// One terminal-control command the session can issue.
#[derive(Clone, Copy, PartialEq, Eq, Structural, Debug)]
pub enum TermCmd {
    EnableRaw,
    DisableRaw,
    EnterAlt,
    LeaveAlt,
    HideCursor,
    ShowCursor,
    MoveTo(u16, u16),
    ClearAll,
}

/// The terminal state the commands act on. Printed text is not modeled: it
/// changes what is on the screen, not the mode flags, and the position a
/// restore command sets does not depend on it.
#[derive(Clone, Copy, PartialEq, Eq, Structural, Debug)]
pub struct TermState {
    pub raw: bool,
    pub alt: bool,
    pub cursor_hidden: bool,
    pub cursor_x: u16,
    pub cursor_y: u16,
}

/// A terminal in its ordinary mode: cooked input, main screen, cursor shown.
pub open spec fn is_normal(s: TermState) -> bool {
    !s.raw && !s.alt && !s.cursor_hidden
}

/// What one command does to the terminal state.
pub open spec fn apply_cmd(s: TermState, c: TermCmd) -> TermState {
    match c {
        TermCmd::EnableRaw => TermState { raw: true, ..s },
        TermCmd::DisableRaw => TermState { raw: false, ..s },
        TermCmd::EnterAlt => TermState { alt: true, ..s },
        TermCmd::LeaveAlt => TermState { alt: false, ..s },
        TermCmd::HideCursor => TermState { cursor_hidden: true, ..s },
        TermCmd::ShowCursor => TermState { cursor_hidden: false, ..s },
        TermCmd::MoveTo(x, y) => TermState { cursor_x: x, cursor_y: y, ..s },
        TermCmd::ClearAll => s,
    }
}

/// What a sequence of commands does, first command first.
pub open spec fn apply_cmds(s: TermState, cs: Seq<TermCmd>) -> TermState
    decreases cs.len(),
{
    if cs.len() == 0 {
        s
    } else {
        apply_cmds(apply_cmd(s, cs[0]), cs.drop_first())
    }
}

/// The commands a session issues when it opens, in order.
pub open spec fn open_cmds() -> Seq<TermCmd> {
    seq![TermCmd::EnableRaw, TermCmd::EnterAlt, TermCmd::HideCursor]
}

/// The commands a session issues when it closes, in order: the reverse
/// effects of opening, outermost last.
pub open spec fn close_cmds() -> Seq<TermCmd> {
    seq![TermCmd::LeaveAlt, TermCmd::ShowCursor, TermCmd::DisableRaw]
}

/// A drawing command: one that a session can issue between opening and
/// closing. Drawing never touches the mode flags.
pub open spec fn is_drawing_cmd(c: TermCmd) -> bool {
    match c {
        TermCmd::MoveTo(_, _) => true,
        TermCmd::ClearAll => true,
        _ => false,
    }
}

/// Running a concatenation is running the two halves in turn.
pub proof fn lemma_apply_cmds_append(s: TermState, a: Seq<TermCmd>, b: Seq<TermCmd>)
    ensures
        apply_cmds(s, a + b) == apply_cmds(apply_cmds(s, a), b),
    decreases a.len(),
{
    if a.len() == 0 {
        assert(a + b =~= b);
    } else {
        assert((a + b).drop_first() =~= a.drop_first() + b);
        lemma_apply_cmds_append(apply_cmd(s, a[0]), a.drop_first(), b);
    }
}

/// Drawing commands leave the mode flags as they were.
pub proof fn lemma_drawing_preserves_flags(s: TermState, cs: Seq<TermCmd>)
    requires
        forall|i: int| 0 <= i < cs.len() ==> is_drawing_cmd(#[trigger] cs[i]),
    ensures
        apply_cmds(s, cs).raw == s.raw,
        apply_cmds(s, cs).alt == s.alt,
        apply_cmds(s, cs).cursor_hidden == s.cursor_hidden,
    decreases cs.len(),
{
    if cs.len() > 0 {
        assert(is_drawing_cmd(cs[0]));
        lemma_drawing_preserves_flags(apply_cmd(s, cs[0]), cs.drop_first());
    }
}

/// Running three commands, one at a time.
proof fn lemma_apply_three(s: TermState, a: TermCmd, b: TermCmd, c: TermCmd)
    ensures
        apply_cmds(s, seq![a, b, c]) == apply_cmd(apply_cmd(apply_cmd(s, a), b), c),
{
    let cs = seq![a, b, c];
    let s1 = apply_cmd(s, a);
    let s2 = apply_cmd(s1, b);
    let s3 = apply_cmd(s2, c);
    assert(cs.drop_first() =~= seq![b, c]);
    assert(seq![b, c].drop_first() =~= seq![c]);
    assert(seq![c].drop_first() =~= Seq::<TermCmd>::empty());
    assert(apply_cmds(s, cs) == apply_cmds(s1, seq![b, c]));
    assert(apply_cmds(s1, seq![b, c]) == apply_cmds(s2, seq![c]));
    assert(apply_cmds(s2, seq![c]) == apply_cmds(s3, Seq::<TermCmd>::empty()));
    assert(apply_cmds(s3, Seq::<TermCmd>::empty()) == s3);
}

/// Opening a session and closing it straight away returns a terminal that was
/// in its ordinary mode to exactly the state it was in before.
pub proof fn lemma_session_round_trip(s: TermState)
    requires
        is_normal(s),
    ensures
        apply_cmds(s, open_cmds() + close_cmds()) == s,
{
    lemma_apply_cmds_append(s, open_cmds(), close_cmds());
    lemma_apply_three(s, TermCmd::EnableRaw, TermCmd::EnterAlt, TermCmd::HideCursor);
    let after_open = apply_cmds(s, open_cmds());
    lemma_apply_three(after_open, TermCmd::LeaveAlt, TermCmd::ShowCursor, TermCmd::DisableRaw);
}

/// However many drawing commands ran in between, closing a session opened on
/// an ordinary terminal leaves the terminal out of raw mode, out of the
/// alternate screen, and with the cursor shown.
pub proof fn lemma_session_restores_mode(s: TermState, mids: Seq<TermCmd>)
    requires
        is_normal(s),
        forall|i: int| 0 <= i < mids.len() ==> is_drawing_cmd(#[trigger] mids[i]),
    ensures
        is_normal(apply_cmds(s, open_cmds() + mids + close_cmds())),
{
    lemma_apply_cmds_append(s, open_cmds() + mids, close_cmds());
    lemma_apply_cmds_append(s, open_cmds(), mids);
    lemma_apply_three(s, TermCmd::EnableRaw, TermCmd::EnterAlt, TermCmd::HideCursor);
    let after_open = apply_cmds(s, open_cmds());
    lemma_drawing_preserves_flags(after_open, mids);
    let after_mids = apply_cmds(after_open, mids);
    lemma_apply_three(after_mids, TermCmd::LeaveAlt, TermCmd::ShowCursor, TermCmd::DisableRaw);
}

/// Releasing a guard puts the cursor back at the position that was current
/// when the guard was acquired — not at the guard's own target — whatever
/// drawing happened in between, and the mode flags stay as they were.
pub proof fn lemma_guard_restores_acquisition_position(
    s: TermState,
    x: u16,
    y: u16,
    mids: Seq<TermCmd>,
)
    requires
        forall|i: int| 0 <= i < mids.len() ==> is_drawing_cmd(#[trigger] mids[i]),
    ensures
        ({
            let moved = apply_cmds(apply_cmd(s, TermCmd::MoveTo(x, y)), mids);
            let restored = apply_cmd(moved, TermCmd::MoveTo(s.cursor_x, s.cursor_y));
            &&& restored.cursor_x == s.cursor_x
            &&& restored.cursor_y == s.cursor_y
            &&& restored.raw == s.raw
            &&& restored.alt == s.alt
            &&& restored.cursor_hidden == s.cursor_hidden
        }),
{
    lemma_drawing_preserves_flags(apply_cmd(s, TermCmd::MoveTo(x, y)), mids);
}

/// Two guards acquired in turn and released in reverse order put the cursor
/// back exactly where it stood before the first acquisition: the second
/// release restores the position the second guard saw (the first guard's
/// target), and the first release then restores the starting position.
pub proof fn lemma_guards_restore_in_reverse(s: TermState, x1: u16, y1: u16, x2: u16, y2: u16)
    ensures
        ({
            let s1 = apply_cmd(s, TermCmd::MoveTo(x1, y1));
            let s2 = apply_cmd(s1, TermCmd::MoveTo(x2, y2));
            let s3 = apply_cmd(s2, TermCmd::MoveTo(s1.cursor_x, s1.cursor_y));
            apply_cmd(s3, TermCmd::MoveTo(s.cursor_x, s.cursor_y)) == s
        }),
{
}

/// What one command does, as runnable code.
pub fn step(s: TermState, c: TermCmd) -> (r: TermState)
    ensures
        r == apply_cmd(s, c),
{
    match c {
        TermCmd::EnableRaw => TermState { raw: true, ..s },
        TermCmd::DisableRaw => TermState { raw: false, ..s },
        TermCmd::EnterAlt => TermState { alt: true, ..s },
        TermCmd::LeaveAlt => TermState { alt: false, ..s },
        TermCmd::HideCursor => TermState { cursor_hidden: true, ..s },
        TermCmd::ShowCursor => TermState { cursor_hidden: false, ..s },
        TermCmd::MoveTo(x, y) => TermState { cursor_x: x, cursor_y: y, ..s },
        TermCmd::ClearAll => s,
    }
}

} // verus!
