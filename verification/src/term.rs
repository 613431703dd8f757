//! The terminal session: entering raw mode and the alternate screen on
//! construction, queueing styled text, cursor moves and clears into a
//! buffer, flushing it, and restoring the terminal on release. Every method
//! states exactly what it adds to the buffer and to the session's command
//! logs; the crossterm and standard-output calls stand behind small trusted
//! wrappers.

use vstd::prelude::*;

use crate::color::StyleError;
use crate::model::{close_cmds, open_cmds, TermCmd};
use crate::style::{parse_and_render, render_matches};

verus! {

use crossterm::Command;

/// The decimal digit character for `d` in `0..=9`.
pub open spec fn digit_char(d: int) -> char {
    ((d + 48) as u8) as char
}

/// The decimal rendering of a non-negative number, most significant digit
/// first, without padding.
pub open spec fn dec_digits(n: int) -> Seq<char>
    decreases n,
{
    if n < 10 {
        seq![digit_char(n)]
    } else {
        dec_digits(n / 10) + seq![digit_char(n % 10)]
    }
}

/// The control sequence introducer `ESC [` that opens every sequence here.
pub open spec fn csi_prefix() -> Seq<char> {
    seq!['\u{1b}', '[']
}

/// The escape sequence that moves the cursor to column `x`, row `y`: the
/// coordinates are zero-based, the sequence's numbers one-based.
pub open spec fn move_to_text(x: u16, y: u16) -> Seq<char> {
    csi_prefix() + dec_digits(y as int + 1) + seq![';'] + dec_digits(x as int + 1) + seq!['H']
}

/// The escape sequence that switches to the alternate screen buffer.
pub open spec fn enter_alt_text() -> Seq<char> {
    csi_prefix() + seq!['?', '1', '0', '4', '9', 'h']
}

/// The escape sequence that returns to the main screen buffer.
pub open spec fn leave_alt_text() -> Seq<char> {
    csi_prefix() + seq!['?', '1', '0', '4', '9', 'l']
}

/// The escape sequence that hides the cursor.
pub open spec fn hide_cursor_text() -> Seq<char> {
    csi_prefix() + seq!['?', '2', '5', 'l']
}

/// The escape sequence that shows the cursor.
pub open spec fn show_cursor_text() -> Seq<char> {
    csi_prefix() + seq!['?', '2', '5', 'h']
}

/// The escape sequence that clears the whole screen.
pub open spec fn clear_all_text() -> Seq<char> {
    csi_prefix() + seq!['2', 'J']
}

/// The text a command queues into the session's buffer. Raw mode is switched
/// by an operating-system call, not by an escape sequence, so those two
/// commands queue nothing.
pub open spec fn cmd_text(c: TermCmd) -> Seq<char> {
    match c {
        TermCmd::EnableRaw => Seq::<char>::empty(),
        TermCmd::DisableRaw => Seq::<char>::empty(),
        TermCmd::EnterAlt => enter_alt_text(),
        TermCmd::LeaveAlt => leave_alt_text(),
        TermCmd::HideCursor => hide_cursor_text(),
        TermCmd::ShowCursor => show_cursor_text(),
        TermCmd::MoveTo(x, y) => move_to_text(x, y),
        TermCmd::ClearAll => clear_all_text(),
    }
}

#[verifier::external_type_specification]
#[verifier::external_body]
pub struct ExStdout(std::io::Stdout);

#[verifier::external_type_specification]
#[verifier::external_body]
pub struct ExIoError(std::io::Error);

#[verifier::external_type_specification]
#[verifier::external_body]
pub struct ExKeyEvent(crossterm::event::KeyEvent);

/// Relies on `std::io::stdout`: a handle to the process's standard output.
#[verifier::external_body]
fn get_stdout() -> (r: std::io::Stdout) {
    std::io::stdout()
}

/// Relies on `Write::write_all` for `&Stdout`; session setup must reach the
/// terminal, so a failure here aborts, as an unrecoverable environment error.
#[verifier::external_body]
fn write_or_abort(out: &std::io::Stdout, s: &str) {
    let mut w: &std::io::Stdout = out;
    std::io::Write::write_all(&mut w, s.as_bytes()).expect("Failed to setup terminal");
}

/// Relies on `Write::flush` for `&Stdout`; aborts on failure, as
/// `write_or_abort` does.
#[verifier::external_body]
fn flush_or_abort(out: &std::io::Stdout) {
    let mut w: &std::io::Stdout = out;
    std::io::Write::flush(&mut w).expect("Failed to setup terminal");
}

/// Relies on `Write::write_all` for `&Stdout`; delivery is best-effort, a
/// failure is swallowed.
#[verifier::external_body]
fn write_best_effort(out: &std::io::Stdout, s: &str) {
    let mut w: &std::io::Stdout = out;
    let _ = std::io::Write::write_all(&mut w, s.as_bytes());
}

/// Relies on `Write::flush` for `&Stdout`; best-effort, a failure is
/// swallowed.
#[verifier::external_body]
fn flush_best_effort(out: &std::io::Stdout) {
    let mut w: &std::io::Stdout = out;
    let _ = std::io::Write::flush(&mut w);
}

/// Relies on crossterm's `terminal::enable_raw_mode`; the session cannot
/// work without raw mode, so a failure aborts, as an unrecoverable
/// environment error.
#[verifier::external_body]
fn enable_raw_or_abort() {
    crossterm::terminal::enable_raw_mode().expect("Failed to enable raw mode");
}

/// Relies on crossterm's `terminal::disable_raw_mode`; teardown is
/// best-effort, a failure is swallowed.
#[verifier::external_body]
fn disable_raw_best_effort() {
    let _ = crossterm::terminal::disable_raw_mode();
}

/// Relies on crossterm's `EnterAlternateScreen` command, whose ANSI form is
/// the fixed sequence `ESC [ ? 1 0 4 9 h`.
#[verifier::external_body]
fn ansi_enter_alt() -> (r: String)
    ensures
        r@ == enter_alt_text(),
{
    let mut s = String::new();
    let _ = crossterm::terminal::EnterAlternateScreen.write_ansi(&mut s);
    s
}

/// Relies on crossterm's `LeaveAlternateScreen` command, whose ANSI form is
/// the fixed sequence `ESC [ ? 1 0 4 9 l`.
#[verifier::external_body]
fn ansi_leave_alt() -> (r: String)
    ensures
        r@ == leave_alt_text(),
{
    let mut s = String::new();
    let _ = crossterm::terminal::LeaveAlternateScreen.write_ansi(&mut s);
    s
}

/// Relies on crossterm's `cursor::Hide` command, whose ANSI form is the fixed
/// sequence `ESC [ ? 2 5 l`.
#[verifier::external_body]
fn ansi_hide_cursor() -> (r: String)
    ensures
        r@ == hide_cursor_text(),
{
    let mut s = String::new();
    let _ = crossterm::cursor::Hide.write_ansi(&mut s);
    s
}

/// Relies on crossterm's `cursor::Show` command, whose ANSI form is the fixed
/// sequence `ESC [ ? 2 5 h`.
#[verifier::external_body]
fn ansi_show_cursor() -> (r: String)
    ensures
        r@ == show_cursor_text(),
{
    let mut s = String::new();
    let _ = crossterm::cursor::Show.write_ansi(&mut s);
    s
}

/// Relies on crossterm's `Clear(ClearType::All)` command, whose ANSI form is
/// the fixed sequence `ESC [ 2 J`.
#[verifier::external_body]
fn ansi_clear_all() -> (r: String)
    ensures
        r@ == clear_all_text(),
{
    let mut s = String::new();
    let _ = crossterm::terminal::Clear(crossterm::terminal::ClearType::All).write_ansi(&mut s);
    s
}

/// Relies on crossterm's `MoveTo` command, whose ANSI form is
/// `ESC [ row+1 ; col+1 H` with both numbers in decimal; it adds one to each
/// coordinate, so it must not receive `u16::MAX`.
#[verifier::external_body]
fn ansi_move_to(x: u16, y: u16) -> (r: String)
    requires
        x < 65535,
        y < 65535,
    ensures
        r@ == move_to_text(x, y),
{
    let mut s = String::new();
    let _ = crossterm::cursor::MoveTo(x, y).write_ansi(&mut s);
    s
}

/// Relies on crossterm's `terminal::size`: the terminal's (columns, rows)
/// when they can be queried. The result depends on the environment, so
/// nothing is assumed of it; `size_from` fixes what each outcome yields.
#[verifier::external_body]
fn query_size() -> (r: Option<(u16, u16)>) {
    crossterm::terminal::size().ok()
}

/// Relies on crossterm's `cursor::position`: where the cursor stands when the
/// terminal can be queried. Environment-dependent, so nothing is assumed;
/// `saved_from` fixes what each outcome yields.
#[verifier::external_body]
fn query_cursor_position() -> (r: Option<(u16, u16)>) {
    crossterm::cursor::position().ok()
}

/// Relies on crossterm's `event::poll`: reports whether an input event is
/// ready, waiting at most the given number of milliseconds.
#[verifier::external_body]
fn poll_input(ms: u64) -> (r: Result<bool, std::io::Error>) {
    crossterm::event::poll(std::time::Duration::from_millis(ms))
}

/// Relies on crossterm's `event::read`: takes the next event, handing back
/// `Some` only for a key press (`KeyEventKind::Press`, so that key releases
/// and repeats do not double-trigger handlers); any other event is dropped.
#[verifier::external_body]
fn read_key_press() -> (r: Result<Option<crossterm::event::KeyEvent>, std::io::Error>) {
    match crossterm::event::read()? {
        crossterm::event::Event::Key(key) => match key.kind {
            crossterm::event::KeyEventKind::Press => Ok(Some(key)),
            _ => Ok(None),
        },
        _ => Ok(None),
    }
}

/// A terminal's dimensions: `x` columns by `y` rows.
#[derive(Clone, Copy, PartialEq, Eq, Structural, Debug)]
pub struct Size {
    pub x: u16,
    pub y: u16,
}

/// The size used when the terminal cannot report one: 80 columns by 24 rows.
pub open spec fn fallback_size() -> Size {
    Size { x: 80, y: 24 }
}

/// The size a query outcome yields: the reported pair, or the 80-by-24
/// fallback when the query failed. Terminal size is advisory, so a failed
/// query substitutes the default instead of failing the caller.
pub fn size_from(q: Option<(u16, u16)>) -> (r: Size)
    ensures
        q matches Some(wh) ==> r == (Size { x: wh.0, y: wh.1 }),
        q is None ==> r == fallback_size() && r.x > 0 && r.y > 0,
{
    match q {
        Some((w, h)) => Size { x: w, y: h },
        None => Size { x: 80, y: 24 },
    }
}

/// The position a guard remembers, fixed for every query outcome: the
/// reported pair, each coordinate capped at 65534 so that the restoring move
/// stays below the limit of crossterm's one-based arithmetic, or (0, 0) when
/// the query failed.
pub fn saved_from(q: Option<(u16, u16)>) -> (r: (u16, u16))
    ensures
        q matches Some(p) ==> r.0 == (if p.0 < 65535 {
            p.0
        } else {
            65534u16
        }) && r.1 == (if p.1 < 65535 {
            p.1
        } else {
            65534u16
        }),
        q is None ==> r == (0u16, 0u16),
        r.0 < 65535,
        r.1 < 65535,
{
    match q {
        Some((px, py)) => {
            let sx: u16 = if px < 65535 {
                px
            } else {
                65534
            };
            let sy: u16 = if py < 65535 {
                py
            } else {
                65534
            };
            (sx, sy)
        },
        None => (0, 0),
    }
}

/// One exclusive terminal-control lease. Constructing it puts the terminal
/// into raw mode, the alternate screen buffer, and hides the cursor;
/// releasing it with `close` reverses all three, in the opposite order.
/// In between, styled text and cursor instructions queue into a buffer that
/// `flush` delivers.
pub struct Terminal {
    out: std::io::Stdout,
    buf: String,
    pending: Ghost<Seq<TermCmd>>,
    issued: Ghost<Seq<TermCmd>>,
}

/// A scoped handle holding the cursor position that was current when it was
/// acquired; releasing it queues a move back to that position. It must not
/// outlive the session whose cursor it remembers.
pub struct LocationGuard {
    pub saved_x: u16,
    pub saved_y: u16,
}

impl Terminal {
    /// The text queued in the session's buffer and not yet delivered.
    pub closed spec fn buffered(self) -> Seq<char> {
        self.buf@
    }

    /// The control commands queued behind the buffer and not yet delivered.
    pub closed spec fn pending_log(self) -> Seq<TermCmd> {
        self.pending@
    }

    /// The control commands already delivered to the terminal, in order.
    pub closed spec fn issued_log(self) -> Seq<TermCmd> {
        self.issued@
    }

    /// Opens the session: enables raw input mode, switches to the alternate
    /// screen buffer and hides the cursor, in that order. A terminal that
    /// cannot be set up is an unrecoverable environment error and aborts.
    pub fn new() -> (t: Terminal)
        ensures
            t.issued_log() == open_cmds(),
            t.pending_log() == Seq::<TermCmd>::empty(),
            t.buffered() == Seq::<char>::empty(),
    {
        let out = get_stdout();
        enable_raw_or_abort();
        let mut setup = ansi_enter_alt();
        let hide = ansi_hide_cursor();
        setup.append(hide.as_str());
        write_or_abort(&out, setup.as_str());
        flush_or_abort(&out);
        Terminal {
            out,
            buf: String::new(),
            pending: Ghost(Seq::empty()),
            issued: Ghost(open_cmds()),
        }
    }

    /// Styles `text` by the style string `["bold_"]fg["_on_"bg]`; pure
    /// formatting, the session is untouched.
    pub fn style(&self, style_spec: &str, text: &str) -> (r: Result<String, StyleError>)
        ensures
            render_matches(style_spec@, r),
    {
        parse_and_render(style_spec, text)
    }

    /// Queues a cursor move to column `x`, row `y`; nothing is delivered
    /// until `flush`.
    pub fn move_to(&mut self, x: u16, y: u16)
        requires
            x < 65535,
            y < 65535,
        ensures
            final (self).buffered() == old(self).buffered() + cmd_text(TermCmd::MoveTo(x, y)),
            final (self).pending_log() == old(self).pending_log().push(TermCmd::MoveTo(x, y)),
            final (self).issued_log() == old(self).issued_log(),
    {
        let m = ansi_move_to(x, y);
        self.buf.append(m.as_str());
        self.pending = Ghost(self.pending@.push(TermCmd::MoveTo(x, y)));
    }

    /// Queues a full-screen clear; nothing is delivered until `flush`.
    pub fn clear(&mut self)
        ensures
            final (self).buffered() == old(self).buffered() + cmd_text(TermCmd::ClearAll),
            final (self).pending_log() == old(self).pending_log().push(TermCmd::ClearAll),
            final (self).issued_log() == old(self).issued_log(),
    {
        let c = ansi_clear_all();
        self.buf.append(c.as_str());
        self.pending = Ghost(self.pending@.push(TermCmd::ClearAll));
    }

    /// Appends `text` to the buffer, as it is; nothing is delivered until
    /// `flush`.
    pub fn print(&mut self, text: &str)
        ensures
            final (self).buffered() == old(self).buffered() + text@,
            final (self).pending_log() == old(self).pending_log(),
            final (self).issued_log() == old(self).issued_log(),
    {
        self.buf.append(text);
    }

    /// Delivers everything queued to the terminal, best-effort: a failure of
    /// the output stream is swallowed, since no recovery is possible at this
    /// layer. The buffer is empty afterwards either way.
    pub fn flush(&mut self)
        ensures
            final (self).buffered() == Seq::<char>::empty(),
            final (self).pending_log() == Seq::<TermCmd>::empty(),
            final (self).issued_log() == old(self).issued_log() + old(self).pending_log(),
    {
        write_best_effort(&self.out, self.buf.as_str());
        flush_best_effort(&self.out);
        self.buf = String::new();
        self.issued = Ghost(self.issued@ + self.pending@);
        self.pending = Ghost(Seq::empty());
    }

    /// Queries the terminal's dimensions; when the environment cannot report
    /// them, the advisory 80-by-24 default stands in. `size_from` fixes the
    /// result for every query outcome.
    pub fn size(&self) -> (r: Size) {
        size_from(query_size())
    }

    /// Remembers the position the cursor occupies now — as `saved_from` fixes
    /// it for every query outcome: (0, 0) when it cannot be queried — and
    /// queues a move to column `x`, row `y`; the returned guard queues a move
    /// back to the remembered position when released.
    pub fn location(&mut self, x: u16, y: u16) -> (g: LocationGuard)
        requires
            x < 65535,
            y < 65535,
        ensures
            final (self).buffered() == old(self).buffered() + cmd_text(TermCmd::MoveTo(x, y)),
            final (self).pending_log() == old(self).pending_log().push(TermCmd::MoveTo(x, y)),
            final (self).issued_log() == old(self).issued_log(),
            g.saved_x < 65535,
            g.saved_y < 65535,
    {
        let q = query_cursor_position();
        let (sx, sy) = saved_from(q);
        self.move_to(x, y);
        LocationGuard { saved_x: sx, saved_y: sy }
    }

    /// Polls for input for about a millisecond and hands a key press, if one
    /// arrived, to `handler`; non-blocking, so callers can drive their own
    /// loop. The session itself is untouched.
    pub fn add_input_handler<F: FnMut(crossterm::event::KeyEvent)>(
        &mut self,
        handler: F,
    ) -> (r: Result<(), std::io::Error>)
        requires
            forall|k: crossterm::event::KeyEvent| call_requires(handler, (k,)),
        ensures
            *final (self) == *old(self),
    {
        let mut h = handler;
        match poll_input(1) {
            Ok(true) => match read_key_press() {
                Ok(Some(key)) => {
                    h(key);
                    Ok(())
                },
                Ok(None) => Ok(()),
                Err(e) => Err(e),
            },
            Ok(false) => Ok(()),
            Err(e) => Err(e),
        }
    }

    /// Closes the session: delivers whatever is still queued, leaves the
    /// alternate screen, shows the cursor and disables raw mode, in that
    /// order — the reverse of opening. Teardown is best-effort: failures are
    /// swallowed, since they would otherwise mask the error that ended the
    /// session. The returned log is every control command the session issued
    /// over its whole life, in order.
    pub fn close(self) -> (log: Ghost<Seq<TermCmd>>)
        ensures
            log@ == self.issued_log() + self.pending_log() + close_cmds(),
    {
        let mut me = self;
        let la = ansi_leave_alt();
        me.buf.append(la.as_str());
        let sc = ansi_show_cursor();
        me.buf.append(sc.as_str());
        write_best_effort(&me.out, me.buf.as_str());
        flush_best_effort(&me.out);
        disable_raw_best_effort();
        Ghost(me.issued@ + me.pending@ + close_cmds())
    }
}

impl LocationGuard {
    /// Releases the guard: queues a move back to the position remembered at
    /// acquisition. Runs once, consuming the guard; the restore is queued,
    /// not delivered, so callers who need it visible flush afterwards.
    pub fn release(self, term: &mut Terminal)
        requires
            self.saved_x < 65535,
            self.saved_y < 65535,
        ensures
            final (term).buffered() == old(term).buffered() + cmd_text(
                TermCmd::MoveTo(self.saved_x, self.saved_y),
            ),
            final (term).pending_log() == old(term).pending_log().push(
                TermCmd::MoveTo(self.saved_x, self.saved_y),
            ),
            final (term).issued_log() == old(term).issued_log(),
    {
        term.move_to(self.saved_x, self.saved_y);
    }
}

} // verus!
