use blessingrs::model::{step, TermCmd, TermState};
use blessingrs::term::{saved_from, size_from, Size};

fn normal_at(x: u16, y: u16) -> TermState {
    TermState {
        raw: false,
        alt: false,
        cursor_hidden: false,
        cursor_x: x,
        cursor_y: y,
    }
}

#[test]
fn opening_then_closing_restores_the_starting_state() {
    let start = normal_at(3, 7);
    let mut s = start;
    for c in [
        TermCmd::EnableRaw,
        TermCmd::EnterAlt,
        TermCmd::HideCursor,
        TermCmd::LeaveAlt,
        TermCmd::ShowCursor,
        TermCmd::DisableRaw,
    ] {
        s = step(s, c);
    }
    assert_eq!(s, start);
}

#[test]
fn session_restores_mode_around_drawing() {
    let start = normal_at(0, 0);
    let mut s = start;
    for c in [
        TermCmd::EnableRaw,
        TermCmd::EnterAlt,
        TermCmd::HideCursor,
        TermCmd::ClearAll,
        TermCmd::MoveTo(10, 2),
        TermCmd::MoveTo(4, 4),
        TermCmd::LeaveAlt,
        TermCmd::ShowCursor,
        TermCmd::DisableRaw,
    ] {
        s = step(s, c);
    }
    assert!(!s.raw && !s.alt && !s.cursor_hidden);
}

#[test]
fn guard_release_returns_to_the_position_at_acquisition() {
    // The cursor stood at (2, 3); a guard moves it to (5, 10); the release
    // restores (2, 3), not (5, 10).
    let start = normal_at(2, 3);
    let moved = step(start, TermCmd::MoveTo(5, 10));
    assert_eq!((moved.cursor_x, moved.cursor_y), (5, 10));
    let restored = step(moved, TermCmd::MoveTo(start.cursor_x, start.cursor_y));
    assert_eq!((restored.cursor_x, restored.cursor_y), (2, 3));
    assert_eq!(restored, start);
}

#[test]
fn nested_guards_released_in_reverse_order_unwind_like_a_stack() {
    let start = normal_at(1, 1);
    // First guard: remembers (1, 1), moves to (5, 5).
    let s1 = step(start, TermCmd::MoveTo(5, 5));
    // Second guard: remembers (5, 5), moves to (9, 9).
    let s2 = step(s1, TermCmd::MoveTo(9, 9));
    // Release the second guard first, then the first.
    let s3 = step(s2, TermCmd::MoveTo(s1.cursor_x, s1.cursor_y));
    assert_eq!((s3.cursor_x, s3.cursor_y), (5, 5));
    let s4 = step(s3, TermCmd::MoveTo(start.cursor_x, start.cursor_y));
    assert_eq!(s4, start);
}

#[test]
fn size_falls_back_to_80_by_24() {
    let fallback = size_from(None);
    assert_eq!(fallback, Size { x: 80, y: 24 });
    assert!(fallback.x > 0 && fallback.y > 0);
}

#[test]
fn size_reports_the_queried_dimensions() {
    assert_eq!(size_from(Some((120, 40))), Size { x: 120, y: 40 });
}

#[test]
fn guard_position_defaults_to_origin_on_a_failed_query() {
    assert_eq!(saved_from(None), (0, 0));
    assert_eq!(saved_from(Some((7, 9))), (7, 9));
}

#[test]
fn guard_position_is_capped_below_the_move_limit() {
    assert_eq!(saved_from(Some((65535, 3))), (65534, 3));
    assert_eq!(saved_from(Some((2, 65535))), (2, 65534));
    assert_eq!(saved_from(Some((65534, 65534))), (65534, 65534));
}
