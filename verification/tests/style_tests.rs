use blessingrs::color::resolve;
use blessingrs::style::parse;
use blessingrs::{parse_and_render, Color, StyleError, StyleSpec};
use crossterm::style::Stylize;

#[test]
fn resolve_is_case_insensitive() {
    assert_eq!(resolve("Gray").unwrap(), Color::Grey);
    assert_eq!(resolve("GREY").unwrap(), Color::Grey);
    assert_eq!(resolve("gray").unwrap(), Color::Grey);
    assert_eq!(resolve("grey").unwrap(), Color::Grey);
    assert_eq!(resolve("RED").unwrap(), Color::Red);
    assert_eq!(resolve("Red").unwrap(), resolve("red").unwrap());
    assert_eq!(resolve("BLACK").unwrap(), resolve("black").unwrap());
}

#[test]
fn resolve_accepts_every_recognized_name() {
    assert_eq!(resolve("black").unwrap(), Color::Black);
    assert_eq!(resolve("red").unwrap(), Color::Red);
    assert_eq!(resolve("green").unwrap(), Color::Green);
    assert_eq!(resolve("yellow").unwrap(), Color::Yellow);
    assert_eq!(resolve("blue").unwrap(), Color::Blue);
    assert_eq!(resolve("magenta").unwrap(), Color::Magenta);
    assert_eq!(resolve("cyan").unwrap(), Color::Cyan);
    assert_eq!(resolve("white").unwrap(), Color::White);
    assert_eq!(resolve("grey").unwrap(), Color::Grey);
    assert_eq!(resolve("gray").unwrap(), Color::Grey);
}

#[test]
fn resolve_rejects_unknown_name() {
    match resolve("purple") {
        Err(StyleError::UnknownColorError(name)) => assert_eq!(name, "purple"),
        other => panic!("expected UnknownColorError, got {:?}", other),
    }
}

#[test]
fn parse_bold_foreground_only() {
    let ss = parse("bold_red").unwrap();
    assert_eq!(
        ss,
        StyleSpec { bold: true, foreground: Color::Red, background: None }
    );
}

#[test]
fn parse_foreground_and_background() {
    let ss = parse("red_on_black").unwrap();
    assert_eq!(
        ss,
        StyleSpec { bold: false, foreground: Color::Red, background: Some(Color::Black) }
    );
}

#[test]
fn parse_names_ignore_case_but_separators_do_not() {
    let ss = parse("RED_on_BLACK").unwrap();
    assert_eq!(
        ss,
        StyleSpec { bold: false, foreground: Color::Red, background: Some(Color::Black) }
    );
    match parse("red_ON_black") {
        Err(StyleError::UnknownColorError(name)) => assert_eq!(name, "red_ON_black"),
        other => panic!("expected UnknownColorError, got {:?}", other),
    }
}

#[test]
fn parse_rejects_an_empty_style_string_as_malformed() {
    match parse("") {
        Err(StyleError::InvalidStyleSpecError(style_spec)) => assert_eq!(style_spec, ""),
        other => panic!("expected InvalidStyleSpecError, got {:?}", other),
    }
}

#[test]
fn parse_rejects_a_bare_bold_prefix_as_malformed() {
    match parse("bold_") {
        Err(StyleError::InvalidStyleSpecError(style_spec)) => assert_eq!(style_spec, "bold_"),
        other => panic!("expected InvalidStyleSpecError, got {:?}", other),
    }
}

#[test]
fn parse_treats_an_empty_background_name_as_an_unknown_color() {
    match parse("red_on_") {
        Err(StyleError::UnknownColorError(name)) => assert_eq!(name, ""),
        other => panic!("expected UnknownColorError, got {:?}", other),
    }
}

#[test]
fn render_bold_red_foreground() {
    let got = parse_and_render("bold_red", "x").unwrap();
    let want = format!("{}", "x".with(crossterm::style::Color::Red).bold());
    assert_eq!(got, want);
    assert_ne!(got, "x");
}

#[test]
fn render_red_on_black_without_bold() {
    let got = parse_and_render("red_on_black", "x").unwrap();
    let want = format!(
        "{}",
        "x".with(crossterm::style::Color::Red)
            .on(crossterm::style::Color::Black)
    );
    assert_eq!(got, want);
    let bolded = format!(
        "{}",
        "x".with(crossterm::style::Color::Red)
            .on(crossterm::style::Color::Black)
            .bold()
    );
    assert_ne!(got, bolded);
}

#[test]
fn render_bold_white_on_blue() {
    let got = parse_and_render("bold_white_on_blue", "x").unwrap();
    let want = format!(
        "{}",
        "x".with(crossterm::style::Color::White)
            .on(crossterm::style::Color::Blue)
            .bold()
    );
    assert_eq!(got, want);
}

#[test]
fn render_rejects_two_separators() {
    match parse_and_render("red_on_blue_on_green", "x") {
        Err(StyleError::InvalidStyleSpecError(style_spec)) => {
            assert_eq!(style_spec, "red_on_blue_on_green")
        }
        other => panic!("expected InvalidStyleSpecError, got {:?}", other),
    }
}

#[test]
fn render_rejects_unknown_color() {
    match parse_and_render("purple", "x") {
        Err(StyleError::UnknownColorError(name)) => assert_eq!(name, "purple"),
        other => panic!("expected UnknownColorError, got {:?}", other),
    }
}

#[test]
fn render_reports_the_foreground_when_both_names_are_unknown() {
    match parse_and_render("lilac_on_mauve", "x") {
        Err(StyleError::UnknownColorError(name)) => assert_eq!(name, "lilac"),
        other => panic!("expected UnknownColorError, got {:?}", other),
    }
}

#[test]
fn render_grey_and_gray_agree() {
    let grey = parse_and_render("grey", "x").unwrap();
    let gray = parse_and_render("GRAY", "x").unwrap();
    assert_eq!(grey, gray);
    let want = format!("{}", "x".with(crossterm::style::Color::Grey));
    assert_eq!(grey, want);
}
