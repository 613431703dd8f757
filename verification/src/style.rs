//! The style-string mini-language `["bold_"]fg["_on_"bg]`: its exact grammar,
//! a verified parser, and rendering of parsed styles to ANSI-styled text
//! through crossterm.

use vstd::prelude::*;

use crate::color::{resolve, resolve_spec, Color, StyleError};
use crossterm::style::Color as CtColor;

verus! {

/// The separator between the foreground and background names.
pub open spec fn sep() -> Seq<char> {
    "_on_"@
}

/// There is an occurrence of `"_on_"` at position `i` of `s`.
pub open spec fn match_at(s: Seq<char>, i: int) -> bool {
    0 <= i && i + 4 <= s.len() && s.subrange(i, i + 4) == sep()
}

/// The position of the leftmost occurrence of `"_on_"` in `s`, if any.
pub open spec fn first_sep(s: Seq<char>) -> Option<int>
    decreases s.len(),
{
    if s.len() < 4 {
        None
    } else if s.subrange(0, 4) == sep() {
        Some(0)
    } else {
        match first_sep(s.drop_first()) {
            Some(i) => Some(i + 1),
            None => None,
        }
    }
}

/// Splitting `s` on every occurrence of `"_on_"`, leftmost first: the parts
/// between (and around) the non-overlapping occurrences, in order. A string
/// without the separator is one part; `k` occurrences give `k + 1` parts.
pub open spec fn split_on_sep(s: Seq<char>) -> Seq<Seq<char>>
    decreases s.len(),
{
    match first_sep(s) {
        Some(i) => {
            if 0 <= i && i + 4 <= s.len() {
                seq![s.take(i)] + split_on_sep(s.skip(i + 4))
            } else {
                seq![s]
            }
        },
        None => seq![s],
    }
}

/// `first_sep` finds exactly the leftmost occurrence: a `Some(i)` is an
/// occurrence with none before it, and `None` means there is none at all.
pub proof fn lemma_first_sep_characterization(s: Seq<char>)
    ensures
        match first_sep(s) {
            Some(i) => match_at(s, i) && (forall|j: int| 0 <= j < i ==> !match_at(s, j)),
            None => forall|j: int| !match_at(s, j),
        },
    decreases s.len(),
{
    if s.len() < 4 {
    } else if s.subrange(0, 4) == sep() {
    } else {
        lemma_first_sep_characterization(s.drop_first());
        assert forall|j: int| 0 <= j implies (match_at(s, j + 1) <==> match_at(
            s.drop_first(),
            j,
        )) by {
            if j + 5 <= s.len() {
                assert(s.drop_first().subrange(j, j + 4) =~= s.subrange(j + 1, j + 5));
            }
        }
        match first_sep(s.drop_first()) {
            Some(i) => {
                assert(match_at(s, i + 1));
                assert forall|j: int| 0 <= j < i + 1 implies !match_at(s, j) by {
                    if j == 0 {
                        if match_at(s, 0) {
                            assert(s.subrange(0, 4) == sep());
                        }
                    } else {
                        assert(!match_at(s.drop_first(), j - 1));
                    }
                }
            },
            None => {
                assert forall|j: int| !match_at(s, j) by {
                    if j == 0 {
                        if match_at(s, 0) {
                            assert(s.subrange(0, 4) == sep());
                        }
                    } else if j > 0 {
                        assert(!match_at(s.drop_first(), j - 1));
                    }
                }
            },
        }
    }
}

/// Finds the leftmost `"_on_"` in `s`.
fn find_sep(s: &str) -> (r: Option<usize>)
    ensures
        r matches Some(i) ==> first_sep(s@) == Some(i as int),
        r is None ==> first_sep(s@) is None,
{
    proof {
        lemma_first_sep_characterization(s@);
        reveal_strlit("_on_");
    }
    let n = s.unicode_len();
    if n < 4 {
        return None;
    }
    let mut i: usize = 0;
    while i <= n - 4
        invariant
            n == s@.len(),
            4 <= n,
            i <= n,
            forall|j: int| 0 <= j < i ==> !match_at(s@, j),
        decreases n - i,
    {
        let hit = s.get_char(i) == '_' && s.get_char(i + 1) == 'o' && s.get_char(i + 2) == 'n'
            && s.get_char(i + 3) == '_';
        proof {
            reveal_strlit("_on_");
            lemma_first_sep_characterization(s@);
            if hit {
                assert(s@.subrange(i as int, i as int + 4) =~= sep());
                assert(match_at(s@, i as int));
            } else {
                if match_at(s@, i as int) {
                    assert(s@.subrange(i as int, i as int + 4) == sep());
                    assert(s@[i as int] == sep()[0]);
                    assert(s@[i as int + 1] == sep()[1]);
                    assert(s@[i as int + 2] == sep()[2]);
                    assert(s@[i as int + 3] == sep()[3]);
                }
            }
        }
        if hit {
            proof {
                match first_sep(s@) {
                    Some(i0) => {
                        if i0 < i as int {
                            assert(!match_at(s@, i0));
                        }
                        if i0 > i as int {
                            assert(!match_at(s@, i as int));
                        }
                    },
                    None => {
                        assert(!match_at(s@, i as int));
                    },
                }
            }
            return Some(i);
        }
        i += 1;
    }
    proof {
        match first_sep(s@) {
            Some(i0) => {
                assert(match_at(s@, i0));
                assert(i0 < i);
                assert(!match_at(s@, i0));
            },
            None => {},
        }
    }
    None
}

/// Splits `s` on every occurrence of `"_on_"`, leftmost first.
fn split_str(s: &str) -> (parts: Vec<String>)
    ensures
        parts.deep_view() == split_on_sep(s@),
        parts.len() >= 1,
    decreases s@.len(),
{
    proof {
        lemma_first_sep_characterization(s@);
    }
    match find_sep(s) {
        Some(i) => {
            let n = s.unicode_len();
            let head = s.substring_char(0, i);
            let tail = s.substring_char(i + 4, n);
            let mut parts = split_str(tail);
            let head_string = String::from_str(head);
            parts.insert(0, head_string);
            proof {
                assert(head@ =~= s@.take(i as int));
                assert(tail@ =~= s@.skip(i as int + 4));
                assert(parts.deep_view() =~= split_on_sep(s@));
            }
            parts
        },
        None => {
            let mut parts: Vec<String> = Vec::new();
            parts.push(String::from_str(s));
            proof {
                assert(parts.deep_view() =~= split_on_sep(s@));
            }
            parts
        },
    }
}

/// The style string opens with the literal prefix `"bold_"`.
pub open spec fn has_bold_prefix(s: Seq<char>) -> bool {
    s.len() >= 5 && s.subrange(0, 5) == "bold_"@
}

/// The style string with its `"bold_"` prefix stripped, if it has one.
pub open spec fn body_of(s: Seq<char>) -> Seq<char> {
    if has_bold_prefix(s) {
        s.skip(5)
    } else {
        s
    }
}

fn has_bold_prefix_exec(s: &str) -> (r: bool)
    ensures
        r == has_bold_prefix(s@),
{
    proof {
        reveal_strlit("bold_");
    }
    let n = s.unicode_len();
    if n < 5 {
        return false;
    }
    let r = s.get_char(0) == 'b' && s.get_char(1) == 'o' && s.get_char(2) == 'l' && s.get_char(3)
        == 'd' && s.get_char(4) == '_';
    proof {
        if r {
            assert(s@.subrange(0, 5) =~= "bold_"@);
        } else {
            if has_bold_prefix(s@) {
                assert(s@[0] == "bold_"@[0]);
                assert(s@[1] == "bold_"@[1]);
                assert(s@[2] == "bold_"@[2]);
                assert(s@[3] == "bold_"@[3]);
                assert(s@[4] == "bold_"@[4]);
            }
        }
    }
    r
}

/// A parsed style: whether the text is bolded, its foreground color, and its
/// background color if one was named.
#[derive(Clone, Copy, PartialEq, Debug)]
pub struct StyleSpec {
    pub bold: bool,
    pub foreground: Color,
    pub background: Option<Color>,
}

/// What parsing a style string yields: a style, an unrecognized color name,
/// or a malformed shape — more than one `"_on_"` separator, or nothing at all
/// after the optional `"bold_"` prefix.
pub enum Parsed {
    Styled(bool, Color, Option<Color>),
    UnknownName(Seq<char>),
    BadShape,
}

/// The grammar `["bold_"]fg["_on_"bg]`, exactly: strip an optional `"bold_"`
/// prefix, split the rest on every `"_on_"`, and resolve one part as a
/// foreground or two parts as foreground and background. An empty remainder
/// has no parts at all and is malformed. The foreground is resolved before
/// the background, so when both are unrecognized the foreground is the name
/// reported.
pub open spec fn parse_outcome(s: Seq<char>) -> Parsed {
    let body = body_of(s);
    let parts = split_on_sep(body);
    if body.len() == 0 {
        Parsed::BadShape
    } else if parts.len() == 1 {
        match resolve_spec(parts[0]) {
            Some(c) => Parsed::Styled(has_bold_prefix(s), c, None),
            None => Parsed::UnknownName(parts[0]),
        }
    } else if parts.len() == 2 {
        match resolve_spec(parts[0]) {
            Some(fg) => match resolve_spec(parts[1]) {
                Some(bg) => Parsed::Styled(has_bold_prefix(s), fg, Some(bg)),
                None => Parsed::UnknownName(parts[1]),
            },
            None => Parsed::UnknownName(parts[0]),
        }
    } else {
        Parsed::BadShape
    }
}

/// `r` is what parsing `s` must produce: the parsed style on success, else
/// `UnknownColorError` carrying the offending name, or
/// `InvalidStyleSpecError` carrying the whole style string.
pub open spec fn parse_matches(s: Seq<char>, r: Result<StyleSpec, StyleError>) -> bool {
    match parse_outcome(s) {
        Parsed::Styled(b, fg, bg) => r matches Ok(ss) && ss.bold == b && ss.foreground == fg
            && ss.background == bg,
        Parsed::UnknownName(n) => r matches Err(StyleError::UnknownColorError(ns)) && ns@ == n,
        Parsed::BadShape => r matches Err(StyleError::InvalidStyleSpecError(orig)) && orig@ == s,
    }
}

/// Parses a style string against the grammar `["bold_"]fg["_on_"bg]`.
pub fn parse(style_spec: &str) -> (r: Result<StyleSpec, StyleError>)
    ensures
        parse_matches(style_spec@, r),
{
    let bold = has_bold_prefix_exec(style_spec);
    let n = style_spec.unicode_len();
    let body: &str = if bold {
        style_spec.substring_char(5, n)
    } else {
        style_spec
    };
    proof {
        assert(body@ =~= body_of(style_spec@));
    }
    if body.unicode_len() == 0 {
        return Err(StyleError::InvalidStyleSpecError(String::from_str(style_spec)));
    }
    let parts = split_str(body);
    if parts.len() == 1 {
        proof {
            assert(parts.deep_view()[0] == split_on_sep(body_of(style_spec@))[0]);
        }
        match resolve(parts[0].as_str()) {
            Ok(c) => Ok(StyleSpec { bold, foreground: c, background: None }),
            Err(e) => Err(e),
        }
    } else if parts.len() == 2 {
        proof {
            assert(parts.deep_view()[0] == split_on_sep(body_of(style_spec@))[0]);
            assert(parts.deep_view()[1] == split_on_sep(body_of(style_spec@))[1]);
        }
        match resolve(parts[0].as_str()) {
            Ok(fg) => match resolve(parts[1].as_str()) {
                Ok(bg) => Ok(StyleSpec { bold, foreground: fg, background: Some(bg) }),
                Err(e) => Err(e),
            },
            Err(e) => Err(e),
        }
    } else {
        Err(StyleError::InvalidStyleSpecError(String::from_str(style_spec)))
    }
}

/// Relies on crossterm's `Display` for `StyledContent`: rendering writes the
/// ANSI sequences for the style's colors and attributes around the text. The
/// body converts the parsed style field by field into crossterm's
/// `ContentStyle`. What exactly is written depends on process-global color
/// settings (the `NO_COLOR` environment and crossterm's
/// `force_color_output`), so nothing is assumed of the returned string.
#[verifier::external_body]
fn render_styled(text: &str, bold: bool, fg: Color, bg: Option<Color>) -> (r: String) {
    let conv = |c: Color| match c {
        Color::Black => CtColor::Black, Color::Red => CtColor::Red, Color::Green => CtColor::Green,
        Color::Yellow => CtColor::Yellow, Color::Blue => CtColor::Blue, Color::Magenta => CtColor::Magenta,
        Color::Cyan => CtColor::Cyan, Color::White => CtColor::White, Color::Grey => CtColor::Grey,
    };
    let mut style = crossterm::style::ContentStyle::new();
    style.foreground_color = Some(conv(fg));
    style.background_color = bg.map(conv);
    if bold { style.attributes.set(crossterm::style::Attribute::Bold); }
    format!("{}", crossterm::style::StyledContent::new(style, text))
}

/// `r` is what parsing and rendering must produce: a rendered string exactly
/// when the style string parses, else the parse error, exactly. The rendered
/// string itself depends on process-global color settings, so no more is
/// stated of it.
pub open spec fn render_matches(s: Seq<char>, r: Result<String, StyleError>) -> bool {
    match parse_outcome(s) {
        Parsed::Styled(_, _, _) => r is Ok,
        Parsed::UnknownName(n) => r matches Err(StyleError::UnknownColorError(ns)) && ns@ == n,
        Parsed::BadShape => r matches Err(StyleError::InvalidStyleSpecError(orig)) && orig@ == s,
    }
}

/// Parses `style_spec` and applies the parsed style to `text`, producing the
/// ANSI-styled string; a malformed style string produces its error before any
/// styled text exists.
pub fn parse_and_render(style_spec: &str, text: &str) -> (r: Result<String, StyleError>)
    ensures
        render_matches(style_spec@, r),
{
    match parse(style_spec) {
        Ok(ss) => Ok(render_styled(text, ss.bold, ss.foreground, ss.background)),
        Err(e) => Err(e),
    }
}

} // verus!
