//! The color names a style string may use, and their resolution.

use vstd::prelude::*;

verus! {

/// The nine colors a style name can resolve to. `"grey"` and `"gray"` are two
/// spellings of `Color::Grey`; every name is matched without regard to ASCII
/// case.
#[derive(Clone, Copy, PartialEq, Eq, Structural, Debug)]
pub enum Color {
    Black,
    Red,
    Green,
    Yellow,
    Blue,
    Magenta,
    Cyan,
    White,
    Grey,
}

/// What a styling operation can report: a color name outside the recognized
/// set (carrying that name), or a style string whose shape does not fit
/// `["bold_"]fg["_on_"bg]` (carrying the whole style string).
#[derive(Debug)]
pub enum StyleError {
    UnknownColorError(String),
    InvalidStyleSpecError(String),
}

/// ASCII lowercasing of one character: `'A'..='Z'` map to `'a'..='z'`,
/// every other character is unchanged.
pub open spec fn lower_char(c: char) -> char {
    if 'A' <= c && c <= 'Z' {
        (((c as u8) + 32) as char)
    } else {
        c
    }
}

/// ASCII lowercasing of a whole string.
pub open spec fn lower(s: Seq<char>) -> Seq<char> {
    s.map_values(|c: char| lower_char(c))
}

/// The color a lowercase name denotes, if any.
pub open spec fn color_of(s: Seq<char>) -> Option<Color> {
    if s == "black"@ {
        Some(Color::Black)
    } else if s == "red"@ {
        Some(Color::Red)
    } else if s == "green"@ {
        Some(Color::Green)
    } else if s == "yellow"@ {
        Some(Color::Yellow)
    } else if s == "blue"@ {
        Some(Color::Blue)
    } else if s == "magenta"@ {
        Some(Color::Magenta)
    } else if s == "cyan"@ {
        Some(Color::Cyan)
    } else if s == "white"@ {
        Some(Color::White)
    } else if s == "grey"@ || s == "gray"@ {
        Some(Color::Grey)
    } else {
        None
    }
}

/// What `resolve` returns: the name is matched after ASCII lowercasing.
pub open spec fn resolve_spec(name: Seq<char>) -> Option<Color> {
    color_of(lower(name))
}

/// Lowercasing twice is the same as lowercasing once.
pub proof fn lemma_lower_idempotent(s: Seq<char>)
    ensures
        lower(lower(s)) == lower(s),
{
    assert forall|i: int| 0 <= i < s.len() implies lower_char(lower_char(s[i])) == lower_char(
        s[i],
    ) by {
        if 'A' <= s[i] && s[i] <= 'Z' {
            assert(!('A' <= lower_char(s[i]) && lower_char(s[i]) <= 'Z'));
        }
    }
    assert(lower(lower(s)) =~= lower(s));
}

/// Two spellings of a name that agree up to ASCII case resolve alike: in
/// particular every casing of a recognized color name resolves to the same
/// `Color` as its lowercase spelling.
pub proof fn lemma_resolve_case_insensitive(a: Seq<char>, b: Seq<char>)
    requires
        lower(a) == lower(b),
    ensures
        resolve_spec(a) == resolve_spec(b),
{
}

/// True iff `name`, ASCII-lowercased, equals `target` (given lowercase).
fn eq_ignore_ascii_case(name: &str, target: &str) -> (r: bool)
    ensures
        r == (lower(name@) == target@),
{
    let n = name.unicode_len();
    let m = target.unicode_len();
    if n != m {
        proof {
            assert(lower(name@).len() == name@.len());
        }
        return false;
    }
    let mut i: usize = 0;
    while i < n
        invariant
            n == name@.len(),
            n == target@.len(),
            i <= n,
            forall|j: int| 0 <= j < i ==> lower_char(name@[j]) == target@[j],
        decreases n - i,
    {
        let c = name.get_char(i);
        let lc: char = if 'A' <= c && c <= 'Z' {
            ((c as u8) + 32) as char
        } else {
            c
        };
        assert(lc == lower_char(name@[i as int]));
        if lc != target.get_char(i) {
            proof {
                assert(lower(name@)[i as int] != target@[i as int]);
            }
            return false;
        }
        i += 1;
    }
    proof {
        assert(lower(name@) =~= target@);
    }
    true
}

/// Maps a color name to its `Color`, without regard to ASCII case; an
/// unrecognized name comes back as `UnknownColorError` carrying that name.
pub fn resolve(name: &str) -> (r: Result<Color, StyleError>)
    ensures
        match resolve_spec(name@) {
            Some(c) => r matches Ok(rc) && rc == c,
            None => r matches Err(StyleError::UnknownColorError(n)) && n@ == name@,
        },
{
    let r = if eq_ignore_ascii_case(name, "black") {
        Ok(Color::Black)
    } else if eq_ignore_ascii_case(name, "red") {
        Ok(Color::Red)
    } else if eq_ignore_ascii_case(name, "green") {
        Ok(Color::Green)
    } else if eq_ignore_ascii_case(name, "yellow") {
        Ok(Color::Yellow)
    } else if eq_ignore_ascii_case(name, "blue") {
        Ok(Color::Blue)
    } else if eq_ignore_ascii_case(name, "magenta") {
        Ok(Color::Magenta)
    } else if eq_ignore_ascii_case(name, "cyan") {
        Ok(Color::Cyan)
    } else if eq_ignore_ascii_case(name, "white") {
        Ok(Color::White)
    } else if eq_ignore_ascii_case(name, "grey") || eq_ignore_ascii_case(name, "gray") {
        Ok(Color::Grey)
    } else {
        Err(StyleError::UnknownColorError(String::from_str(name)))
    };
    r
}

} // verus!
