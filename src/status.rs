//! Status marks: the glyph shown beside each check, painted green or red.

use vstd::prelude::*;

verus! {

/// The escape character that starts a terminal control sequence.
pub open spec fn escape_char() -> char {
    '\u{1b}'
}

/// The control sequence that selects the foreground color numbered `code`.
pub open spec fn select_color(code: Seq<char>) -> Seq<char> {
    seq![escape_char(), '['] + code + seq!['m']
}

/// The control sequence that resets all attributes.
pub open spec fn reset_attributes() -> Seq<char> {
    seq![escape_char(), '[', '0', 'm']
}

/// The color code of green text.
pub open spec fn green_code() -> Seq<char> {
    seq!['3', '2']
}

/// The color code of red text.
pub open spec fn red_code() -> Seq<char> {
    seq!['3', '1']
}

/// `r` is `s` shown in the color `code`: either plain (where the terminal or the
/// environment turns color off) or wrapped in the select and reset sequences.
pub open spec fn painted(r: Seq<char>, s: Seq<char>, code: Seq<char>) -> bool {
    r == s || r == select_color(code) + s + reset_attributes()
}

/// The glyph of a passed check.
pub open spec fn pass_glyph() -> Seq<char> {
    seq!['\u{2713}']
}

/// The glyph of a failed check.
pub open spec fn fail_glyph() -> Seq<char> {
    seq!['\u{2718}']
}

/// `r` is the mark of an outcome: the pass glyph in green for `true`, the fail
/// glyph in red for `false`.
pub open spec fn is_mark(r: Seq<char>, outcome: bool) -> bool {
    if outcome {
        painted(r, pass_glyph(), green_code())
    } else {
        painted(r, fail_glyph(), red_code())
    }
}

/// Relies on colored's `Colorize::green` and the `Display` of `ColoredString`:
/// text without an escape character comes out unchanged, or between the select
/// sequence of color 32 and the reset sequence, as the environment decides.
#[verifier::external_body]
fn paint_green(s: &str) -> (r: String)
    requires
        !s@.contains(escape_char()),
    ensures
        painted(r@, s@, green_code()),
{
    colored::Colorize::green(s).to_string()
}

/// Relies on colored's `Colorize::red` and the `Display` of `ColoredString`:
/// text without an escape character comes out unchanged, or between the select
/// sequence of color 31 and the reset sequence, as the environment decides.
#[verifier::external_body]
fn paint_red(s: &str) -> (r: String)
    requires
        !s@.contains(escape_char()),
    ensures
        painted(r@, s@, red_code()),
{
    colored::Colorize::red(s).to_string()
}

/// The mark of an outcome: a green check mark for `true`, a red cross for
/// `false`.
pub fn colorize(result: bool) -> (r: String)
    ensures
        is_mark(r@, result),
{
    if result {
        let glyph = "\u{2713}";
        proof {
            reveal_strlit("\u{2713}");
            assert(glyph@ =~= pass_glyph());
            assert(!glyph@.contains(escape_char())) by {
                assert(glyph@[0] != escape_char());
            }
        }
        paint_green(glyph)
    } else {
        let glyph = "\u{2718}";
        proof {
            reveal_strlit("\u{2718}");
            assert(glyph@ =~= fail_glyph());
            assert(!glyph@.contains(escape_char())) by {
                assert(glyph@[0] != escape_char());
            }
        }
        paint_red(glyph)
    }
}

/// The two marks a report uses, made once.
pub struct Marks {
    pub pass: String,
    pub fail: String,
}

impl Marks {
    /// Both marks hold what their outcome shows.
    pub open spec fn wf(&self) -> bool {
        is_mark(self.pass@, true) && is_mark(self.fail@, false)
    }

    /// The marks of this terminal and environment.
    pub fn new() -> (r: Marks)
        ensures
            r.wf(),
    {
        Marks { pass: colorize(true), fail: colorize(false) }
    }

    /// The mark of an outcome.
    pub open spec fn mark_of(&self, outcome: bool) -> Seq<char> {
        if outcome {
            self.pass@
        } else {
            self.fail@
        }
    }

    /// The mark of an outcome, as text.
    pub fn mark(&self, outcome: bool) -> (r: &str)
        ensures
            r@ == self.mark_of(outcome),
    {
        if outcome {
            self.pass.as_str()
        } else {
            self.fail.as_str()
        }
    }
}

} // verus!
