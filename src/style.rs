//! Terminal colors and the escape sequences that select them.
use vstd::prelude::*;
use crate::text::{ESC, push_char, strip_from, display_width, lemma_strip_concat, esc_after,
    lemma_strip_plain, repeated};

verus! {

/// A foreground color of the 16-color terminal palette.
#[derive(Debug, Clone, Copy, PartialEq, Eq, Structural)]
pub enum Color {
    Default,
    Black,
    Red,
    Green,
    Yellow,
    Blue,
    Magenta,
    Cyan,
    White,
    BrightBlack,
    BrightRed,
    BrightGreen,
    BrightYellow,
    BrightBlue,
    BrightMagenta,
    BrightCyan,
    BrightWhite,
}

/// The character of decimal digit `d`.
pub open spec fn digit(d: nat) -> char {
    if d == 0 { '0' }
    else if d == 1 { '1' }
    else if d == 2 { '2' }
    else if d == 3 { '3' }
    else if d == 4 { '4' }
    else if d == 5 { '5' }
    else if d == 6 { '6' }
    else if d == 7 { '7' }
    else if d == 8 { '8' }
    else { '9' }
}

/// The select-graphic-rendition sequence `ESC [ <code> m` for a two-digit code.
pub open spec fn sgr(code: nat) -> Seq<char> {
    seq![ESC, '[', digit(code / 10), digit(code % 10), 'm']
}

/// The sequence `ESC [ 0 m` that resets all attributes.
pub open spec fn reset_seq() -> Seq<char> {
    seq![ESC, '[', '0', 'm']
}

/// `body` wrapped in the color `code` and a reset.
pub open spec fn painted(code: nat, body: Seq<char>) -> Seq<char> {
    sgr(code) + body + reset_seq()
}

impl Color {
    /// The SGR code that selects this color as foreground.
    pub open spec fn fg_code(self) -> nat {
        match self {
            Color::Default => 39,
            Color::Black => 30,
            Color::Red => 31,
            Color::Green => 32,
            Color::Yellow => 33,
            Color::Blue => 34,
            Color::Magenta => 35,
            Color::Cyan => 36,
            Color::White => 37,
            Color::BrightBlack => 90,
            Color::BrightRed => 91,
            Color::BrightGreen => 92,
            Color::BrightYellow => 93,
            Color::BrightBlue => 94,
            Color::BrightMagenta => 95,
            Color::BrightCyan => 96,
            Color::BrightWhite => 97,
        }
    }

    fn code(&self) -> (r: u8)
        ensures
            r as nat == self.fg_code(),
    {
        match self {
            Color::Default => 39,
            Color::Black => 30,
            Color::Red => 31,
            Color::Green => 32,
            Color::Yellow => 33,
            Color::Blue => 34,
            Color::Magenta => 35,
            Color::Cyan => 36,
            Color::White => 37,
            Color::BrightBlack => 90,
            Color::BrightRed => 91,
            Color::BrightGreen => 92,
            Color::BrightYellow => 93,
            Color::BrightBlue => 94,
            Color::BrightMagenta => 95,
            Color::BrightCyan => 96,
            Color::BrightWhite => 97,
        }
    }

    /// The escape sequence that switches the foreground to this color.
    pub fn to_ansi_fg(&self) -> (r: String)
        ensures
            r@ == sgr(self.fg_code()),
    {
        let code = self.code();
        let mut out = String::new();
        push_char(&mut out, ESC);
        push_char(&mut out, '[');
        push_char(&mut out, digit_char(code / 10));
        push_char(&mut out, digit_char(code % 10));
        push_char(&mut out, 'm');
        assert(out@ =~= sgr(self.fg_code()));
        out
    }
}

fn digit_char(d: u8) -> (c: char)
    requires
        d < 10,
    ensures
        c == digit(d as nat),
{
    match d {
        0 => '0',
        1 => '1',
        2 => '2',
        3 => '3',
        4 => '4',
        5 => '5',
        6 => '6',
        7 => '7',
        8 => '8',
        _ => '9',
    }
}

/// The escape sequence that resets all attributes.
pub fn reset_code() -> (r: String)
    ensures
        r@ == reset_seq(),
{
    let mut out = String::new();
    push_char(&mut out, ESC);
    push_char(&mut out, '[');
    push_char(&mut out, '0');
    push_char(&mut out, 'm');
    assert(out@ =~= reset_seq());
    out
}

/// Appends `body` to `out`, opened by the color and closed by a reset.
pub fn push_painted(out: &mut String, color: Color, body: &str)
    ensures
        final(out)@ == old(out)@ + painted(color.fg_code(), body@),
{
    let open = color.to_ansi_fg();
    out.append(open.as_str());
    out.append(body);
    let close = reset_code();
    out.append(close.as_str());
    assert(final(out)@ =~= old(out)@ + painted(color.fg_code(), body@));
}

proof fn lemma_digit_plain(d: nat)
    ensures
        digit(d) != ESC,
        digit(d) != 'm',
{
}

/// A color sequence shows nothing and leaves the scan outside any sequence.
pub proof fn lemma_sgr_invisible(code: nat)
    ensures
        strip_from(sgr(code), false) == Seq::<char>::empty(),
        !esc_after(sgr(code), false),
        strip_from(reset_seq(), false) == Seq::<char>::empty(),
        !esc_after(reset_seq(), false),
{
    lemma_digit_plain(code / 10);
    lemma_digit_plain(code % 10);
    let s = sgr(code);
    assert(s.drop_first().drop_first().drop_first().drop_first().drop_first().len() == 0);
    reveal_with_fuel(strip_from, 6);
    reveal_with_fuel(esc_after, 6);
    let r = reset_seq();
    assert(r.drop_first().drop_first().drop_first().drop_first().len() == 0);
}

/// Painting text in a color keeps its display width.
pub proof fn lemma_painted_width(code: nat, body: Seq<char>)
    ensures
        display_width(painted(code, body)) == display_width(body),
{
    lemma_sgr_invisible(code);
    lemma_strip_concat(sgr(code), body + reset_seq(), false);
    lemma_strip_concat(body, reset_seq(), false);
    assert(sgr(code) + body + reset_seq() =~= sgr(code) + (body + reset_seq()));
    if esc_after(body, false) {
        lemma_reset_invisible_inside();
    }
}

/// A painted run of `w` copies of a character other than the escape
/// character measures exactly `w` columns.
pub proof fn lemma_painted_run_width(code: nat, c: char, w: nat)
    requires
        c != ESC,
    ensures
        display_width(painted(code, repeated(c, w))) == w,
{
    lemma_painted_width(code, repeated(c, w));
    assert(!repeated(c, w).contains(ESC));
    lemma_strip_plain(repeated(c, w));
}

proof fn lemma_reset_invisible_inside()
    ensures
        strip_from(reset_seq(), true) == Seq::<char>::empty(),
{
    reveal_with_fuel(strip_from, 5);
    let r = reset_seq();
    assert(r.drop_first().drop_first().drop_first().drop_first().len() == 0);
}

} // verus!
