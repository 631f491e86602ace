//! Text metrics: display width of strings that carry ANSI color sequences.
//!
//! An escape sequence starts at the escape character and runs up to and
//! including the next `m`; all of it is zero-width. An escape sequence that is
//! never terminated swallows the rest of the string (a known lossy behaviour).
//! Every other character counts as one terminal column: double-width glyphs
//! are deliberately treated as single-width.
use vstd::prelude::*;
use vstd::string::*;

verus! {

/// The escape character that opens a color sequence.
pub const ESC: char = '\x1b';

/// Characters that stay visible, scanning `s` left to right; `in_esc` says
/// whether the scan starts inside an escape sequence.
pub open spec fn strip_from(s: Seq<char>, in_esc: bool) -> Seq<char>
    decreases s.len(),
{
    if s.len() == 0 {
        Seq::empty()
    } else if s[0] == ESC {
        strip_from(s.drop_first(), true)
    } else if in_esc {
        strip_from(s.drop_first(), s[0] != 'm')
    } else {
        seq![s[0]] + strip_from(s.drop_first(), false)
    }
}

/// The visible characters of `s`.
pub open spec fn stripped(s: Seq<char>) -> Seq<char> {
    strip_from(s, false)
}

/// Number of terminal columns that `s` occupies.
pub open spec fn display_width(s: Seq<char>) -> nat {
    stripped(s).len()
}

/// Whether a scan of `s` that starts in state `in_esc` ends inside an
/// escape sequence.
pub open spec fn esc_after(s: Seq<char>, in_esc: bool) -> bool
    decreases s.len(),
{
    if s.len() == 0 {
        in_esc
    } else if s[0] == ESC {
        esc_after(s.drop_first(), true)
    } else if in_esc {
        esc_after(s.drop_first(), s[0] != 'm')
    } else {
        esc_after(s.drop_first(), false)
    }
}

/// Stripping a concatenation strips each part, the second part from the
/// state in which the first one ends.
pub proof fn lemma_strip_concat(a: Seq<char>, b: Seq<char>, esc: bool)
    ensures
        strip_from(a + b, esc) == strip_from(a, esc) + strip_from(b, esc_after(a, esc)),
    decreases a.len(),
{
    if a.len() == 0 {
        assert(a + b =~= b);
    } else {
        assert((a + b).drop_first() =~= a.drop_first() + b);
        assert((a + b)[0] == a[0]);
        let next = if a[0] == ESC { true } else if esc { a[0] != 'm' } else { false };
        lemma_strip_concat(a.drop_first(), b, next);
        if a[0] != ESC && !esc {
            assert(seq![a[0]] + (strip_from(a.drop_first(), false) + strip_from(
                b,
                esc_after(a.drop_first(), false),
            )) =~= (seq![a[0]] + strip_from(a.drop_first(), false)) + strip_from(
                b,
                esc_after(a.drop_first(), false),
            ));
        }
    }
}

/// The longest prefix of `s` (scanned from state `in_esc`) that shows at
/// most `w` visible characters.
pub open spec fn trunc_from(s: Seq<char>, in_esc: bool, w: nat) -> Seq<char>
    decreases s.len(),
{
    if s.len() == 0 {
        Seq::empty()
    } else if s[0] == ESC {
        seq![s[0]] + trunc_from(s.drop_first(), true, w)
    } else if in_esc {
        seq![s[0]] + trunc_from(s.drop_first(), s[0] != 'm', w)
    } else if w == 0 {
        Seq::empty()
    } else {
        seq![s[0]] + trunc_from(s.drop_first(), false, (w - 1) as nat)
    }
}

/// The longest prefix of `s` whose display width is at most `w`.
pub open spec fn truncated(s: Seq<char>, w: nat) -> Seq<char> {
    trunc_from(s, false, w)
}

/// `n` copies of `c`.
pub open spec fn repeated(c: char, n: nat) -> Seq<char> {
    Seq::new(n, |_i: int| c)
}

/// Relies on `String::push`: appends one character at the end.
#[verifier::external_body]
pub(crate) fn push_char(s: &mut String, c: char)
    ensures
        final(s)@ == old(s)@.push(c),
{
    s.push(c)
}

proof fn lemma_strip_step(s: Seq<char>, i: int, esc: bool)
    requires
        0 <= i < s.len(),
    ensures
        strip_from(s.subrange(i, s.len() as int), esc) == (if s[i] == ESC {
            strip_from(s.subrange(i + 1, s.len() as int), true)
        } else if esc {
            strip_from(s.subrange(i + 1, s.len() as int), s[i] != 'm')
        } else {
            seq![s[i]] + strip_from(s.subrange(i + 1, s.len() as int), false)
        }),
{
    let t = s.subrange(i, s.len() as int);
    assert(t.drop_first() =~= s.subrange(i + 1, s.len() as int));
}

/// Removes every escape sequence from `s`, keeping the visible characters.
pub fn strip_ansi(s: &str) -> (r: String)
    ensures
        r@ == stripped(s@),
{
    let n = s.unicode_len();
    let mut out = String::new();
    let mut esc = false;
    let mut i: usize = 0;
    assert(s@.subrange(0, n as int) =~= s@);
    assert(out@ + stripped(s@) =~= stripped(s@));
    while i < n
        invariant
            n == s@.len(),
            i <= n,
            out@ + strip_from(s@.subrange(i as int, n as int), esc) == stripped(s@),
        decreases n - i,
    {
        let c = s.get_char(i);
        proof {
            lemma_strip_step(s@, i as int, esc);
        }
        if c == ESC {
            esc = true;
        } else if esc {
            if c == 'm' {
                esc = false;
            }
        } else {
            let ghost before = out@;
            push_char(&mut out, c);
            assert(before + (seq![c] + strip_from(s@.subrange(i + 1, n as int), false))
                =~= out@ + strip_from(s@.subrange(i + 1, n as int), false));
        }
        i = i + 1;
    }
    assert(out@ + strip_from(s@.subrange(n as int, n as int), esc) =~= out@);
    out
}

/// Number of terminal columns that `s` occupies.
pub fn measure_text(s: &str) -> (r: usize)
    ensures
        r == display_width(s@),
{
    let n = s.unicode_len();
    let mut count: usize = 0;
    let mut esc = false;
    let mut i: usize = 0;
    assert(s@.subrange(0, n as int) =~= s@);
    while i < n
        invariant
            n == s@.len(),
            i <= n,
            count <= i,
            count + strip_from(s@.subrange(i as int, n as int), esc).len() == display_width(s@),
        decreases n - i,
    {
        let c = s.get_char(i);
        proof {
            lemma_strip_step(s@, i as int, esc);
        }
        if c == ESC {
            esc = true;
        } else if esc {
            if c == 'm' {
                esc = false;
            }
        } else {
            count = count + 1;
        }
        i = i + 1;
    }
    count
}

proof fn lemma_trunc_step(s: Seq<char>, i: int, esc: bool, w: nat)
    requires
        0 <= i < s.len(),
    ensures
        trunc_from(s.subrange(i, s.len() as int), esc, w) == (if s[i] == ESC {
            seq![s[i]] + trunc_from(s.subrange(i + 1, s.len() as int), true, w)
        } else if esc {
            seq![s[i]] + trunc_from(s.subrange(i + 1, s.len() as int), s[i] != 'm', w)
        } else if w == 0 {
            Seq::empty()
        } else {
            seq![s[i]] + trunc_from(s.subrange(i + 1, s.len() as int), false, (w - 1) as nat)
        }),
{
    let t = s.subrange(i, s.len() as int);
    assert(t.drop_first() =~= s.subrange(i + 1, s.len() as int));
}

/// The longest prefix of `s` whose display width is at most `max_width`.
/// Escape sequences are never split: one that starts within the kept
/// prefix is kept whole, even when it follows the last visible character.
pub fn truncate_to_width(s: &str, max_width: usize) -> (r: String)
    ensures
        r@ == truncated(s@, max_width as nat),
{
    let n = s.unicode_len();
    let mut out = String::new();
    let mut esc = false;
    let mut budget = max_width;
    let mut full = false;
    let mut i: usize = 0;
    assert(s@.subrange(0, n as int) =~= s@);
    assert(out@ + truncated(s@, max_width as nat) =~= truncated(s@, max_width as nat));
    while i < n && !full
        invariant
            n == s@.len(),
            i <= n,
            full ==> trunc_from(s@.subrange(i as int, n as int), esc, budget as nat)
                == Seq::<char>::empty(),
            out@ + trunc_from(s@.subrange(i as int, n as int), esc, budget as nat)
                == truncated(s@, max_width as nat),
        decreases n - i + (if full { 0int } else { 1int }),
    {
        let c = s.get_char(i);
        proof {
            lemma_trunc_step(s@, i as int, esc, budget as nat);
        }
        if c != ESC && !esc && budget == 0 {
            full = true;
        } else {
            let ghost before = out@;
            let ghost rest = trunc_from(
                s@.subrange(i + 1, n as int),
                if c == ESC { true } else if esc { c != 'm' } else { false },
                if c == ESC || esc { budget as nat } else { (budget - 1) as nat },
            );
            push_char(&mut out, c);
            if c == ESC {
                esc = true;
            } else if esc {
                if c == 'm' {
                    esc = false;
                }
            } else {
                budget = budget - 1;
            }
            assert(before + (seq![c] + rest) =~= out@ + rest);
            i = i + 1;
        }
    }
    if !full {
        assert(s@.subrange(n as int, n as int) =~= Seq::<char>::empty());
    }
    assert(out@ + Seq::<char>::empty() =~= out@);
    out
}

/// A string of `n` copies of `c`.
pub fn repeat_char(c: char, n: usize) -> (r: String)
    ensures
        r@ == repeated(c, n as nat),
{
    let mut out = String::new();
    let mut i: usize = 0;
    while i < n
        invariant
            i <= n,
            out@ =~= repeated(c, i as nat),
        decreases n - i,
    {
        push_char(&mut out, c);
        i = i + 1;
    }
    out
}

/// What `strip_from` keeps never holds an escape character.
proof fn lemma_strip_no_esc(s: Seq<char>, esc: bool)
    ensures
        !strip_from(s, esc).contains(ESC),
    decreases s.len(),
{
    if s.len() > 0 {
        lemma_strip_no_esc(s.drop_first(), true);
        lemma_strip_no_esc(s.drop_first(), false);
        lemma_strip_no_esc(s.drop_first(), s[0] != 'm');
        if s[0] != ESC && !esc {
            let rest = strip_from(s.drop_first(), false);
            assert forall|k: int| 0 <= k < (seq![s[0]] + rest).len() implies (seq![s[0]]
                + rest)[k] != ESC by {
                if k > 0 {
                    assert((seq![s[0]] + rest)[k] == rest[k - 1]);
                }
            }
        }
    }
}

/// A string without escape characters is its own visible text.
pub(crate) proof fn lemma_strip_plain(s: Seq<char>)
    requires
        !s.contains(ESC),
    ensures
        strip_from(s, false) == s,
    decreases s.len(),
{
    if s.len() > 0 {
        assert(s[0] != ESC);
        assert(!s.drop_first().contains(ESC)) by {
            if s.drop_first().contains(ESC) {
                let k = choose|k: int| 0 <= k < s.drop_first().len() && s.drop_first()[k] == ESC;
                assert(s[k + 1] == ESC);
            }
        }
        lemma_strip_plain(s.drop_first());
        assert(seq![s[0]] + s.drop_first() =~= s);
    }
}

/// Removing the escape sequences of a string leaves its display width as it
/// was: the stripped text measures exactly as wide as the text it came from.
pub proof fn lemma_strip_keeps_width(s: Seq<char>)
    ensures
        display_width(stripped(s)) == display_width(s),
        stripped(stripped(s)) == stripped(s),
{
    lemma_strip_no_esc(s, false);
    lemma_strip_plain(stripped(s));
}

pub(crate) proof fn lemma_trunc_from_width(s: Seq<char>, esc: bool, w: nat)
    ensures
        strip_from(trunc_from(s, esc, w), esc).len() <= w,
    decreases s.len(),
{
    if s.len() > 0 {
        let r = trunc_from(s, esc, w);
        if s[0] == ESC {
            lemma_trunc_from_width(s.drop_first(), true, w);
            assert(r.drop_first() =~= trunc_from(s.drop_first(), true, w));
        } else if esc {
            lemma_trunc_from_width(s.drop_first(), s[0] != 'm', w);
            assert(r.drop_first() =~= trunc_from(s.drop_first(), s[0] != 'm', w));
        } else if w > 0 {
            lemma_trunc_from_width(s.drop_first(), false, (w - 1) as nat);
            assert(r.drop_first() =~= trunc_from(s.drop_first(), false, (w - 1) as nat));
        }
    }
}

proof fn lemma_trunc_from_whole(s: Seq<char>, esc: bool)
    ensures
        trunc_from(s, esc, strip_from(s, esc).len()) == s,
    decreases s.len(),
{
    if s.len() > 0 {
        let w = strip_from(s, esc).len();
        if s[0] == ESC {
            lemma_trunc_from_whole(s.drop_first(), true);
        } else if esc {
            lemma_trunc_from_whole(s.drop_first(), s[0] != 'm');
        } else {
            lemma_trunc_from_whole(s.drop_first(), false);
            assert(w == strip_from(s.drop_first(), false).len() + 1);
        }
        assert(seq![s[0]] + s.drop_first() =~= s);
    }
}

/// What truncation keeps is a prefix of the string.
pub(crate) proof fn lemma_trunc_from_prefix(s: Seq<char>, esc: bool, w: nat)
    ensures
        trunc_from(s, esc, w).len() <= s.len(),
        trunc_from(s, esc, w) == s.subrange(0, trunc_from(s, esc, w).len() as int),
    decreases s.len(),
{
    if s.len() > 0 {
        let next = if s[0] == ESC { true } else if esc { s[0] != 'm' } else { false };
        let nw: nat = if s[0] == ESC || esc { w } else if w > 0 { (w - 1) as nat } else { 0 };
        lemma_trunc_from_prefix(s.drop_first(), next, nw);
        let r = trunc_from(s, esc, w);
        if r.len() > 0 {
            assert(r =~= s.subrange(0, r.len() as int));
        } else {
            assert(r =~= s.subrange(0, 0));
        }
    }
}

/// Truncation fits the budget, and keeps a string that already fits whole.
pub proof fn lemma_truncate_contract(s: Seq<char>, w: nat)
    ensures
        display_width(truncated(s, w)) <= w,
        truncated(s, display_width(s)) == s,
{
    lemma_trunc_from_width(s, false, w);
    lemma_trunc_from_whole(s, false);
}

} // verus!
