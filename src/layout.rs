//! Layout budgeting: how many rows the flexible band gets, and how each band
//! is padded or truncated to the target width.
use vstd::prelude::*;
use vstd::string::*;
use crate::text::{ESC, esc_after, trunc_from, display_width, truncated, repeated, measure_text, truncate_to_width,
    repeat_char, push_char, lemma_strip_concat, lemma_trunc_from_prefix, lemma_trunc_from_width};

verus! {

/// `a - b`, or zero when `b` exceeds `a`.
pub open spec fn sat_sub(a: nat, b: nat) -> nat {
    if a >= b { (a - b) as nat } else { 0 }
}

/// Rows left to the flexible band once the fixed bands are placed.
pub fn flexible_height(height: usize, fixed: usize) -> (r: usize)
    ensures
        r == sat_sub(height as nat, fixed as nat),
{
    if height >= fixed { height - fixed } else { 0 }
}

/// A title band: the label, then `fill` repeated over the rest of the width.
/// A label wider than the band is kept whole, with no fill.
pub open spec fn title_band_text(label: Seq<char>, fill: char, width: nat) -> Seq<char> {
    label + repeated(fill, sat_sub(width, display_width(label)))
}

/// The label of a screen title: `"// " + title + " "`.
pub open spec fn title_label(title: Seq<char>) -> Seq<char> {
    seq!['/', '/', ' '] + title + seq![' ']
}

/// A right-aligned band: spaces, then the content flush with the right edge.
/// Content wider than the band is kept whole, with no padding.
pub open spec fn right_aligned_text(content: Seq<char>, width: nat) -> Seq<char> {
    repeated(' ', sat_sub(width, display_width(content))) + content
}

/// A label at least as wide as the band comes out alone: no fill is added
/// and the label is not cut.
pub proof fn lemma_title_band_unclamped(label: Seq<char>, fill: char, width: nat)
    requires
        display_width(label) >= width,
    ensures
        title_band_text(label, fill, width) == label,
{
    assert(label + repeated(fill, 0) =~= label);
}

/// Builds a title band of `width` columns.
pub fn title_band(label: &str, fill: char, width: usize) -> (r: String)
    ensures
        r@ == title_band_text(label@, fill, width as nat),
{
    let used = measure_text(label);
    let remaining: usize = if width >= used { width - used } else { 0 };
    let tail = repeat_char(fill, remaining);
    let mut out = String::from_str(label);
    out.append(tail.as_str());
    out
}

/// Builds a right-aligned band of `width` columns.
pub fn right_aligned(content: &str, width: usize) -> (r: String)
    ensures
        r@ == right_aligned_text(content@, width as nat),
{
    let used = measure_text(content);
    let padding: usize = if width >= used { width - used } else { 0 };
    let mut out = repeat_char(' ', padding);
    out.append(content);
    out
}

/// A line without the carriage return that may end it.
pub open spec fn trim_cr(line: Seq<char>) -> Seq<char> {
    if line.len() > 0 && line.last() == '\r' { line.drop_last() } else { line }
}

/// The lines of `s`, scanning from a line that already holds `cur`: lines
/// end at `'\n'` or at `"\r\n"`, and a final line ending does not open an
/// empty last line.
pub open spec fn split_from(s: Seq<char>, cur: Seq<char>) -> Seq<Seq<char>>
    decreases s.len(),
{
    if s.len() == 0 {
        if cur.len() == 0 { Seq::empty() } else { seq![cur] }
    } else if s[0] == '\n' {
        seq![trim_cr(cur)] + split_from(s.drop_first(), Seq::empty())
    } else {
        split_from(s.drop_first(), cur.push(s[0]))
    }
}

/// The lines of `s`.
pub open spec fn split_lines(s: Seq<char>) -> Seq<Seq<char>> {
    split_from(s, Seq::empty())
}

/// The views of a vector of strings.
pub open spec fn views(v: Seq<String>) -> Seq<Seq<char>> {
    v.map_values(|x: String| x@)
}

/// Splits `s` into its lines.
pub fn lines(s: &str) -> (r: Vec<String>)
    ensures
        views(r@) == split_lines(s@),
{
    let n = s.unicode_len();
    let mut out: Vec<String> = Vec::new();
    let mut cur = String::new();
    // a carriage return held back until the next character shows whether
    // it ends the line
    let mut held = false;
    let mut i: usize = 0;
    assert(s@.subrange(0, n as int) =~= s@);
    assert(views(out@) + split_lines(s@) =~= split_lines(s@));
    assert(cur@ + Seq::<char>::empty() =~= cur@);
    while i < n
        invariant
            n == s@.len(),
            i <= n,
            !held ==> (cur@.len() > 0 ==> cur@.last() != '\r'),
            views(out@) + split_from(
                s@.subrange(i as int, n as int),
                cur@ + (if held { seq!['\r'] } else { Seq::empty() }),
            ) == split_lines(s@),
        decreases n - i,
    {
        let c = s.get_char(i);
        let ghost rest = s@.subrange(i + 1, n as int);
        let ghost pending = cur@ + (if held { seq!['\r'] } else { Seq::<char>::empty() });
        assert(s@.subrange(i as int, n as int).drop_first() =~= rest);
        if c == '\n' {
            let ghost before = views(out@);
            let ghost line = cur@;
            if held {
                assert(trim_cr(pending) =~= cur@);
            } else {
                assert(pending =~= cur@);
            }
            out.push(cur);
            cur = String::new();
            held = false;
            assert(views(out@) =~= before.push(line));
            assert(before + (seq![line] + split_from(rest, Seq::empty())) =~= views(out@)
                + split_from(rest, cur@ + Seq::<char>::empty()));
        } else if c == '\r' {
            if held {
                push_char(&mut cur, '\r');
            }
            held = true;
            assert(pending.push(c) =~= cur@ + seq!['\r']);
        } else {
            if held {
                push_char(&mut cur, '\r');
            }
            held = false;
            push_char(&mut cur, c);
            assert(pending.push(c) =~= cur@ + Seq::<char>::empty());
        }
        i = i + 1;
    }
    assert(s@.subrange(n as int, n as int) =~= Seq::<char>::empty());
    let ghost fin = cur@ + (if held { seq!['\r'] } else { Seq::<char>::empty() });
    assert(views(out@) + split_from(Seq::<char>::empty(), fin) == split_lines(s@));
    if held {
        push_char(&mut cur, '\r');
    }
    assert(cur@ =~= fin);
    if cur.unicode_len() > 0 {
        let ghost before = views(out@);
        let ghost line = cur@;
        out.push(cur);
        assert(views(out@) =~= before + seq![line]);
    } else {
        assert(views(out@) + Seq::<Seq<char>>::empty() =~= views(out@));
    }
    out
}

/// Line `i` of the content band: line `i` of the content truncated to
/// `width`, or empty past the last line.
pub open spec fn band_line(content: Seq<Seq<char>>, i: int, width: nat) -> Seq<char> {
    if i < content.len() { truncated(content[i], width) } else { Seq::empty() }
}

/// The content band: exactly `height` lines, each the matching line of
/// `content` truncated to `width` columns, padded with empty lines.
pub fn content_band(content: &str, height: usize, width: usize) -> (r: Vec<String>)
    ensures
        r@.len() == height,
        forall|i: int|
            0 <= i < height ==> #[trigger] r@[i]@ == band_line(split_lines(content@), i, width as nat),
{
    let all = lines(content);
    let mut out: Vec<String> = Vec::new();
    let mut i: usize = 0;
    while i < height
        invariant
            i <= height,
            views(all@) == split_lines(content@),
            out@.len() == i,
            forall|k: int|
                0 <= k < i ==> #[trigger] out@[k]@ == band_line(split_lines(content@), k, width as nat),
        decreases height - i,
    {
        if i < all.len() {
            assert(views(all@)[i as int] == all@[i as int]@);
            out.push(truncate_to_width(all[i].as_str(), width));
        } else {
            out.push(String::new());
        }
        i = i + 1;
    }
    out
}

/// The lines of `lines` up to `k`, each followed by `end`.
pub open spec fn terminated(lines: Seq<Seq<char>>, end: Seq<char>, k: int) -> Seq<char>
    decreases k,
{
    if k <= 0 { Seq::empty() } else { terminated(lines, end, k - 1) + lines[k - 1] + end }
}

/// Appends each line of `lines` to `out`, each followed by `end`.
pub fn push_terminated(out: &mut String, lines: &Vec<String>, end: &str)
    ensures
        final(out)@ == old(out)@ + terminated(views(lines@), end@, lines@.len() as int),
{
    let ghost start = out@;
    let mut i: usize = 0;
    assert(start + terminated(views(lines@), end@, 0) =~= start);
    while i < lines.len()
        invariant
            i <= lines@.len(),
            out@ == start + terminated(views(lines@), end@, i as int),
        decreases lines@.len() - i,
    {
        let ghost before = out@;
        out.append(lines[i].as_str());
        out.append(end);
        assert(views(lines@)[i as int] == lines@[i as int]@);
        assert(out@ =~= start + terminated(views(lines@), end@, i + 1));
        i = i + 1;
    }
}

/// Whether a scan is inside an escape sequence after reading `c`.
pub open spec fn esc_step(esc: bool, c: char) -> bool {
    if c == ESC { true } else if esc { c != 'm' } else { false }
}

/// The last index in `[i, hi)`, above 0, that holds a space outside any
/// escape sequence, scanning from state `esc`; `best` if there is none.
pub open spec fn break_from(s: Seq<char>, i: int, hi: int, esc: bool, best: int) -> int
    decreases hi - i,
{
    if i >= hi {
        best
    } else {
        let best2 = if i > 0 && !esc && s[i] == ' ' { i } else { best };
        break_from(s, i + 1, hi, esc_step(esc, s[i]), best2)
    }
}

/// The last visible space of `s` before index `hi` (index 0 excluded), or 0.
pub open spec fn last_break(s: Seq<char>, hi: int) -> int {
    break_from(s, 0, hi, false, 0)
}

/// One line cut into pieces of at most `w` columns, `w >= 1`. A piece ends
/// at the last visible space that lets it fit (the space is dropped);
/// with no such space, it is the longest prefix that fits, which never
/// ends inside an escape sequence.
pub open spec fn wrap_line(s: Seq<char>, w: nat) -> Seq<Seq<char>>
    decreases s.len(),
{
    if display_width(s) <= w || w == 0 {
        seq![s]
    } else {
        let p = truncated(s, w).len() as int;
        let k = last_break(s, p + 1);
        if 0 < k < s.len() {
            seq![s.subrange(0, k)] + wrap_line(s.subrange(k + 1, s.len() as int), w)
        } else if 0 < p < s.len() {
            seq![s.subrange(0, p)] + wrap_line(s.subrange(p, s.len() as int), w)
        } else {
            seq![s]
        }
    }
}

/// The wrapped pieces of the first `k` lines, in order.
pub open spec fn wrap_lines(lines: Seq<Seq<char>>, w: nat, k: int) -> Seq<Seq<char>>
    decreases k,
{
    if k <= 0 { Seq::empty() } else { wrap_lines(lines, w, k - 1) + wrap_line(lines[k - 1], w) }
}

/// The lines of `text`, each wrapped to `width` columns (a width of zero
/// counts as one).
pub open spec fn wrapped(text: Seq<char>, width: nat) -> Seq<Seq<char>> {
    let w = if width == 0 { 1 } else { width };
    wrap_lines(split_lines(text), w, split_lines(text).len() as int)
}

proof fn lemma_break_bound(s: Seq<char>, i: int, hi: int, esc: bool, best: int)
    requires
        0 <= best < hi || best == 0,
        0 <= i,
    ensures
        0 <= break_from(s, i, hi, esc, best) < hi || break_from(s, i, hi, esc, best) == 0,
    decreases hi - i,
{
    if i < hi {
        let best2 = if i > 0 && !esc && s[i] == ' ' { i } else { best };
        lemma_break_bound(s, i + 1, hi, esc_step(esc, s[i]), best2);
    }
}

fn find_break(s: &str, hi: usize) -> (k: usize)
    requires
        hi <= s@.len(),
    ensures
        k as int == last_break(s@, hi as int),
{
    let mut i: usize = 0;
    let mut esc = false;
    let mut best: usize = 0;
    while i < hi
        invariant
            i <= hi <= s@.len(),
            best <= i,
            break_from(s@, i as int, hi as int, esc, best as int) == last_break(s@, hi as int),
        decreases hi - i,
    {
        let c = s.get_char(i);
        if i > 0 && !esc && c == ' ' {
            best = i;
        }
        esc = if c == ESC { true } else if esc { c != 'm' } else { false };
        i = i + 1;
    }
    best
}

/// Display width never grows when a string is cut short.
proof fn lemma_prefix_width(s: Seq<char>, k: int)
    requires
        0 <= k <= s.len(),
    ensures
        display_width(s.subrange(0, k)) <= display_width(s),
{
    let a = s.subrange(0, k);
    let b = s.subrange(k, s.len() as int);
    assert(a + b =~= s);
    lemma_strip_concat(a, b, false);
}

/// When a line is too wide for `w >= 1` columns, the truncation point lies
/// strictly inside it.
proof fn lemma_cut_inside(s: Seq<char>, w: nat)
    requires
        w >= 1,
        display_width(s) > w,
    ensures
        0 < truncated(s, w).len() < s.len(),
        display_width(truncated(s, w)) <= w,
        truncated(s, w) == s.subrange(0, truncated(s, w).len() as int),
{
    lemma_trunc_from_prefix(s, false, w);
    lemma_trunc_from_width(s, false, w);
    let p = truncated(s, w);
    if p.len() == s.len() {
        assert(p =~= s);
    }
    assert(s.len() > 0);
    if s[0] == ESC {
        assert(p.len() > 0);
    } else {
        assert(p.len() > 0);
    }
}

/// Each wrapped piece is at most `w` columns wide.
proof fn lemma_wrap_line_fits(s: Seq<char>, w: nat)
    requires
        w >= 1,
    ensures
        forall|i: int|
            0 <= i < wrap_line(s, w).len() ==> display_width(#[trigger] wrap_line(s, w)[i]) <= w,
    decreases s.len(),
{
    if display_width(s) > w {
        lemma_cut_inside(s, w);
        let p = truncated(s, w).len() as int;
        let k = last_break(s, p + 1);
        lemma_break_bound(s, 0, p + 1, false, 0);
        let (head, rest) = if 0 < k < s.len() {
            (s.subrange(0, k), s.subrange(k + 1, s.len() as int))
        } else {
            (s.subrange(0, p), s.subrange(p, s.len() as int))
        };
        if 0 < k < s.len() {
            assert(s.subrange(0, p).subrange(0, k) =~= head);
            lemma_prefix_width(s.subrange(0, p), k);
        }
        lemma_wrap_line_fits(rest, w);
        assert forall|i: int| 0 <= i < wrap_line(s, w).len() implies display_width(
            #[trigger] wrap_line(s, w)[i],
        ) <= w by {
            if i > 0 {
                assert(wrap_line(s, w)[i] == wrap_line(rest, w)[i - 1]);
            }
        }
    }
}

proof fn lemma_wrap_lines_fit(lines: Seq<Seq<char>>, w: nat, k: int)
    requires
        w >= 1,
        k <= lines.len(),
    ensures
        forall|i: int|
            0 <= i < wrap_lines(lines, w, k).len() ==> display_width(
                #[trigger] wrap_lines(lines, w, k)[i],
            ) <= w,
    decreases k,
{
    if k > 0 {
        lemma_wrap_lines_fit(lines, w, k - 1);
        lemma_wrap_line_fits(lines[k - 1], w);
        let a = wrap_lines(lines, w, k - 1);
        let b = wrap_line(lines[k - 1], w);
        assert forall|i: int| 0 <= i < (a + b).len() implies display_width(#[trigger] (a + b)[i])
            <= w by {
            if i >= a.len() {
                assert((a + b)[i] == b[i - a.len()]);
            }
        }
    }
}

proof fn lemma_esc_after_push(a: Seq<char>, c: char, e: bool)
    ensures
        esc_after(a.push(c), e) == esc_step(esc_after(a, e), c),
    decreases a.len(),
{
    if a.len() > 0 {
        assert(a.push(c).drop_first() =~= a.drop_first().push(c));
        assert(a.push(c)[0] == a[0]);
        lemma_esc_after_push(a.drop_first(), c, esc_step(e, a[0]));
    } else {
        assert(a.push(c).drop_first() =~= Seq::<char>::empty());
        assert(a.push(c)[0] == c);
        reveal_with_fuel(esc_after, 2);
    }
}

/// A break found by the scan lies outside any escape sequence.
proof fn lemma_break_outside(s: Seq<char>, i: int, hi: int, esc: bool, best: int)
    requires
        0 <= i <= hi <= s.len(),
        esc == esc_after(s.subrange(0, i), false),
        best > 0 ==> !esc_after(s.subrange(0, best), false),
    ensures
        break_from(s, i, hi, esc, best) > 0 ==> !esc_after(
            s.subrange(0, break_from(s, i, hi, esc, best)),
            false,
        ),
    decreases hi - i,
{
    if i < hi {
        assert(s.subrange(0, i + 1) =~= s.subrange(0, i).push(s[i]));
        lemma_esc_after_push(s.subrange(0, i), s[i], false);
        let best2 = if i > 0 && !esc && s[i] == ' ' { i } else { best };
        lemma_break_outside(s, i + 1, hi, esc_step(esc, s[i]), best2);
    }
}

/// A truncation that stops early stops outside any escape sequence.
proof fn lemma_trunc_ends_outside(s: Seq<char>, e: bool, w: nat)
    requires
        trunc_from(s, e, w).len() < s.len(),
    ensures
        !esc_after(trunc_from(s, e, w), e),
    decreases s.len(),
{
    let r = trunc_from(s, e, w);
    if r.len() > 0 {
        let next = esc_step(e, s[0]);
        let nw: nat = if s[0] == ESC || e { w } else { (w - 1) as nat };
        assert(r.drop_first() =~= trunc_from(s.drop_first(), next, nw));
        lemma_trunc_ends_outside(s.drop_first(), next, nw);
    }
}

/// Wrapping never cuts inside an escape sequence: every piece but the last
/// ends outside one.
pub proof fn lemma_wrap_keeps_escapes_whole(s: Seq<char>, w: nat)
    requires
        w >= 1,
    ensures
        forall|i: int|
            0 <= i < wrap_line(s, w).len() - 1 ==> !esc_after(#[trigger] wrap_line(s, w)[i], false),
    decreases s.len(),
{
    if display_width(s) > w {
        lemma_cut_inside(s, w);
        let p = truncated(s, w).len() as int;
        let k = last_break(s, p + 1);
        lemma_break_bound(s, 0, p + 1, false, 0);
        assert(s.subrange(0, 0) =~= Seq::<char>::empty());
        lemma_break_outside(s, 0, p + 1, false, 0);
        lemma_trunc_ends_outside(s, false, w);
        let rest = if 0 < k < s.len() {
            s.subrange(k + 1, s.len() as int)
        } else {
            s.subrange(p, s.len() as int)
        };
        lemma_wrap_keeps_escapes_whole(rest, w);
        assert forall|i: int| 0 <= i < wrap_line(s, w).len() - 1 implies !esc_after(
            #[trigger] wrap_line(s, w)[i],
            false,
        ) by {
            if i > 0 {
                assert(wrap_line(s, w)[i] == wrap_line(rest, w)[i - 1]);
            }
        }
    }
}

/// Every line that wrapping produces fits in the width (at least one column).
pub proof fn lemma_wrapped_fits(text: Seq<char>, width: nat)
    ensures
        forall|i: int|
            0 <= i < wrapped(text, width).len() ==> display_width(#[trigger] wrapped(text, width)[i])
                <= (if width == 0 { 1 } else { width }),
{
    let w: nat = if width == 0 { 1 } else { width };
    lemma_wrap_lines_fit(split_lines(text), w, split_lines(text).len() as int);
}

/// Wraps `text` into lines of at most `width` display columns, breaking at
/// the last visible space that fits, or else after the longest prefix that
/// fits; escape sequences are never split. A width of zero counts as one.
/// Each line of the text is wrapped on its own.
pub fn wrap_text(text: &str, width: usize) -> (r: Vec<String>)
    ensures
        views(r@) == wrapped(text@, width as nat),
{
    let w: usize = if width == 0 { 1 } else { width };
    let all = lines(text);
    let ghost src = views(all@);
    let mut out: Vec<String> = Vec::new();
    let mut i: usize = 0;
    while i < all.len()
        invariant
            i <= all@.len(),
            w >= 1,
            w as nat == (if width == 0 { 1 } else { width as nat }),
            src == views(all@),
            src == split_lines(text@),
            views(out@) == wrap_lines(src, w as nat, i as int),
        decreases all@.len() - i,
    {
        let mut rest = all[i].clone();
        assert(src[i as int] == all@[i as int]@);
        let ghost start = views(out@);
        while measure_text(rest.as_str()) > w
            invariant
                w >= 1,
                views(out@) + wrap_line(rest@, w as nat) == start + wrap_line(src[i as int], w as nat),
            decreases rest@.len(),
        {
            let n = rest.as_str().unicode_len();
            proof {
                lemma_cut_inside(rest@, w as nat);
            }
            let prefix = truncate_to_width(rest.as_str(), w);
            let p = prefix.as_str().unicode_len();
            let k = find_break(rest.as_str(), p + 1);
            let ghost before = views(out@);
            let ghost old_rest = rest@;
            let (head_end, tail_start): (usize, usize) = if 0 < k && k < n {
                (k, k + 1)
            } else {
                (p, p)
            };
            let head = String::from_str(rest.as_str().substring_char(0, head_end));
            let tail = String::from_str(rest.as_str().substring_char(tail_start, n));
            out.push(head);
            rest = tail;
            assert(views(out@) =~= before.push(old_rest.subrange(0, head_end as int)));
            assert(before + wrap_line(old_rest, w as nat) =~= views(out@) + wrap_line(
                rest@,
                w as nat,
            ));
        }
        let ghost before = views(out@);
        let ghost last = rest@;
        out.push(rest);
        assert(views(out@) =~= before.push(last));
        assert(wrap_line(last, w as nat) == seq![last]);
        assert(views(out@) =~= start + wrap_line(src[i as int], w as nat));
        i = i + 1;
    }
    out
}

} // verus!
