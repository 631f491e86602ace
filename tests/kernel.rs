use ferment::layout::{content_band, flexible_height, lines, right_aligned, title_band, wrap_text};
use ferment::runtime::{batch, Cmd};
use ferment::scroll::{scroll_horizontal, ScrollState};
use ferment::style::{reset_code, Color};
use ferment::text::{measure_text, repeat_char, strip_ansi, truncate_to_width};

fn valid(s: &ScrollState, len: usize, visible: usize) -> bool {
    let max_off = len.saturating_sub(visible);
    s.offset <= max_off && (len == 0 || (s.offset <= s.selected && s.selected < s.offset + visible))
}

#[test]
fn scroll_window_holds_over_a_run_of_operations() {
    let mut s = ScrollState::new();
    let (mut len, mut vis) = (10usize, 3usize);
    for step in 0..60usize {
        match step % 7 {
            0 | 1 => s.select_next(len, vis),
            2 => s.page_down(len, vis),
            3 => s.select_previous(),
            4 => s.page_up(vis),
            5 => {
                len = (step * 7) % 13;
                vis = 1 + step % 4;
                s.clamp(len, vis);
            }
            _ => s.page_down(len, vis),
        }
        assert!(valid(&s, len, vis), "step {} gave {:?}", step, s);
    }
}

#[test]
fn clamp_twice_equals_clamp_once() {
    let mut a = ScrollState { selected: 40, offset: 3 };
    a.clamp(12, 5);
    let once = a;
    a.clamp(12, 5);
    assert_eq!(a, once);
    assert_eq!(once, ScrollState { selected: 11, offset: 7 });
}

#[test]
fn scroll_boundaries_are_no_ops() {
    let mut top = ScrollState::new();
    top.select_previous();
    assert_eq!(top, ScrollState::new());
    let mut bottom = ScrollState { selected: 4, offset: 2 };
    bottom.select_next(5, 3);
    assert_eq!(bottom, ScrollState { selected: 4, offset: 2 });
    let mut empty = ScrollState { selected: 9, offset: 4 };
    empty.clamp(0, 3);
    assert_eq!(empty, ScrollState { selected: 0, offset: 0 });
}

#[test]
fn zero_visible_rows_act_as_one() {
    let mut s = ScrollState::new();
    s.select_next(5, 0);
    assert_eq!(s, ScrollState { selected: 1, offset: 1 });
    s.page_down(5, 0);
    assert_eq!(s, ScrollState { selected: 2, offset: 2 });
}

#[test]
fn horizontal_scroll_clamps_both_ways() {
    assert_eq!(scroll_horizontal(2, -4, 30, 10), 0);
    assert_eq!(scroll_horizontal(2, 4, 30, 10), 6);
    assert_eq!(scroll_horizontal(18, 4, 30, 10), 20);
    assert_eq!(scroll_horizontal(5, 4, 8, 10), 0);
    assert_eq!(scroll_horizontal(0, isize::MIN, 8, 4), 0);
    assert_eq!(scroll_horizontal(1, isize::MAX, 8, 4), 4);
}

#[test]
fn stripping_keeps_display_width() {
    let s = "\x1b[1;32mgo\x1b[0m!";
    assert_eq!(strip_ansi(s), "go!");
    assert_eq!(measure_text(&strip_ansi(s)), measure_text(s));
    assert_eq!(measure_text(s), 3);
}

#[test]
fn unterminated_escape_swallows_the_rest() {
    assert_eq!(strip_ansi("ab\x1b[31cd"), "ab");
    assert_eq!(measure_text("ab\x1b[31cd"), 2);
    assert_eq!(measure_text(""), 0);
}

#[test]
fn truncation_fits_and_keeps_what_fits() {
    let s = "\x1b[31mhello\x1b[0m world";
    let t = truncate_to_width(s, 3);
    assert_eq!(t, "\x1b[31mhel");
    assert!(measure_text(&t) <= 3);
    assert_eq!(truncate_to_width(s, measure_text(s)), s);
    assert_eq!(truncate_to_width("abc", 0), "");
    assert_eq!(truncate_to_width("ab\x1b[0m", 2), "ab\x1b[0m");
    assert_eq!(truncate_to_width("abc", 10), "abc");
}

#[test]
fn bands_pad_to_the_width() {
    assert_eq!(title_band("ab", '=', 5), "ab===");
    assert_eq!(title_band("abcdefghij", '=', 5), "abcdefghij");
    assert_eq!(right_aligned("ab", 5), "   ab");
    assert_eq!(right_aligned("abcdef", 5), "abcdef");
    assert_eq!(flexible_height(24, 2), 22);
    assert_eq!(flexible_height(1, 5), 0);
    assert_eq!(repeat_char('x', 3), "xxx");
}

#[test]
fn content_band_splits_truncates_and_pads() {
    assert_eq!(lines("a\n\nb\n"), vec!["a", "", "b"]);
    assert_eq!(lines(""), Vec::<String>::new());
    assert_eq!(content_band("abcd\nef", 3, 2), vec!["ab", "ef", ""]);
    assert_eq!(content_band("a\nb\nc", 2, 9), vec!["a", "b"]);
}

#[test]
fn colors_open_and_close() {
    assert_eq!(Color::Red.to_ansi_fg(), "\x1b[31m");
    assert_eq!(Color::BrightBlack.to_ansi_fg(), "\x1b[90m");
    assert_eq!(Color::Default.to_ansi_fg(), "\x1b[39m");
    assert_eq!(reset_code(), "\x1b[0m");
}

#[test]
fn commands_compose() {
    let none: Option<Cmd<u8>> = None;
    assert!(batch(none, None::<Cmd<u8>>).is_none());
    assert!(matches!(batch(None, Some(Cmd::<u8>::quit())), Some(Cmd::Quit)));
    assert!(matches!(batch(Some(Cmd::<u8>::quit()), None), Some(Cmd::Quit)));
    match batch(Some(Cmd::<u8>::quit()), Some(Cmd::Quit)) {
        Some(Cmd::Batch(v)) => assert_eq!(v.len(), 2),
        _ => panic!("expected a batch"),
    }
}

#[test]
fn wrap_breaks_at_the_last_fitting_space() {
    assert_eq!(wrap_text("the quick brown fox", 10), vec!["the quick", "brown fox"]);
    assert_eq!(wrap_text("abcdefghij", 4), vec!["abcd", "efgh", "ij"]);
    assert_eq!(wrap_text("ab cd\nef", 3), vec!["ab", "cd", "ef"]);
    assert_eq!(wrap_text("abc", 0), vec!["a", "b", "c"]);
    assert_eq!(wrap_text("", 5), Vec::<String>::new());
    for line in wrap_text("a long line of words that must wrap somewhere", 7) {
        assert!(measure_text(&line) <= 7);
    }
}

#[test]
fn carriage_return_before_newline_is_dropped() {
    assert_eq!(lines("a\r\nb\r\n"), vec!["a", "b"]);
    assert_eq!(lines("a\rb\n\r"), vec!["a\rb", "\r"]);
    assert_eq!(lines("x\r\r\ny"), vec!["x\r", "y"]);
    assert_eq!(content_band("ab\r\ncd", 2, 5), vec!["ab", "cd"]);
}

#[test]
fn wrap_measures_columns_and_keeps_escapes_whole() {
    let red = "\x1b[31mabc def\x1b[0m";
    assert_eq!(wrap_text(red, 3), vec!["\x1b[31mabc", "def\x1b[0m"]);
    let long = "\x1b[31mabcdef\x1b[0m";
    assert_eq!(wrap_text(long, 4), vec!["\x1b[31mabcd", "ef\x1b[0m"]);
    for line in wrap_text("\x1b[1mone two three\x1b[0m four", 5) {
        assert!(measure_text(&line) <= 5);
    }
}
