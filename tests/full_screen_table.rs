use ferment::components::full_screen_table::{FullScreenTable, FullScreenTableMsg};
use ferment::components::status_badge::StatusBadge;
use ferment::components::table::Column;
use ferment::runtime::{Cmd, Event, KeyCode, KeyEvent, Model};
use ferment::text::{measure_text, strip_ansi};

fn rows(n: usize) -> Vec<Vec<String>> {
    (0..n).map(|i| vec![format!("r{}", i)]).collect()
}

#[test]
fn test_full_screen_table_creation() {
    let view = FullScreenTable::new(80, 24).title("Test View");
    assert_eq!(view.dimensions().0, 80);
    assert_eq!(view.dimensions().1, 24);
}

#[test]
fn test_visible_rows() {
    let view = FullScreenTable::new(80, 24);
    // 24 - 7 = 17
    assert_eq!(view.visible_rows(), 17);
}

#[test]
fn test_navigation() {
    let mut view = FullScreenTable::new(80, 24).rows(vec![
        vec!["a".to_string()],
        vec!["b".to_string()],
        vec!["c".to_string()],
    ]);

    assert_eq!(view.selected_row(), 0);
    view.update(FullScreenTableMsg::SelectNext);
    assert_eq!(view.selected_row(), 1);
    view.update(FullScreenTableMsg::SelectPrev);
    assert_eq!(view.selected_row(), 0);
}

#[test]
fn next_twice_then_previous_selects_row_one() {
    let mut view = FullScreenTable::new(80, 24).rows(rows(3));
    view.update(FullScreenTableMsg::SelectNext);
    view.update(FullScreenTableMsg::SelectNext);
    view.update(FullScreenTableMsg::SelectPrev);
    assert_eq!(view.selected_row(), 1);
    assert_eq!(view.current_row(), Some(&vec!["r1".to_string()]));
}

#[test]
fn selection_stops_at_both_ends() {
    let mut view = FullScreenTable::new(80, 24).rows(rows(2));
    view.update(FullScreenTableMsg::SelectPrev);
    assert_eq!(view.selected_row(), 0);
    view.update(FullScreenTableMsg::SelectNext);
    view.update(FullScreenTableMsg::SelectNext);
    assert_eq!(view.selected_row(), 1);
}

#[test]
fn paging_moves_by_visible_rows_less_one() {
    // height 12: five visible rows, pages of four
    let mut view = FullScreenTable::new(80, 12).rows(rows(20));
    view.update(FullScreenTableMsg::PageDown);
    assert_eq!(view.selected_row(), 4);
    assert_eq!(view.scroll_offset(), 0);
    view.update(FullScreenTableMsg::PageDown);
    assert_eq!(view.selected_row(), 8);
    assert_eq!(view.scroll_offset(), 4);
    for _ in 0..10 {
        view.update(FullScreenTableMsg::PageDown);
    }
    assert_eq!(view.selected_row(), 19);
    assert_eq!(view.scroll_offset(), 15);
    view.update(FullScreenTableMsg::PageUp);
    assert_eq!(view.selected_row(), 15);
    assert_eq!(view.scroll_offset(), 15);
    view.update(FullScreenTableMsg::PageUp);
    assert_eq!(view.selected_row(), 11);
    assert_eq!(view.scroll_offset(), 11);
}

#[test]
fn resize_reclamps_the_window() {
    let mut view = FullScreenTable::new(80, 30).rows(rows(20));
    for _ in 0..19 {
        view.update(FullScreenTableMsg::SelectNext);
    }
    assert_eq!(view.selected_row(), 19);
    assert_eq!(view.scroll_offset(), 0);
    view.update(FullScreenTableMsg::Resize { width: 80, height: 10 });
    // three visible rows: the cursor row must be in view
    assert_eq!(view.visible_rows(), 3);
    assert_eq!(view.scroll_offset(), 17);
    assert_eq!(view.selected_row(), 19);
}

#[test]
fn horizontal_scroll_is_clamped() {
    let wide = vec![vec!["0123456789".to_string(), "abcdefghij".to_string()]];
    let mut view = FullScreenTable::new(8, 24)
        .columns(vec![Column::new("A"), Column::new("B")])
        .rows(wide);
    // 10 + 1 + 10 columns of content on an 8-column screen
    assert_eq!(view.table_content_width(), 21);
    assert_eq!(view.max_h_scroll(), 13);
    assert!(view.can_scroll_horizontal());
    view.update(FullScreenTableMsg::ScrollLeft);
    assert_eq!(view.h_scroll_offset(), 0);
    for _ in 0..3 {
        view.update(FullScreenTableMsg::ScrollRight);
    }
    assert_eq!(view.h_scroll_offset(), 12);
    view.update(FullScreenTableMsg::ScrollRight);
    assert_eq!(view.h_scroll_offset(), 13);
    view.update(FullScreenTableMsg::ScrollLeft);
    assert_eq!(view.h_scroll_offset(), 9);
}

#[test]
fn quit_returns_the_quit_command() {
    let mut view = FullScreenTable::new(80, 24);
    assert!(matches!(view.update(FullScreenTableMsg::Quit), Some(Cmd::Quit)));
    assert!(view.update(FullScreenTableMsg::SelectNext).is_none());
    assert!(view.init().is_none());
}

#[test]
fn table_events_translate_to_messages() {
    let view = FullScreenTable::new(80, 24);
    let key = |c| Event::Key(KeyEvent::plain(c));
    assert_eq!(view.handle_event(key(KeyCode::Char('q'))), Some(FullScreenTableMsg::Quit));
    assert_eq!(view.handle_event(key(KeyCode::Esc)), Some(FullScreenTableMsg::Quit));
    assert_eq!(view.handle_event(key(KeyCode::Up)), Some(FullScreenTableMsg::SelectPrev));
    assert_eq!(view.handle_event(key(KeyCode::Char('k'))), Some(FullScreenTableMsg::SelectPrev));
    assert_eq!(view.handle_event(key(KeyCode::Down)), Some(FullScreenTableMsg::SelectNext));
    assert_eq!(view.handle_event(key(KeyCode::Char('j'))), Some(FullScreenTableMsg::SelectNext));
    assert_eq!(view.handle_event(key(KeyCode::Left)), Some(FullScreenTableMsg::ScrollLeft));
    assert_eq!(view.handle_event(key(KeyCode::Char('l'))), Some(FullScreenTableMsg::ScrollRight));
    assert_eq!(view.handle_event(key(KeyCode::PageUp)), Some(FullScreenTableMsg::PageUp));
    assert_eq!(view.handle_event(key(KeyCode::PageDown)), Some(FullScreenTableMsg::PageDown));
    assert_eq!(view.handle_event(key(KeyCode::Enter)), None);
    assert_eq!(
        view.handle_event(Event::Resize { width: 90, height: 40 }),
        Some(FullScreenTableMsg::Resize { width: 90, height: 40 })
    );
    assert_eq!(view.handle_event(Event::Paste("x".to_string())), None);
}

#[test]
fn title_band_is_unclamped_on_a_narrow_screen() {
    let view = FullScreenTable::new(5, 24).title("abcd");
    // the label "// abcd " is wider than the screen: no fill at all
    assert_eq!(view.render_title(), "// abcd ");
    let wide = FullScreenTable::new(12, 24).title("ab");
    assert_eq!(wide.render_title(), "// ab //////");
}

#[test]
fn status_line_is_right_aligned() {
    let view = FullScreenTable::new(10, 24).status_custom("\x1b[32mok\x1b[0m");
    let line = view.render_status_line();
    assert_eq!(line, "        \x1b[32mok\x1b[0m");
    assert_eq!(measure_text(&line), 10);
    let badge = FullScreenTable::new(10, 24).status(StatusBadge::new("up").show_icon(false));
    assert_eq!(badge.render_status_line(), "        up");
    assert_eq!(FullScreenTable::new(10, 24).render_status_line(), "");
}

#[test]
fn footer_shows_scroll_indicators() {
    let view = FullScreenTable::new(12, 24).footer_hints("q");
    assert_eq!(strip_ansi(&view.render_footer()), "         q  ");
    let mut wide = FullScreenTable::new(4, 24)
        .columns(vec![Column::new("A")])
        .rows(vec![vec!["0123456789".to_string()]])
        .footer_hints("");
    assert_eq!(strip_ansi(&wide.render_footer()), "   \u{25B6}");
    wide.update(FullScreenTableMsg::ScrollRight);
    assert_eq!(strip_ansi(&wide.render_footer()), "\u{25C0}  \u{25B6}");
}

#[test]
fn view_pushes_footer_to_the_bottom() {
    let view = FullScreenTable::new(10, 12)
        .title("t")
        .columns(vec![Column::new("N")])
        .rows(rows(2))
        .footer_hints("q");
    let out = view.view();
    let lines: Vec<&str> = out.split("\r\n").collect();
    assert_eq!(lines.len(), 12);
    assert_eq!(lines[0], "// t /////");
    assert_eq!(lines[1], "");
    assert_eq!(strip_ansi(lines[3]), "\u{2500}".repeat(10));
    assert_eq!(lines[4], "N ");
    assert_eq!(lines[5], "\x1b[36mr0\x1b[0m");
    assert_eq!(lines[6], "r1");
    assert_eq!(strip_ansi(lines[10]), "\u{2500}".repeat(10));
    assert_eq!(strip_ansi(lines[11]), "       q  ");
    assert_eq!(Model::view(&view), out);
}

#[test]
fn label_of_width_ten_on_width_five_gets_no_fill() {
    // "// abcdef " is ten columns wide
    let view = FullScreenTable::new(5, 24).title("abcdef");
    let band = view.render_title();
    assert_eq!(measure_text(&band), 10);
    assert_eq!(band, "// abcdef ");
}

#[test]
fn moves_past_either_end_leave_the_table_unchanged() {
    let mut view = FullScreenTable::new(80, 10).rows(rows(6));
    assert!(view.update(FullScreenTableMsg::SelectPrev).is_none());
    assert_eq!((view.selected_row(), view.scroll_offset(), view.h_scroll_offset()), (0, 0, 0));
    for _ in 0..5 {
        view.update(FullScreenTableMsg::SelectNext);
    }
    let at_end = (view.selected_row(), view.scroll_offset(), view.h_scroll_offset());
    assert_eq!(at_end, (5, 3, 0));
    assert!(view.update(FullScreenTableMsg::SelectNext).is_none());
    assert_eq!((view.selected_row(), view.scroll_offset(), view.h_scroll_offset()), at_end);
}
