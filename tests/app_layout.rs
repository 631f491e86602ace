use ferment::components::app_layout::{AppLayout, AppLayoutMsg, TabBuilder};
use ferment::components::status_badge::StatusBadge;
use ferment::components::tab_bar::{Tab, TabBar};
use ferment::runtime::{Cmd, Event, KeyCode, KeyEvent, Model};
use ferment::text::{measure_text, strip_ansi};

#[test]
fn test_layout_creation() {
    let layout = AppLayout::new(80, 24).title("Test App");
    assert_eq!(layout.dimensions().0, 80);
    assert_eq!(layout.dimensions().1, 24);
}

#[test]
fn test_content_height() {
    let layout = AppLayout::new(80, 24)
        .title("Test")
        .tab_bar(TabBar::new().tabs(vec![Tab::new("a", "A")]))
        .footer_hints("q quit");

    // title(1) + tab_bar(1) + sep(1) + footer_sep(1) + footer(1) = 5
    // 24 - 5 = 19
    assert_eq!(layout.content_height(), 19);
}

#[test]
fn test_strip_ansi() {
    let input = "\x1b[31mred\x1b[0m text";
    assert_eq!(strip_ansi(input), "red text");
}

#[test]
fn test_tab_builder() {
    let tabs = TabBuilder::new()
        .tab("home", "Home")
        .tab_with_key("settings", "Settings", 's')
        .build();

    assert_eq!(tabs.get_tabs().len(), 2);
    assert_eq!(tabs.get_tabs()[0].key, Some('h'));
    assert_eq!(tabs.get_tabs()[1].key, Some('s'));
}

#[test]
fn empty_title_and_no_tab_bar_leave_twenty_two_rows() {
    let layout = AppLayout::new(80, 24).title("");
    assert_eq!(layout.content_height(), 22);
}

#[test]
fn fixed_bands_taller_than_screen_leave_no_content() {
    let layout = AppLayout::new(80, 3).title("T").footer_hints("q");
    assert_eq!(layout.content_height(), 0);
    let out = layout.render();
    assert!(!out.contains("body"));
}

#[test]
fn narrow_title_band_keeps_label_without_fill() {
    // label "// ab " is six columns wide, the screen five
    let layout = AppLayout::new(5, 10).title("ab");
    let out = layout.render_title_bar();
    assert_eq!(out, "\x1b[90m// ab \x1b[0m\n");
    assert_eq!(strip_ansi(&out).matches('/').count(), 2);
}

#[test]
fn title_band_fills_rest_of_width() {
    let layout = AppLayout::new(12, 10).title("ab");
    let out = layout.render_title_bar();
    assert_eq!(out, "\x1b[90m// ab //////\x1b[0m\n");
}

#[test]
fn separator_measures_exactly_the_width() {
    let layout = AppLayout::new(7, 10);
    let sep = layout.render_separator();
    assert_eq!(sep, "\x1b[90m-------\x1b[0m\n");
    assert_eq!(measure_text(sep.trim_end_matches('\n')), 7);
}

#[test]
fn footer_is_right_aligned() {
    let layout = AppLayout::new(10, 10).footer_hints("q quit");
    assert_eq!(layout.render_footer(), "\x1b[90m    q quit\x1b[0m\n");
}

#[test]
fn content_is_truncated_and_padded() {
    let layout = AppLayout::new(3, 6).content("abcdef\nxy");
    // two separators: four content rows
    assert_eq!(layout.content_height(), 4);
    assert_eq!(layout.render_content(), "abc\nxy\n\n\n");
}

#[test]
fn tab_line_puts_status_on_the_right() {
    let bar = TabBar::new().tabs(vec![Tab::new("a", "A")]);
    let layout = AppLayout::new(20, 10)
        .tab_bar(bar)
        .status(StatusBadge::new("ok").show_icon(false));
    let line = layout.render_tab_bar_line();
    assert_eq!(measure_text(line.trim_end_matches('\n')), 20);
    assert!(line.ends_with("ok\n"));
}

#[test]
fn full_render_has_every_band() {
    let layout = AppLayout::new(10, 6).title("T").footer_hints("q").content("hello");
    let out = layout.render();
    let plain = strip_ansi(&out);
    let lines: Vec<&str> = plain.split('\n').collect();
    assert_eq!(lines[0], "// T /////");
    assert_eq!(lines[1], "----------");
    assert_eq!(lines[2], "hello");
    assert_eq!(lines[3], "");
    assert_eq!(lines[4], "----------");
    assert_eq!(lines[5], "         q");
}

#[test]
fn layout_events_translate_to_messages() {
    let bar = TabBuilder::new().tab("home", "Home").tab("settings", "Settings").build();
    let mut layout = AppLayout::new(80, 24).tab_bar(bar);
    let quit = layout.handle_event(Event::Key(KeyEvent::plain(KeyCode::Char('q'))));
    assert!(matches!(quit, Some(AppLayoutMsg::Quit)));
    let esc = layout.handle_event(Event::Key(KeyEvent::plain(KeyCode::Esc)));
    assert!(matches!(esc, Some(AppLayoutMsg::Quit)));
    let switch = layout.handle_event(Event::Key(KeyEvent::plain(KeyCode::Char('s'))));
    match switch {
        Some(AppLayoutMsg::SwitchTab(id)) => {
            assert_eq!(id, "settings");
            assert!(layout.update(AppLayoutMsg::SwitchTab(id)).is_none());
        }
        _ => panic!("expected a tab switch"),
    }
    assert_eq!(layout.get_tab_bar().map(|b| b.selected()), Some(1));
    assert!(layout.handle_event(Event::Key(KeyEvent::plain(KeyCode::Char('z')))).is_none());
    assert!(layout.handle_event(Event::Key(KeyEvent::plain(KeyCode::Up))).is_none());
    let resize = layout.handle_event(Event::Resize { width: 100, height: 30 });
    assert!(matches!(resize, Some(AppLayoutMsg::Resize { width: 100, height: 30 })));
    assert!(layout.handle_event(Event::Other).is_none());
}

#[test]
fn layout_update_resizes_and_quits() {
    let mut layout = AppLayout::new(80, 24);
    assert!(layout.update(AppLayoutMsg::Resize { width: 40, height: 12 }).is_none());
    assert_eq!(layout.dimensions(), (40, 12));
    assert!(matches!(layout.update(AppLayoutMsg::Quit), Some(Cmd::Quit)));
    assert!(layout.init().is_none());
    assert_eq!(layout.view(), layout.render());
}

#[test]
fn switching_tabs_keeps_every_other_band() {
    let bar = TabBuilder::new().tab("home", "Home").tab("logs", "Logs").build();
    let mut layout = AppLayout::new(30, 8)
        .title("App")
        .tab_bar(bar)
        .status(StatusBadge::new("ok").show_icon(false))
        .footer_hints("q quit")
        .content("body");
    let footer = layout.render_footer();
    let title = layout.render_title_bar();
    assert!(layout.update(AppLayoutMsg::SwitchTab("logs".to_string())).is_none());
    assert_eq!(layout.get_tab_bar().map(|b| b.selected()), Some(1));
    assert_eq!(layout.render_footer(), footer);
    assert_eq!(layout.render_title_bar(), title);
    assert!(layout.render_tab_bar_line().ends_with("ok\n"));
    assert!(layout.update(AppLayoutMsg::SwitchTab("none".to_string())).is_none());
    assert_eq!(layout.get_tab_bar().map(|b| b.selected()), Some(1));
}
