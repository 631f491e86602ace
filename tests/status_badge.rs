use ferment::components::status_badge::{BadgeVariant, StatusBadge, StatusBadgeMsg};
use ferment::runtime::{Event, Model};
use ferment::style::Color;
use ferment::text::measure_text;

#[test]
fn test_badge_creation() {
    let badge = StatusBadge::new("Test");
    assert_eq!(badge.get_label(), "Test");
    assert_eq!(badge.get_variant(), BadgeVariant::Neutral);
}

#[test]
fn test_preset_badges() {
    let online = StatusBadge::online();
    assert_eq!(online.get_label(), "Online");
    assert_eq!(online.get_variant(), BadgeVariant::Success);

    let offline = StatusBadge::offline();
    assert_eq!(offline.get_label(), "Offline");
    assert_eq!(offline.get_variant(), BadgeVariant::Error);
}

#[test]
fn test_variant_colors() {
    assert!(matches!(BadgeVariant::Success.color(), Color::Green));
    assert!(matches!(BadgeVariant::Error.color(), Color::Red));
    assert!(matches!(BadgeVariant::Warning.color(), Color::Yellow));
}

#[test]
fn test_variant_emojis() {
    assert_eq!(BadgeVariant::Success.emoji(), "🟢");
    assert_eq!(BadgeVariant::Error.emoji(), "🔴");
    assert_eq!(BadgeVariant::Warning.emoji(), "🟡");
}

#[test]
fn test_custom_icon() {
    let badge = StatusBadge::new("Building").icon("🔨");
    assert_eq!(badge.effective_icon(), "🔨");
}

#[test]
fn test_render_contains_label() {
    let badge = StatusBadge::online();
    let rendered = badge.render();
    assert!(rendered.contains("Online"));
}

#[test]
fn emoji_badge_renders_without_color() {
    assert_eq!(StatusBadge::online().render(), "🟢 Online");
    assert_eq!(StatusBadge::paused().render(), "🟡 Paused");
    assert_eq!(StatusBadge::loading().render(), "🔵 Loading");
    assert_eq!(StatusBadge::unknown().render(), "⚪ Unknown");
}

#[test]
fn plain_icon_is_painted_in_variant_color() {
    let badge = StatusBadge::offline().use_emoji(false);
    assert_eq!(badge.render(), "\x1b[31m●\x1b[0m Offline");
    assert_eq!(measure_text(&badge.render()), 9);
    let neutral = StatusBadge::new("x").use_emoji(false);
    assert_eq!(neutral.render(), "\x1b[90m○\x1b[0m x");
}

#[test]
fn custom_icon_and_color_are_painted() {
    let badge = StatusBadge::new("Build").icon("*").color(Color::Magenta);
    assert_eq!(badge.effective_color(), Color::Magenta);
    assert_eq!(badge.render(), "\x1b[35m*\x1b[0m Build");
}

#[test]
fn hidden_icon_leaves_the_label() {
    let badge = StatusBadge::online().show_icon(false).label("Up");
    assert_eq!(badge.render(), "Up");
}

#[test]
fn variant_icons_and_default() {
    assert_eq!(BadgeVariant::Info.icon(), "●");
    assert_eq!(BadgeVariant::Neutral.icon(), "○");
    assert_eq!(BadgeVariant::Info.emoji(), "🔵");
    assert_eq!(BadgeVariant::default(), BadgeVariant::Neutral);
    assert_eq!(BadgeVariant::Neutral.color(), Color::BrightBlack);
    assert_eq!(BadgeVariant::Info.color(), Color::Blue);
}

#[test]
fn badge_ignores_events_and_messages() {
    let mut badge = StatusBadge::default().label("z");
    assert!(badge.init().is_none());
    assert!(badge.update(StatusBadgeMsg::Refresh).is_none());
    assert!(badge.handle_event(Event::Other).is_none());
    assert_eq!(badge.view(), "⚪ z");
}
