//! A colored status indicator: an icon followed by a label.
use vstd::prelude::*;
use vstd::string::*;
use crate::runtime::{Cmd, Event, Model};
use crate::style::{Color, painted, push_painted};

verus! {

/// Preset kinds of status badge.
#[derive(Debug, Clone, Copy, PartialEq, Eq, Structural)]
pub enum BadgeVariant {
    /// Success or online (green).
    Success,
    /// Error or offline (red).
    Error,
    /// Warning or paused (yellow).
    Warning,
    /// Information (blue).
    Info,
    /// Neutral or unknown (gray).
    Neutral,
}

impl Default for BadgeVariant {
    fn default() -> (r: BadgeVariant)
        ensures
            r == BadgeVariant::Neutral,
    {
        BadgeVariant::Neutral
    }
}

impl BadgeVariant {
    /// The plain icon of the variant: a filled circle, or a hollow one when
    /// neutral.
    pub open spec fn icon_text(self) -> Seq<char> {
        match self {
            BadgeVariant::Neutral => seq!['\u{25CB}'],
            _ => seq!['\u{25CF}'],
        }
    }

    /// The emoji icon of the variant: a colored disc.
    pub open spec fn emoji_text(self) -> Seq<char> {
        match self {
            BadgeVariant::Success => seq!['\u{1F7E2}'],
            BadgeVariant::Error => seq!['\u{1F534}'],
            BadgeVariant::Warning => seq!['\u{1F7E1}'],
            BadgeVariant::Info => seq!['\u{1F535}'],
            BadgeVariant::Neutral => seq!['\u{26AA}'],
        }
    }

    /// The color of the variant.
    pub open spec fn spec_color(self) -> Color {
        match self {
            BadgeVariant::Success => Color::Green,
            BadgeVariant::Error => Color::Red,
            BadgeVariant::Warning => Color::Yellow,
            BadgeVariant::Info => Color::Blue,
            BadgeVariant::Neutral => Color::BrightBlack,
        }
    }

    /// The default icon for this variant.
    pub fn icon(&self) -> (r: &'static str)
        ensures
            r@ == self.icon_text(),
    {
        match self {
            BadgeVariant::Neutral => {
                proof {
                    reveal_strlit("\u{25CB}");
                }
                "\u{25CB}"
            },
            _ => {
                proof {
                    reveal_strlit("\u{25CF}");
                }
                "\u{25CF}"
            },
        }
    }

    /// The default emoji icon for this variant.
    pub fn emoji(&self) -> (r: &'static str)
        ensures
            r@ == self.emoji_text(),
    {
        match self {
            BadgeVariant::Success => {
                proof {
                    reveal_strlit("\u{1F7E2}");
                }
                "\u{1F7E2}"
            },
            BadgeVariant::Error => {
                proof {
                    reveal_strlit("\u{1F534}");
                }
                "\u{1F534}"
            },
            BadgeVariant::Warning => {
                proof {
                    reveal_strlit("\u{1F7E1}");
                }
                "\u{1F7E1}"
            },
            BadgeVariant::Info => {
                proof {
                    reveal_strlit("\u{1F535}");
                }
                "\u{1F535}"
            },
            BadgeVariant::Neutral => {
                proof {
                    reveal_strlit("\u{26AA}");
                }
                "\u{26AA}"
            },
        }
    }

    /// The color for this variant.
    pub fn color(&self) -> (r: Color)
        ensures
            r == self.spec_color(),
    {
        match self {
            BadgeVariant::Success => Color::Green,
            BadgeVariant::Error => Color::Red,
            BadgeVariant::Warning => Color::Yellow,
            BadgeVariant::Info => Color::Blue,
            BadgeVariant::Neutral => Color::BrightBlack,
        }
    }
}

/// Messages of a status badge. A badge has no behaviour of its own: a
/// refresh only asks for a redraw and leaves the state as it is.
#[derive(Debug, Clone, Copy, PartialEq, Eq, Structural)]
pub enum StatusBadgeMsg {
    Refresh,
}

/// A colored status indicator badge.
#[derive(Debug, Clone)]
pub struct StatusBadge {
    label: String,
    icon: Option<String>,
    variant: BadgeVariant,
    color: Option<Color>,
    use_emoji: bool,
    show_icon: bool,
}

impl Default for StatusBadge {
    fn default() -> (r: StatusBadge)
        ensures
            r.spec_label() == Seq::<char>::empty(),
            r.spec_icon() is None,
            r.spec_variant() == BadgeVariant::Neutral,
            r.spec_color() is None,
            r.spec_use_emoji(),
            r.spec_show_icon(),
    {
        StatusBadge {
            label: String::new(),
            icon: None,
            variant: BadgeVariant::Neutral,
            color: None,
            use_emoji: true,
            show_icon: true,
        }
    }
}

impl StatusBadge {
    pub closed spec fn spec_label(&self) -> Seq<char> {
        self.label@
    }

    pub closed spec fn spec_icon(&self) -> Option<Seq<char>> {
        match self.icon {
            Some(i) => Some(i@),
            None => None,
        }
    }

    pub closed spec fn spec_variant(&self) -> BadgeVariant {
        self.variant
    }

    pub closed spec fn spec_color(&self) -> Option<Color> {
        self.color
    }

    pub closed spec fn spec_use_emoji(&self) -> bool {
        self.use_emoji
    }

    pub closed spec fn spec_show_icon(&self) -> bool {
        self.show_icon
    }

    /// The icon shown: the custom one, else the variant's emoji or plain icon.
    pub open spec fn spec_effective_icon(&self) -> Seq<char> {
        match self.spec_icon() {
            Some(i) => i,
            None => if self.spec_use_emoji() {
                self.spec_variant().emoji_text()
            } else {
                self.spec_variant().icon_text()
            },
        }
    }

    /// The color used: the custom one, else the variant's.
    pub open spec fn spec_effective_color(&self) -> Color {
        match self.spec_color() {
            Some(c) => c,
            None => self.spec_variant().spec_color(),
        }
    }

    /// The rendered badge: when the icon is shown, the icon (painted in the
    /// effective color unless it is a variant emoji) and a space; then the
    /// label.
    pub open spec fn rendered(&self) -> Seq<char> {
        let icon_part = if !self.spec_show_icon() {
            Seq::empty()
        } else if self.spec_use_emoji() && self.spec_icon() is None {
            self.spec_effective_icon().push(' ')
        } else {
            painted(self.spec_effective_color().fg_code(), self.spec_effective_icon()).push(' ')
        };
        icon_part + self.spec_label()
    }

    /// Whether `r` keeps every setting of `self` but those a builder names.
    pub open spec fn same_but_label(&self, r: &StatusBadge) -> bool {
        &&& r.spec_icon() == self.spec_icon()
        &&& r.spec_variant() == self.spec_variant()
        &&& r.spec_color() == self.spec_color()
        &&& r.spec_use_emoji() == self.spec_use_emoji()
        &&& r.spec_show_icon() == self.spec_show_icon()
    }

    /// A neutral badge with a label.
    pub fn new(label: &str) -> (r: StatusBadge)
        ensures
            r.spec_label() == label@,
            r.spec_icon() is None,
            r.spec_variant() == BadgeVariant::Neutral,
            r.spec_color() is None,
            r.spec_use_emoji(),
            r.spec_show_icon(),
    {
        StatusBadge {
            label: String::from_str(label),
            icon: None,
            variant: BadgeVariant::Neutral,
            color: None,
            use_emoji: true,
            show_icon: true,
        }
    }

    /// An "Online" badge.
    pub fn online() -> (r: StatusBadge)
        ensures
            r.spec_label() == "Online"@,
            r.spec_variant() == BadgeVariant::Success,
            r.spec_icon() is None,
            r.spec_color() is None,
            r.spec_use_emoji(),
            r.spec_show_icon(),
    {
        StatusBadge::new("Online").variant(BadgeVariant::Success)
    }

    /// An "Offline" badge.
    pub fn offline() -> (r: StatusBadge)
        ensures
            r.spec_label() == "Offline"@,
            r.spec_variant() == BadgeVariant::Error,
            r.spec_icon() is None,
            r.spec_color() is None,
            r.spec_use_emoji(),
            r.spec_show_icon(),
    {
        StatusBadge::new("Offline").variant(BadgeVariant::Error)
    }

    /// A "Paused" badge.
    pub fn paused() -> (r: StatusBadge)
        ensures
            r.spec_label() == "Paused"@,
            r.spec_variant() == BadgeVariant::Warning,
            r.spec_icon() is None,
            r.spec_color() is None,
            r.spec_use_emoji(),
            r.spec_show_icon(),
    {
        StatusBadge::new("Paused").variant(BadgeVariant::Warning)
    }

    /// A "Loading" badge.
    pub fn loading() -> (r: StatusBadge)
        ensures
            r.spec_label() == "Loading"@,
            r.spec_variant() == BadgeVariant::Info,
            r.spec_icon() is None,
            r.spec_color() is None,
            r.spec_use_emoji(),
            r.spec_show_icon(),
    {
        StatusBadge::new("Loading").variant(BadgeVariant::Info)
    }

    /// An "Unknown" badge.
    pub fn unknown() -> (r: StatusBadge)
        ensures
            r.spec_label() == "Unknown"@,
            r.spec_variant() == BadgeVariant::Neutral,
            r.spec_icon() is None,
            r.spec_color() is None,
            r.spec_use_emoji(),
            r.spec_show_icon(),
    {
        StatusBadge::new("Unknown").variant(BadgeVariant::Neutral)
    }

    /// Sets the variant.
    pub fn variant(self, variant: BadgeVariant) -> (r: StatusBadge)
        ensures
            r.spec_variant() == variant,
            r.spec_label() == self.spec_label(),
            r.spec_icon() == self.spec_icon(),
            r.spec_color() == self.spec_color(),
            r.spec_use_emoji() == self.spec_use_emoji(),
            r.spec_show_icon() == self.spec_show_icon(),
    {
        StatusBadge { variant, ..self }
    }

    /// Sets a custom icon, which replaces the variant's.
    pub fn icon(self, icon: &str) -> (r: StatusBadge)
        ensures
            r.spec_icon() == Some(icon@),
            r.spec_variant() == self.spec_variant(),
            r.spec_label() == self.spec_label(),
            r.spec_color() == self.spec_color(),
            r.spec_use_emoji() == self.spec_use_emoji(),
            r.spec_show_icon() == self.spec_show_icon(),
    {
        StatusBadge { icon: Some(String::from_str(icon)), ..self }
    }

    /// Sets a custom color, which replaces the variant's.
    pub fn color(self, color: Color) -> (r: StatusBadge)
        ensures
            r.spec_color() == Some(color),
            r.spec_variant() == self.spec_variant(),
            r.spec_label() == self.spec_label(),
            r.spec_icon() == self.spec_icon(),
            r.spec_use_emoji() == self.spec_use_emoji(),
            r.spec_show_icon() == self.spec_show_icon(),
    {
        StatusBadge { color: Some(color), ..self }
    }

    /// Chooses emoji icons (the default) or plain ones.
    pub fn use_emoji(self, use_emoji: bool) -> (r: StatusBadge)
        ensures
            r.spec_use_emoji() == use_emoji,
            r.spec_variant() == self.spec_variant(),
            r.spec_label() == self.spec_label(),
            r.spec_icon() == self.spec_icon(),
            r.spec_color() == self.spec_color(),
            r.spec_show_icon() == self.spec_show_icon(),
    {
        StatusBadge { use_emoji, ..self }
    }

    /// Shows or hides the icon (shown by default).
    pub fn show_icon(self, show: bool) -> (r: StatusBadge)
        ensures
            r.spec_show_icon() == show,
            r.spec_variant() == self.spec_variant(),
            r.spec_label() == self.spec_label(),
            r.spec_icon() == self.spec_icon(),
            r.spec_color() == self.spec_color(),
            r.spec_use_emoji() == self.spec_use_emoji(),
    {
        StatusBadge { show_icon: show, ..self }
    }

    /// Sets the label.
    pub fn label(self, label: &str) -> (r: StatusBadge)
        ensures
            r.spec_label() == label@,
            self.same_but_label(&r),
    {
        StatusBadge { label: String::from_str(label), ..self }
    }

    /// The label text.
    pub fn get_label(&self) -> (r: &str)
        ensures
            r@ == self.spec_label(),
    {
        self.label.as_str()
    }

    /// The variant.
    pub fn get_variant(&self) -> (r: BadgeVariant)
        ensures
            r == self.spec_variant(),
    {
        self.variant
    }

    /// The icon that is shown.
    pub fn effective_icon(&self) -> (r: &str)
        ensures
            r@ == self.spec_effective_icon(),
    {
        match &self.icon {
            Some(i) => i.as_str(),
            None => if self.use_emoji {
                self.variant.emoji()
            } else {
                self.variant.icon()
            },
        }
    }

    /// The color that is used.
    pub fn effective_color(&self) -> (r: Color)
        ensures
            r == self.spec_effective_color(),
    {
        match self.color {
            Some(c) => c,
            None => self.variant.color(),
        }
    }

    /// Renders the badge.
    pub fn render(&self) -> (r: String)
        ensures
            r@ == self.rendered(),
    {
        let mut out = String::new();
        if self.show_icon {
            let icon = self.effective_icon();
            if self.use_emoji && self.icon.is_none() {
                out.append(icon);
            } else {
                push_painted(&mut out, self.effective_color(), icon);
            }
            crate::text::push_char(&mut out, ' ');
        }
        out.append(self.label.as_str());
        assert(out@ =~= self.rendered());
        out
    }
}

impl Model for StatusBadge {
    type Message = StatusBadgeMsg;

    fn init(&self) -> (r: Option<Cmd<StatusBadgeMsg>>)
        ensures
            r is None,
    {
        None
    }

    fn update(&mut self, msg: StatusBadgeMsg) -> (r: Option<Cmd<StatusBadgeMsg>>)
        ensures
            r is None,
            *final(self) == *old(self),
    {
        None
    }

    fn view(&self) -> (r: String)
        ensures
            r@ == self.rendered(),
    {
        self.render()
    }

    fn handle_event(&self, event: Event) -> (r: Option<StatusBadgeMsg>)
        ensures
            r is None,
    {
        None
    }
}

} // verus!
