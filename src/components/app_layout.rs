//! A full-screen application layout: title band, tab bar with status,
//! separators, a content band and a footer of key hints.
use vstd::prelude::*;
use vstd::string::*;
use crate::components::status_badge::StatusBadge;
use crate::components::tab_bar::{Tab, TabBar, first_with_id, first_with_key};
use crate::layout::{sat_sub, title_label, title_band_text, band_line, split_lines, terminated, views,
    flexible_height, title_band, content_band, push_terminated};
use crate::runtime::{Cmd, Event, KeyCode, Model};
use crate::style::{Color, painted, push_painted};
use crate::text::{display_width, repeated, measure_text, repeat_char, push_char};

verus! {

/// Messages of the app layout.
#[derive(Debug, Clone)]
pub enum AppLayoutMsg {
    /// Switch to the tab with this id.
    SwitchTab(String),
    /// The terminal has a new size.
    Resize { width: usize, height: usize },
    /// Quit the application.
    Quit,
}

/// The index of the tab of `bar` whose shortcut is `c`, if any.
pub open spec fn tab_for(bar: Option<TabBar>, c: char) -> Option<int> {
    match bar {
        Some(b) => first_with_key(b.spec_tabs(), c, b.spec_tabs().len() as int),
        None => None,
    }
}

/// The character of a key press, if the event is one.
pub open spec fn pressed_char(event: Event) -> Option<char> {
    match event {
        Event::Key(k) => match k.code {
            KeyCode::Char(c) => Some(c),
            _ => None,
        },
        _ => None,
    }
}

/// `s` followed by a newline.
pub open spec fn line(s: Seq<char>) -> Seq<char> {
    s.push('\n')
}

/// The abstract state of an `AppLayout`.
pub struct AppLayoutView {
    pub width: usize,
    pub height: usize,
    pub title: Seq<char>,
    pub tab_bar: Option<TabBar>,
    pub status: Option<StatusBadge>,
    pub footer_hints: Seq<char>,
    pub content: Seq<char>,
    pub title_color: Color,
    pub separator_color: Color,
    pub separator_char: char,
    pub title_fill_char: char,
}

/// A full-screen application layout.
#[derive(Debug, Clone)]
pub struct AppLayout {
    width: usize,
    height: usize,
    title: String,
    tab_bar: Option<TabBar>,
    status: Option<StatusBadge>,
    footer_hints: String,
    content: String,
    title_color: Color,
    separator_color: Color,
    separator_char: char,
    title_fill_char: char,
}

impl AppLayout {
    /// The abstract state.
    pub closed spec fn model(&self) -> AppLayoutView {
        AppLayoutView {
            width: self.width,
            height: self.height,
            title: self.title@,
            tab_bar: self.tab_bar,
            status: self.status,
            footer_hints: self.footer_hints@,
            content: self.content@,
            title_color: self.title_color,
            separator_color: self.separator_color,
            separator_char: self.separator_char,
            title_fill_char: self.title_fill_char,
        }
    }
}

impl AppLayout {
    pub open spec fn spec_width(&self) -> usize {
        self.model().width
    }

    pub open spec fn spec_height(&self) -> usize {
        self.model().height
    }

    pub open spec fn spec_title(&self) -> Seq<char> {
        self.model().title
    }

    pub open spec fn spec_tab_bar(&self) -> Option<TabBar> {
        self.model().tab_bar
    }

    pub open spec fn spec_status(&self) -> Option<StatusBadge> {
        self.model().status
    }

    pub open spec fn spec_footer(&self) -> Seq<char> {
        self.model().footer_hints
    }

    pub open spec fn spec_content(&self) -> Seq<char> {
        self.model().content
    }

    pub open spec fn spec_title_color(&self) -> Color {
        self.model().title_color
    }

    pub open spec fn spec_separator_color(&self) -> Color {
        self.model().separator_color
    }

    pub open spec fn spec_separator_char(&self) -> char {
        self.model().separator_char
    }

    pub open spec fn spec_fill_char(&self) -> char {
        self.model().title_fill_char
    }

    /// Rows taken by the fixed bands: the title and the tab bar when
    /// present, the two separators, and the footer when it has hints.
    pub open spec fn fixed_rows(&self) -> nat {
        (if self.spec_title().len() > 0 { 1nat } else { 0nat }) + (if self.spec_tab_bar() is Some {
            1nat
        } else {
            0nat
        }) + 2 + (if self.spec_footer().len() > 0 { 1nat } else { 0nat })
    }

    /// Rows left for the content band.
    pub open spec fn spec_content_height(&self) -> nat {
        sat_sub(self.spec_height() as nat, self.fixed_rows())
    }

    /// Whether `r` equals `self` in everything but the fields a setter names.
    pub open spec fn same_except_size(&self, r: &AppLayout) -> bool {
        &&& r.spec_title() == self.spec_title()
        &&& r.spec_tab_bar() == self.spec_tab_bar()
        &&& r.spec_status() == self.spec_status()
        &&& r.spec_footer() == self.spec_footer()
        &&& r.spec_content() == self.spec_content()
        &&& r.spec_title_color() == self.spec_title_color()
        &&& r.spec_separator_color() == self.spec_separator_color()
        &&& r.spec_separator_char() == self.spec_separator_char()
        &&& r.spec_fill_char() == self.spec_fill_char()
    }

    /// The title band, in the title color, or nothing without a title.
    pub open spec fn title_bar_text(&self) -> Seq<char> {
        if self.spec_title().len() == 0 {
            Seq::empty()
        } else {
            line(
                painted(
                    self.spec_title_color().fg_code(),
                    title_band_text(
                        title_label(self.spec_title()),
                        self.spec_fill_char(),
                        self.spec_width() as nat,
                    ),
                ),
            )
        }
    }

    /// The tab bar, with the status flush right when there is one; nothing
    /// without a tab bar.
    pub open spec fn tab_line_text(&self) -> Seq<char> {
        match self.spec_tab_bar() {
            None => Seq::empty(),
            Some(bar) => match self.spec_status() {
                None => line(bar.rendered()),
                Some(st) => line(
                    bar.rendered() + repeated(
                        ' ',
                        sat_sub(
                            self.spec_width() as nat,
                            display_width(bar.rendered()) + display_width(st.rendered()),
                        ),
                    ) + st.rendered(),
                ),
            },
        }
    }

    /// A separator line.
    pub open spec fn separator_text(&self) -> Seq<char> {
        line(
            painted(
                self.spec_separator_color().fg_code(),
                repeated(self.spec_separator_char(), self.spec_width() as nat),
            ),
        )
    }

    /// The footer hints, flush right, or nothing without hints.
    pub open spec fn footer_text(&self) -> Seq<char> {
        if self.spec_footer().len() == 0 {
            Seq::empty()
        } else {
            line(
                painted(
                    self.spec_separator_color().fg_code(),
                    repeated(
                        ' ',
                        sat_sub(self.spec_width() as nat, display_width(self.spec_footer())),
                    ) + self.spec_footer(),
                ),
            )
        }
    }

    /// The content band: one line per content row.
    pub open spec fn content_text(&self) -> Seq<char> {
        let h = self.spec_content_height();
        terminated(
            Seq::new(h, |i: int| band_line(split_lines(self.spec_content()), i, self.spec_width() as nat)),
            seq!['\n'],
            h as int,
        )
    }

    /// The whole layout.
    pub open spec fn screen(&self) -> Seq<char> {
        self.title_bar_text() + self.tab_line_text() + self.separator_text() + self.content_text()
            + self.separator_text() + self.footer_text()
    }

    /// An empty layout of the given size.
    pub fn new(width: usize, height: usize) -> (r: AppLayout)
        ensures
            r.spec_width() == width,
            r.spec_height() == height,
            r.spec_title().len() == 0,
            r.spec_tab_bar() is None,
            r.spec_status() is None,
            r.spec_footer().len() == 0,
            r.spec_content().len() == 0,
            r.spec_title_color() == Color::BrightBlack,
            r.spec_separator_color() == Color::BrightBlack,
            r.spec_separator_char() == '-',
            r.spec_fill_char() == '/',
    {
        AppLayout {
            width,
            height,
            title: String::new(),
            tab_bar: None,
            status: None,
            footer_hints: String::new(),
            content: String::new(),
            title_color: Color::BrightBlack,
            separator_color: Color::BrightBlack,
            separator_char: '-',
            title_fill_char: '/',
        }
    }

    /// Sets the title.
    pub fn title(self, title: &str) -> (r: AppLayout)
        ensures
            r.model() == (AppLayoutView { title: title@, ..self.model() }),
    {
        AppLayout { title: String::from_str(title), ..self }
    }

    /// Sets the tab bar.
    pub fn tab_bar(self, tab_bar: TabBar) -> (r: AppLayout)
        ensures
            r.model() == (AppLayoutView { tab_bar: Some(tab_bar), ..self.model() }),
    {
        AppLayout { tab_bar: Some(tab_bar), ..self }
    }

    /// Sets the status badge.
    pub fn status(self, status: StatusBadge) -> (r: AppLayout)
        ensures
            r.model() == (AppLayoutView { status: Some(status), ..self.model() }),
    {
        AppLayout { status: Some(status), ..self }
    }

    /// Sets the footer hints.
    pub fn footer_hints(self, hints: &str) -> (r: AppLayout)
        ensures
            r.model() == (AppLayoutView { footer_hints: hints@, ..self.model() }),
    {
        AppLayout { footer_hints: String::from_str(hints), ..self }
    }

    /// Sets the content.
    pub fn content(self, content: &str) -> (r: AppLayout)
        ensures
            r.model() == (AppLayoutView { content: content@, ..self.model() }),
    {
        AppLayout { content: String::from_str(content), ..self }
    }

    /// Sets the title color.
    pub fn title_color(self, color: Color) -> (r: AppLayout)
        ensures
            r.model() == (AppLayoutView { title_color: color, ..self.model() }),
    {
        AppLayout { title_color: color, ..self }
    }

    /// Sets the separator color.
    pub fn separator_color(self, color: Color) -> (r: AppLayout)
        ensures
            r.model() == (AppLayoutView { separator_color: color, ..self.model() }),
    {
        AppLayout { separator_color: color, ..self }
    }

    /// Sets the separator character.
    pub fn separator_char(self, c: char) -> (r: AppLayout)
        ensures
            r.model() == (AppLayoutView { separator_char: c, ..self.model() }),
    {
        AppLayout { separator_char: c, ..self }
    }

    /// Sets the title fill character.
    pub fn title_fill_char(self, c: char) -> (r: AppLayout)
        ensures
            r.model() == (AppLayoutView { title_fill_char: c, ..self.model() }),
    {
        AppLayout { title_fill_char: c, ..self }
    }

    /// The size, as `(width, height)`.
    pub fn dimensions(&self) -> (r: (usize, usize))
        ensures
            r == (self.spec_width(), self.spec_height()),
    {
        (self.width, self.height)
    }

    /// Changes the size.
    pub fn resize(&mut self, width: usize, height: usize)
        ensures
            final(self).model() == (AppLayoutView { width, height, ..old(self).model() }),
    {
        self.width = width;
        self.height = height;
    }

    /// The tab bar, for changes in place.
    pub fn tab_bar_mut(&mut self) -> (r: Option<&mut TabBar>)
        ensures
            r is Some <==> old(self).spec_tab_bar() is Some,
            r matches Some(b) ==> (*b == old(self).spec_tab_bar()->0 && final(self).model() == (
            AppLayoutView { tab_bar: Some(*final(b)), ..old(self).model() })),
            r is None ==> *final(self) == *old(self),
    {
        match &mut self.tab_bar {
            Some(b) => Some(b),
            None => None,
        }
    }

    /// The tab bar.
    pub fn get_tab_bar(&self) -> (r: Option<&TabBar>)
        ensures
            r is Some <==> self.spec_tab_bar() is Some,
            r matches Some(b) ==> Some(*b) == self.spec_tab_bar(),
    {
        self.tab_bar.as_ref()
    }

    /// Replaces the content.
    pub fn set_content(&mut self, content: &str)
        ensures
            final(self).model() == (AppLayoutView { content: content@, ..old(self).model() }),
    {
        self.content = String::from_str(content);
    }

    /// Replaces the status badge.
    pub fn set_status(&mut self, status: StatusBadge)
        ensures
            final(self).model() == (AppLayoutView { status: Some(status), ..old(self).model() }),
    {
        self.status = Some(status);
    }

    /// Rows left for the content band.
    pub fn content_height(&self) -> (r: usize)
        ensures
            r as nat == self.spec_content_height(),
    {
        let mut used: usize = 2;
        if self.title.as_str().unicode_len() > 0 {
            used = used + 1;
        }
        if self.tab_bar.is_some() {
            used = used + 1;
        }
        if self.footer_hints.as_str().unicode_len() > 0 {
            used = used + 1;
        }
        flexible_height(self.height, used)
    }

    /// Renders the title band.
    pub fn render_title_bar(&self) -> (r: String)
        ensures
            r@ == self.title_bar_text(),
    {
        if self.title.as_str().unicode_len() == 0 {
            return String::new();
        }
        let mut label = String::new();
        push_char(&mut label, '/');
        push_char(&mut label, '/');
        push_char(&mut label, ' ');
        label.append(self.title.as_str());
        push_char(&mut label, ' ');
        assert(label@ =~= title_label(self.title@));
        let band = title_band(label.as_str(), self.title_fill_char, self.width);
        let mut out = String::new();
        push_painted(&mut out, self.title_color, band.as_str());
        push_char(&mut out, '\n');
        assert(out@ =~= self.title_bar_text());
        out
    }

    /// Renders the tab bar line with the status.
    pub fn render_tab_bar_line(&self) -> (r: String)
        ensures
            r@ == self.tab_line_text(),
    {
        match &self.tab_bar {
            None => String::new(),
            Some(bar) => {
                let mut out = bar.render();
                match &self.status {
                    None => {},
                    Some(st) => {
                        let status_str = st.render();
                        let status_len = measure_text(status_str.as_str());
                        let tabs_len = measure_text(out.as_str());
                        let pad: usize = if tabs_len <= self.width && status_len <= self.width
                            - tabs_len {
                            self.width - tabs_len - status_len
                        } else {
                            0
                        };
                        let spaces = repeat_char(' ', pad);
                        out.append(spaces.as_str());
                        out.append(status_str.as_str());
                    },
                }
                push_char(&mut out, '\n');
                out
            },
        }
    }

    /// Renders a separator line.
    pub fn render_separator(&self) -> (r: String)
        ensures
            r@ == self.separator_text(),
    {
        let body = repeat_char(self.separator_char, self.width);
        let mut out = String::new();
        push_painted(&mut out, self.separator_color, body.as_str());
        push_char(&mut out, '\n');
        out
    }

    /// Renders the footer.
    pub fn render_footer(&self) -> (r: String)
        ensures
            r@ == self.footer_text(),
    {
        if self.footer_hints.as_str().unicode_len() == 0 {
            return String::new();
        }
        let hints_len = measure_text(self.footer_hints.as_str());
        let pad: usize = if self.width >= hints_len { self.width - hints_len } else { 0 };
        let mut body = repeat_char(' ', pad);
        body.append(self.footer_hints.as_str());
        let mut out = String::new();
        push_painted(&mut out, self.separator_color, body.as_str());
        push_char(&mut out, '\n');
        out
    }

    /// Renders the content band.
    pub fn render_content(&self) -> (r: String)
        ensures
            r@ == self.content_text(),
    {
        let h = self.content_height();
        let band = content_band(self.content.as_str(), h, self.width);
        let mut nl = String::new();
        push_char(&mut nl, '\n');
        let mut out = String::new();
        push_terminated(&mut out, &band, nl.as_str());
        assert(views(band@) =~= Seq::new(
            h as nat,
            |i: int| band_line(split_lines(self.content@), i, self.width as nat),
        ));
        assert(out@ =~= self.content_text());
        out
    }

    /// Renders the whole layout.
    pub fn render(&self) -> (r: String)
        ensures
            r@ == self.screen(),
    {
        let mut out = self.render_title_bar();
        let tabs = self.render_tab_bar_line();
        out.append(tabs.as_str());
        let sep = self.render_separator();
        out.append(sep.as_str());
        let body = self.render_content();
        out.append(body.as_str());
        out.append(sep.as_str());
        let footer = self.render_footer();
        out.append(footer.as_str());
        out
    }

    /// Folds one message into the state.
    pub fn update(&mut self, msg: AppLayoutMsg) -> (r: Option<Cmd<AppLayoutMsg>>)
        ensures
            msg is Quit ==> (r matches Some(Cmd::Quit) && *final(self) == *old(self)),
            !(msg is Quit) ==> r is None,
            msg matches AppLayoutMsg::Resize { width, height } ==> final(self).spec_width() == width
                && final(self).spec_height() == height && old(self).same_except_size(final(self)),
            msg matches AppLayoutMsg::SwitchTab(id) ==> ({
                &&& final(self).model() == (AppLayoutView {
                    tab_bar: final(self).spec_tab_bar(),
                    ..old(self).model()
                })
                &&& final(self).spec_tab_bar() is Some <==> old(self).spec_tab_bar() is Some
                &&& old(self).spec_tab_bar() matches Some(bar) ==> ({
                    let nb = final(self).spec_tab_bar()->0;
                    &&& nb.spec_tabs() == bar.spec_tabs()
                    &&& first_with_id(bar.spec_tabs(), id@, bar.spec_tabs().len() as int)
                        matches Some(i) ==> nb.spec_selected() == i
                    &&& first_with_id(bar.spec_tabs(), id@, bar.spec_tabs().len() as int) is None
                        ==> nb.spec_selected() == bar.spec_selected()
                })
            }),
    {
        match msg {
            AppLayoutMsg::SwitchTab(id) => {
                match &mut self.tab_bar {
                    Some(bar) => bar.set_selected(id.as_str()),
                    None => {},
                }
                None
            },
            AppLayoutMsg::Resize { width, height } => {
                self.resize(width, height);
                None
            },
            AppLayoutMsg::Quit => Some(Cmd::quit()),
        }
    }

    /// The message that a raw event stands for: quit on `q` or Escape, the
    /// tab whose shortcut was pressed, or a resize.
    pub fn handle_event(&self, event: Event) -> (r: Option<AppLayoutMsg>)
        ensures
            event matches Event::Key(k) && (k.code == KeyCode::Char('q') || k.code == KeyCode::Esc)
                ==> r matches Some(AppLayoutMsg::Quit),
            pressed_char(event) is Some && pressed_char(event)->0 != 'q' ==> (match tab_for(
                self.spec_tab_bar(),
                pressed_char(event)->0,
            ) {
                Some(i) => r matches Some(AppLayoutMsg::SwitchTab(id)) && id@
                    == self.spec_tab_bar()->0.spec_tabs()[i].id@,
                None => r is None,
            }),
            event matches Event::Key(k) && !(k.code is Char) && k.code != KeyCode::Esc ==> r is None,
            event matches Event::Resize { width: w, height: h } ==> r matches Some(
                AppLayoutMsg::Resize { width, height },
            ) && width == w as usize && height == h as usize,
            !(event is Key) && !(event is Resize) ==> r is None,
    {
        match event {
            Event::Key(k) => match k.code {
                KeyCode::Char('q') | KeyCode::Esc => Some(AppLayoutMsg::Quit),
                KeyCode::Char(c) => match &self.tab_bar {
                    Some(bar) => match bar.tab_for_key(c) {
                        Some(id) => Some(AppLayoutMsg::SwitchTab(String::from_str(id))),
                        None => None,
                    },
                    None => None,
                },
                _ => None,
            },
            Event::Resize { width, height } => Some(
                AppLayoutMsg::Resize { width: width as usize, height: height as usize },
            ),
            _ => None,
        }
    }
}

impl Model for AppLayout {
    type Message = AppLayoutMsg;

    fn init(&self) -> (r: Option<Cmd<AppLayoutMsg>>)
        ensures
            r is None,
    {
        None
    }

    fn update(&mut self, msg: AppLayoutMsg) -> (r: Option<Cmd<AppLayoutMsg>>)
        ensures
            msg is Quit ==> (r matches Some(Cmd::Quit) && *final(self) == *old(self)),
            !(msg is Quit) ==> r is None,
            msg matches AppLayoutMsg::Resize { width, height } ==> final(self).spec_width() == width
                && final(self).spec_height() == height && old(self).same_except_size(final(self)),
            msg matches AppLayoutMsg::SwitchTab(id) ==> ({
                &&& final(self).model() == (AppLayoutView {
                    tab_bar: final(self).spec_tab_bar(),
                    ..old(self).model()
                })
                &&& final(self).spec_tab_bar() is Some <==> old(self).spec_tab_bar() is Some
                &&& old(self).spec_tab_bar() matches Some(bar) ==> ({
                    let nb = final(self).spec_tab_bar()->0;
                    &&& nb.spec_tabs() == bar.spec_tabs()
                    &&& first_with_id(bar.spec_tabs(), id@, bar.spec_tabs().len() as int)
                        matches Some(i) ==> nb.spec_selected() == i
                    &&& first_with_id(bar.spec_tabs(), id@, bar.spec_tabs().len() as int) is None
                        ==> nb.spec_selected() == bar.spec_selected()
                })
            }),
    {
        AppLayout::update(self, msg)
    }

    fn view(&self) -> (r: String)
        ensures
            r@ == self.screen(),
    {
        self.render()
    }

    fn handle_event(&self, event: Event) -> (r: Option<AppLayoutMsg>)
        ensures
            event matches Event::Key(k) && (k.code == KeyCode::Char('q') || k.code == KeyCode::Esc)
                ==> r matches Some(AppLayoutMsg::Quit),
            pressed_char(event) is Some && pressed_char(event)->0 != 'q' ==> (match tab_for(
                self.spec_tab_bar(),
                pressed_char(event)->0,
            ) {
                Some(i) => r matches Some(AppLayoutMsg::SwitchTab(id)) && id@
                    == self.spec_tab_bar()->0.spec_tabs()[i].id@,
                None => r is None,
            }),
            event matches Event::Key(k) && !(k.code is Char) && k.code != KeyCode::Esc ==> r is None,
            event matches Event::Resize { width: w, height: h } ==> r matches Some(
                AppLayoutMsg::Resize { width, height },
            ) && width == w as usize && height == h as usize,
            !(event is Key) && !(event is Resize) ==> r is None,
    {
        AppLayout::handle_event(self, event)
    }
}

/// Builds a tab bar one tab at a time.
pub struct TabBuilder {
    tabs: Vec<Tab>,
}

impl TabBuilder {
    pub closed spec fn spec_tabs(&self) -> Seq<Tab> {
        self.tabs@
    }

    /// A builder without tabs.
    pub fn new() -> (r: TabBuilder)
        ensures
            r.spec_tabs().len() == 0,
    {
        TabBuilder { tabs: Vec::new() }
    }

    /// Adds a tab whose shortcut is the first letter of its label.
    pub fn tab(self, id: &str, label: &str) -> (r: TabBuilder)
        ensures
            r.spec_tabs().len() == self.spec_tabs().len() + 1,
            r.spec_tabs().drop_last() == self.spec_tabs(),
            r.spec_tabs().last().id@ == id@,
            r.spec_tabs().last().label@ == label@,
            label@.len() == 0 ==> r.spec_tabs().last().key is None,
            label@.len() > 0 ==> (r.spec_tabs().last().key matches Some(k) && (('A' <= label@[0]
                && label@[0] <= 'Z') ==> k as u32 == label@[0] as u32 + 32) && (!('A' <= label@[0]
                && label@[0] <= 'Z') ==> k == label@[0])),
    {
        let mut tabs = self.tabs;
        tabs.push(Tab::new(id, label).auto_key());
        assert(tabs@.drop_last() =~= self.tabs@);
        TabBuilder { tabs }
    }

    /// Adds a tab with an explicit shortcut.
    pub fn tab_with_key(self, id: &str, label: &str, key: char) -> (r: TabBuilder)
        ensures
            r.spec_tabs().len() == self.spec_tabs().len() + 1,
            r.spec_tabs().drop_last() == self.spec_tabs(),
            r.spec_tabs().last().id@ == id@,
            r.spec_tabs().last().label@ == label@,
            r.spec_tabs().last().key == Some(key),
    {
        let mut tabs = self.tabs;
        tabs.push(Tab::new(id, label).key(key));
        assert(tabs@.drop_last() =~= self.tabs@);
        TabBuilder { tabs }
    }

    /// The tab bar holding the tabs, with the first selected.
    pub fn build(self) -> (r: TabBar)
        ensures
            r.spec_tabs() == self.spec_tabs(),
            r.spec_selected() == 0,
    {
        TabBar::new().tabs(self.tabs)
    }
}

impl Default for TabBuilder {
    fn default() -> (r: TabBuilder)
        ensures
            r.spec_tabs().len() == 0,
    {
        TabBuilder::new()
    }
}

} // verus!
