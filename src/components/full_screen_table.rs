//! A full-screen table view: a title band, a right-aligned status line, the
//! table, and a footer with key hints and horizontal scroll indicators.
//!
//! Screen rows, top to bottom: title, blank, status, separator, table
//! header, table rows, padding, separator, footer.
use vstd::prelude::*;
use vstd::string::*;
use crate::components::status_badge::StatusBadge;
use crate::components::table::{Column, content_width, header_line, data_line, shown_rows,
    spec_widths, render_table, table_content_width};
use crate::layout::{sat_sub, title_label, title_band_text, right_aligned_text, title_band, right_aligned,
    terminated, views, push_terminated};
use crate::runtime::{Cmd, Event, KeyCode, Model};
use crate::scroll::{ScrollState, spec_scroll_horizontal, scroll_horizontal};
use crate::style::{Color, sgr, reset_seq, painted, push_painted};
use crate::text::{display_width, repeated, measure_text, repeat_char, push_char};

verus! {

/// Rows of the screen that are not table rows: title, blank, status,
/// separator, table header, separator and footer.
pub const CHROME_ROWS: usize = 7;

/// Columns moved by one horizontal scroll step.
pub const H_STEP: isize = 4;

/// Messages of the full-screen table.
#[derive(Debug, Clone, Copy, PartialEq, Eq, Structural)]
pub enum FullScreenTableMsg {
    /// Move the selection up.
    SelectPrev,
    /// Move the selection down.
    SelectNext,
    /// Scroll left.
    ScrollLeft,
    /// Scroll right.
    ScrollRight,
    /// Move the selection up by a page.
    PageUp,
    /// Move the selection down by a page.
    PageDown,
    /// Leave the view.
    Quit,
    /// The terminal has a new size.
    Resize { width: usize, height: usize },
}

/// What the status line shows.
#[derive(Debug, Clone)]
pub enum StatusLine {
    /// A status badge.
    Badge(StatusBadge),
    /// A pre-rendered string, which may hold color sequences.
    Custom(String),
}

impl StatusLine {
    /// The rendered status.
    pub open spec fn rendered(&self) -> Seq<char> {
        match self {
            StatusLine::Badge(b) => b.rendered(),
            StatusLine::Custom(s) => s@,
        }
    }

    /// Renders the status.
    pub fn render(&self) -> (r: String)
        ensures
            r@ == self.rendered(),
    {
        match self {
            StatusLine::Badge(b) => b.render(),
            StatusLine::Custom(s) => s.clone(),
        }
    }
}

/// The message that a raw event stands for in a full-screen table.
pub open spec fn event_message(event: Event) -> Option<FullScreenTableMsg> {
    match event {
        Event::Key(k) => match k.code {
            KeyCode::Char('q') | KeyCode::Esc => Some(FullScreenTableMsg::Quit),
            KeyCode::Up | KeyCode::Char('k') => Some(FullScreenTableMsg::SelectPrev),
            KeyCode::Down | KeyCode::Char('j') => Some(FullScreenTableMsg::SelectNext),
            KeyCode::Left | KeyCode::Char('h') => Some(FullScreenTableMsg::ScrollLeft),
            KeyCode::Right | KeyCode::Char('l') => Some(FullScreenTableMsg::ScrollRight),
            KeyCode::PageUp => Some(FullScreenTableMsg::PageUp),
            KeyCode::PageDown => Some(FullScreenTableMsg::PageDown),
            _ => None,
        },
        Event::Resize { width, height } => Some(
            FullScreenTableMsg::Resize { width: width as usize, height: height as usize },
        ),
        _ => None,
    }
}

/// The end of a screen line.
pub open spec fn crlf() -> Seq<char> {
    seq!['\r', '\n']
}

/// The abstract state of a `FullScreenTable`.
pub struct FullScreenTableView {
    pub width: usize,
    pub height: usize,
    pub title: Seq<char>,
    pub status: Option<StatusLine>,
    pub columns: Seq<Column>,
    pub rows: Seq<Vec<String>>,
    pub footer_hints: Seq<char>,
    pub h_scroll_offset: usize,
    pub scroll: ScrollState,
    pub title_fill_char: char,
    pub separator_char: char,
}

/// A full-screen table view with title, status and footer.
pub struct FullScreenTable {
    width: usize,
    height: usize,
    title: String,
    status: Option<StatusLine>,
    columns: Vec<Column>,
    rows: Vec<Vec<String>>,
    footer_hints: String,
    h_scroll_offset: usize,
    scroll: ScrollState,
    title_fill_char: char,
    separator_char: char,
}

impl FullScreenTable {
    /// The abstract state.
    pub closed spec fn model(&self) -> FullScreenTableView {
        FullScreenTableView {
            width: self.width,
            height: self.height,
            title: self.title@,
            status: self.status,
            columns: self.columns@,
            rows: self.rows@,
            footer_hints: self.footer_hints@,
            h_scroll_offset: self.h_scroll_offset,
            scroll: self.scroll,
            title_fill_char: self.title_fill_char,
            separator_char: self.separator_char,
        }
    }

    pub open spec fn spec_width(&self) -> usize {
        self.model().width
    }

    pub open spec fn spec_height(&self) -> usize {
        self.model().height
    }

    pub open spec fn spec_title(&self) -> Seq<char> {
        self.model().title
    }

    pub open spec fn spec_status(&self) -> Option<StatusLine> {
        self.model().status
    }

    pub open spec fn spec_columns(&self) -> Seq<Column> {
        self.model().columns
    }

    pub open spec fn spec_rows(&self) -> Seq<Vec<String>> {
        self.model().rows
    }

    pub open spec fn spec_footer(&self) -> Seq<char> {
        self.model().footer_hints
    }

    pub open spec fn spec_h_offset(&self) -> usize {
        self.model().h_scroll_offset
    }

    pub open spec fn spec_scroll(&self) -> ScrollState {
        self.model().scroll
    }

    pub open spec fn spec_fill_char(&self) -> char {
        self.model().title_fill_char
    }

    pub open spec fn spec_separator_char(&self) -> char {
        self.model().separator_char
    }

    /// Rows of the table body: the height less the fixed rows.
    pub open spec fn spec_visible_rows(&self) -> nat {
        sat_sub(self.spec_height() as nat, CHROME_ROWS as nat)
    }

    /// Width of the table's content.
    pub open spec fn spec_content_width(&self) -> nat {
        content_width(self.spec_columns(), self.spec_rows())
    }

    /// Largest horizontal offset.
    pub open spec fn spec_max_h_scroll(&self) -> nat {
        sat_sub(self.spec_content_width(), self.spec_width() as nat)
    }

    /// The cursor lies in the visible window of the rows, and the horizontal
    /// offset does not pass the content's width.
    pub open spec fn wf(&self) -> bool {
        &&& self.spec_scroll().is_valid(self.spec_rows().len() as nat, self.spec_visible_rows())
        &&& self.spec_h_offset() <= self.spec_max_h_scroll()
    }

    /// Whether every part of the state but the cursor, the offsets and the
    /// size is as in `other`.
    pub open spec fn same_content(&self, other: &FullScreenTable) -> bool {
        &&& self.spec_title() == other.spec_title()
        &&& self.spec_status() == other.spec_status()
        &&& self.spec_columns() == other.spec_columns()
        &&& self.spec_rows() == other.spec_rows()
        &&& self.spec_footer() == other.spec_footer()
        &&& self.spec_fill_char() == other.spec_fill_char()
        &&& self.spec_separator_char() == other.spec_separator_char()
    }

    /// Whether the cursor, the offsets and the size are as in `other`.
    pub open spec fn same_position(&self, other: &FullScreenTable) -> bool {
        &&& self.spec_width() == other.spec_width()
        &&& self.spec_height() == other.spec_height()
        &&& self.spec_h_offset() == other.spec_h_offset()
        &&& self.spec_scroll() == other.spec_scroll()
    }

    /// The title band.
    pub open spec fn title_text(&self) -> Seq<char> {
        title_band_text(
            title_label(self.spec_title()),
            self.spec_fill_char(),
            self.spec_width() as nat,
        )
    }

    /// The status line: the status flush right, or empty.
    pub open spec fn status_text(&self) -> Seq<char> {
        match self.spec_status() {
            Some(s) => right_aligned_text(s.rendered(), self.spec_width() as nat),
            None => Seq::empty(),
        }
    }

    /// A separator: the separator character over the whole width, in gray.
    pub open spec fn separator_text(&self) -> Seq<char> {
        painted(
            Color::BrightBlack.fg_code(),
            repeated(self.spec_separator_char(), self.spec_width() as nat),
        )
    }

    /// The footer: a left indicator when scrolled right, the hints flush
    /// right, and a right indicator when more columns lie to the right.
    pub open spec fn footer_text(&self) -> Seq<char> {
        let left = if self.spec_h_offset() > 0 {
            seq!['\u{25C0}', ' ']
        } else {
            seq![' ', ' ']
        };
        let right = if self.spec_content_width() > self.spec_width() && self.spec_h_offset()
            < self.spec_max_h_scroll() {
            seq![' ', '\u{25B6}']
        } else {
            seq![' ', ' ']
        };
        let pad = sat_sub(self.spec_width() as nat, display_width(self.spec_footer()) + 4);
        sgr(Color::BrightBlack.fg_code()) + left + repeated(' ', pad) + self.spec_footer() + right
            + reset_seq()
    }

    /// Lines of the table: header, then the visible rows.
    pub open spec fn table_line(&self, k: int) -> Seq<char> {
        let widths = spec_widths(self.spec_columns(), self.spec_rows());
        if k == 0 {
            header_line(self.spec_columns(), widths, self.spec_h_offset() as nat, self.spec_width() as nat)
        } else {
            data_line(
                self.spec_columns(),
                self.spec_rows(),
                widths,
                self.spec_scroll().offset + k - 1,
                self.spec_h_offset() as nat,
                self.spec_width() as nat,
                self.spec_scroll().selected as int,
            )
        }
    }

    /// Number of lines of the table.
    pub open spec fn table_line_count(&self) -> nat {
        1 + shown_rows(
            self.spec_rows().len() as nat,
            self.spec_visible_rows(),
            self.spec_scroll().offset as nat,
        )
    }

    /// The whole screen.
    pub open spec fn screen(&self) -> Seq<char> {
        let n = self.table_line_count();
        self.title_text() + crlf() + crlf() + self.status_text() + crlf() + self.separator_text()
            + crlf() + terminated(Seq::new(n, |k: int| self.table_line(k)), crlf(), n as int)
            + terminated(
            Seq::new(sat_sub(self.spec_height() as nat, 6 + n), |k: int| Seq::<char>::empty()),
            crlf(),
            sat_sub(self.spec_height() as nat, 6 + n) as int,
        ) + self.separator_text() + crlf() + self.footer_text()
    }

    /// The state after `msg`, apart from the command returned.
    pub open spec fn after(&self, msg: FullScreenTableMsg, r: &FullScreenTable) -> bool {
        let len = self.spec_rows().len() as nat;
        let vis = self.spec_visible_rows();
        &&& r.same_content(self)
        &&& match msg {
            FullScreenTableMsg::Quit => r.same_position(self),
            FullScreenTableMsg::Resize { width, height } => {
                &&& r.spec_width() == width
                &&& r.spec_height() == height
                &&& r.spec_scroll() == self.spec_scroll().spec_clamp(len, r.spec_visible_rows())
                &&& r.spec_h_offset() as nat == if self.spec_h_offset() <= r.spec_max_h_scroll() {
                    self.spec_h_offset() as nat
                } else {
                    r.spec_max_h_scroll()
                }
            },
            FullScreenTableMsg::ScrollLeft | FullScreenTableMsg::ScrollRight => {
                &&& r.spec_width() == self.spec_width()
                &&& r.spec_height() == self.spec_height()
                &&& r.spec_scroll() == self.spec_scroll().spec_clamp(len, vis)
                &&& r.spec_h_offset() as int == spec_scroll_horizontal(
                    self.spec_h_offset() as int,
                    if msg is ScrollLeft { -4 } else { 4 },
                    self.spec_content_width(),
                    self.spec_width() as nat,
                )
            },
            _ => {
                let moved = match msg {
                    FullScreenTableMsg::SelectPrev => self.spec_scroll().spec_select_previous(),
                    FullScreenTableMsg::SelectNext => self.spec_scroll().spec_select_next(len, vis),
                    FullScreenTableMsg::PageUp => self.spec_scroll().spec_page_up(vis),
                    _ => self.spec_scroll().spec_page_down(len, vis),
                };
                &&& r.spec_width() == self.spec_width()
                &&& r.spec_height() == self.spec_height()
                &&& r.spec_scroll() == moved.spec_clamp(len, vis)
                &&& r.spec_h_offset() as nat == if self.spec_h_offset() <= self.spec_max_h_scroll() {
                    self.spec_h_offset() as nat
                } else {
                    self.spec_max_h_scroll()
                }
            },
        }
    }

    /// An empty view of the given size.
    pub fn new(width: usize, height: usize) -> (r: FullScreenTable)
        ensures
            r.spec_width() == width,
            r.spec_height() == height,
            r.spec_title().len() == 0,
            r.spec_status() is None,
            r.spec_columns().len() == 0,
            r.spec_rows().len() == 0,
            r.spec_footer().len() == 0,
            r.spec_h_offset() == 0,
            r.spec_scroll() == (ScrollState { selected: 0, offset: 0 }),
            r.spec_fill_char() == '/',
            r.spec_separator_char() == '\u{2500}',
            r.wf(),
    {
        FullScreenTable {
            width,
            height,
            title: String::new(),
            status: None,
            columns: Vec::new(),
            rows: Vec::new(),
            footer_hints: String::new(),
            h_scroll_offset: 0,
            scroll: ScrollState::new(),
            title_fill_char: '/',
            separator_char: '\u{2500}',
        }
    }

    /// Sets the title.
    pub fn title(self, title: &str) -> (r: FullScreenTable)
        ensures
            r.model() == (FullScreenTableView { title: title@, ..self.model() }),
    {
        FullScreenTable { title: String::from_str(title), ..self }
    }

    /// Shows a status badge.
    pub fn status(self, status: StatusBadge) -> (r: FullScreenTable)
        ensures
            r.model() == (FullScreenTableView { status: Some(StatusLine::Badge(status)), ..self.model() }),
    {
        FullScreenTable { status: Some(StatusLine::Badge(status)), ..self }
    }

    /// Shows a pre-rendered status string.
    pub fn status_custom(self, status: &str) -> (r: FullScreenTable)
        ensures
            r.spec_status() matches Some(StatusLine::Custom(s)) && s@ == status@,
            r.model() == (FullScreenTableView { status: r.spec_status(), ..self.model() }),
    {
        FullScreenTable { status: Some(StatusLine::Custom(String::from_str(status))), ..self }
    }

    /// Sets the columns; the horizontal offset is clamped to the new width.
    pub fn columns(self, columns: Vec<Column>) -> (r: FullScreenTable)
        ensures
            r.model() == (FullScreenTableView {
                columns: columns@,
                h_scroll_offset: r.spec_h_offset(),
                ..self.model()
            }),
            r.spec_h_offset() as nat == (if self.spec_h_offset() <= r.spec_max_h_scroll() {
                self.spec_h_offset() as nat
            } else {
                r.spec_max_h_scroll()
            }),
            self.wf() ==> r.wf(),
    {
        let mut r = FullScreenTable { columns, ..self };
        r.clamp_h_scroll();
        r
    }

    /// Sets the rows; cursor and offsets are clamped to the new data.
    pub fn rows(self, rows: Vec<Vec<String>>) -> (r: FullScreenTable)
        ensures
            r.model() == (FullScreenTableView {
                rows: rows@,
                h_scroll_offset: r.spec_h_offset(),
                scroll: self.spec_scroll().spec_clamp(rows@.len() as nat, r.spec_visible_rows()),
                ..self.model()
            }),
            r.spec_h_offset() as nat == (if self.spec_h_offset() <= r.spec_max_h_scroll() {
                self.spec_h_offset() as nat
            } else {
                r.spec_max_h_scroll()
            }),
            r.wf(),
    {
        let mut r = FullScreenTable { rows, ..self };
        let len = r.rows.len();
        let vis = r.visible_rows();
        r.scroll.clamp(len, vis);
        r.clamp_h_scroll();
        r
    }

    /// Sets the footer hints.
    pub fn footer_hints(self, hints: &str) -> (r: FullScreenTable)
        ensures
            r.model() == (FullScreenTableView { footer_hints: hints@, ..self.model() }),
    {
        FullScreenTable { footer_hints: String::from_str(hints), ..self }
    }

    /// Sets the title fill character.
    pub fn title_fill_char(self, c: char) -> (r: FullScreenTable)
        ensures
            r.model() == (FullScreenTableView { title_fill_char: c, ..self.model() }),
    {
        FullScreenTable { title_fill_char: c, ..self }
    }

    /// Sets the separator character.
    pub fn separator_char(self, c: char) -> (r: FullScreenTable)
        ensures
            r.model() == (FullScreenTableView { separator_char: c, ..self.model() }),
    {
        FullScreenTable { separator_char: c, ..self }
    }

    /// The terminal size, as `(width, height)`.
    pub fn dimensions(&self) -> (r: (usize, usize))
        ensures
            r == (self.spec_width(), self.spec_height()),
    {
        (self.width, self.height)
    }

    /// Index of the selected row.
    pub fn selected_row(&self) -> (r: usize)
        ensures
            r == self.spec_scroll().selected,
    {
        self.scroll.selected
    }

    /// Index of the first visible row.
    pub fn scroll_offset(&self) -> (r: usize)
        ensures
            r == self.spec_scroll().offset,
    {
        self.scroll.offset
    }

    /// The horizontal scroll offset.
    pub fn h_scroll_offset(&self) -> (r: usize)
        ensures
            r == self.spec_h_offset(),
    {
        self.h_scroll_offset
    }

    /// The selected row's cells, if there is such a row.
    pub fn current_row(&self) -> (r: Option<&Vec<String>>)
        ensures
            self.spec_scroll().selected < self.spec_rows().len() ==> r == Some(
                &self.spec_rows()[self.spec_scroll().selected as int],
            ),
            self.spec_scroll().selected >= self.spec_rows().len() ==> r is None,
    {
        if self.scroll.selected < self.rows.len() {
            Some(&self.rows[self.scroll.selected])
        } else {
            None
        }
    }

    /// Rows left for the table body.
    pub fn visible_rows(&self) -> (r: usize)
        ensures
            r as nat == self.spec_visible_rows(),
    {
        if self.height >= CHROME_ROWS { self.height - CHROME_ROWS } else { 0 }
    }

    /// Width of the table's content.
    pub fn table_content_width(&self) -> (r: usize)
        ensures
            r as nat == self.spec_content_width(),
    {
        table_content_width(&self.columns, &self.rows)
    }

    /// Largest horizontal offset.
    pub fn max_h_scroll(&self) -> (r: usize)
        ensures
            r as nat == self.spec_max_h_scroll(),
    {
        let w = self.table_content_width();
        if w >= self.width { w - self.width } else { 0 }
    }

    /// Whether the content is wider than the screen.
    pub fn can_scroll_horizontal(&self) -> (r: bool)
        ensures
            r == (self.spec_content_width() > self.spec_width()),
    {
        self.table_content_width() > self.width
    }

    fn clamp_h_scroll(&mut self)
        ensures
            final(self).spec_h_offset() as nat == (if old(self).spec_h_offset()
                <= old(self).spec_max_h_scroll() {
                old(self).spec_h_offset() as nat
            } else {
                old(self).spec_max_h_scroll()
            }),
            final(self).same_content(old(self)),
            final(self).spec_width() == old(self).spec_width(),
            final(self).spec_height() == old(self).spec_height(),
            final(self).spec_scroll() == old(self).spec_scroll(),
    {
        let max = self.max_h_scroll();
        if self.h_scroll_offset > max {
            self.h_scroll_offset = max;
        }
    }

    /// Folds one message into the state. Every message but `Quit` ends by
    /// clamping the cursor and the offsets to the data and the screen.
    pub fn update(&mut self, msg: FullScreenTableMsg) -> (r: Option<Cmd<FullScreenTableMsg>>)
        ensures
            old(self).after(msg, final(self)),
            msg is Quit ==> r matches Some(Cmd::Quit),
            !(msg is Quit) ==> r is None,
            !(msg is Quit) ==> final(self).wf(),
            old(self).wf() ==> final(self).wf(),
    {
        let len = self.rows.len();
        let vis = self.visible_rows();
        match msg {
            FullScreenTableMsg::SelectPrev => {
                self.scroll.select_previous();
            },
            FullScreenTableMsg::SelectNext => {
                self.scroll.select_next(len, vis);
            },
            FullScreenTableMsg::ScrollLeft => {
                let cw = self.table_content_width();
                self.h_scroll_offset = scroll_horizontal(self.h_scroll_offset, -H_STEP, cw, self.width);
            },
            FullScreenTableMsg::ScrollRight => {
                let cw = self.table_content_width();
                self.h_scroll_offset = scroll_horizontal(self.h_scroll_offset, H_STEP, cw, self.width);
            },
            FullScreenTableMsg::PageUp => {
                self.scroll.page_up(vis);
            },
            FullScreenTableMsg::PageDown => {
                self.scroll.page_down(len, vis);
            },
            FullScreenTableMsg::Quit => {
                return Some(Cmd::quit());
            },
            FullScreenTableMsg::Resize { width, height } => {
                self.width = width;
                self.height = height;
            },
        }
        let vis = self.visible_rows();
        self.scroll.clamp(len, vis);
        self.clamp_h_scroll();
        None
    }

    /// Renders the title band.
    pub fn render_title(&self) -> (r: String)
        ensures
            r@ == self.title_text(),
    {
        let mut label = String::new();
        push_char(&mut label, '/');
        push_char(&mut label, '/');
        push_char(&mut label, ' ');
        label.append(self.title.as_str());
        push_char(&mut label, ' ');
        assert(label@ =~= title_label(self.title@));
        title_band(label.as_str(), self.title_fill_char, self.width)
    }

    /// Renders the status line.
    pub fn render_status_line(&self) -> (r: String)
        ensures
            r@ == self.status_text(),
    {
        match &self.status {
            Some(s) => {
                let text = s.render();
                right_aligned(text.as_str(), self.width)
            },
            None => String::new(),
        }
    }

    /// Renders a separator line.
    pub fn render_separator(&self) -> (r: String)
        ensures
            r@ == self.separator_text(),
    {
        let line = repeat_char(self.separator_char, self.width);
        let mut out = String::new();
        push_painted(&mut out, Color::BrightBlack, line.as_str());
        assert(out@ =~= self.separator_text());
        out
    }

    /// Renders the footer.
    pub fn render_footer(&self) -> (r: String)
        ensures
            r@ == self.footer_text(),
    {
        let mut out = Color::BrightBlack.to_ansi_fg();
        if self.h_scroll_offset > 0 {
            push_char(&mut out, '\u{25C0}');
        } else {
            push_char(&mut out, ' ');
        }
        push_char(&mut out, ' ');
        let hints_len = measure_text(self.footer_hints.as_str());
        let pad: usize = if hints_len <= self.width && self.width - hints_len >= 4 {
            self.width - hints_len - 4
        } else {
            0
        };
        let spaces = repeat_char(' ', pad);
        out.append(spaces.as_str());
        out.append(self.footer_hints.as_str());
        push_char(&mut out, ' ');
        if self.can_scroll_horizontal() && self.h_scroll_offset < self.max_h_scroll() {
            push_char(&mut out, '\u{25B6}');
        } else {
            push_char(&mut out, ' ');
        }
        let reset = crate::style::reset_code();
        out.append(reset.as_str());
        assert(out@ =~= self.footer_text());
        out
    }

    /// Renders the whole screen.
    pub fn view(&self) -> (r: String)
        ensures
            r@ == self.screen(),
    {
        let mut out = String::new();
        let mut crlf_s = String::new();
        push_char(&mut crlf_s, '\r');
        push_char(&mut crlf_s, '\n');
        let nl = crlf_s.as_str();
        assert(nl@ =~= crlf());
        let title = self.render_title();
        out.append(title.as_str());
        out.append(nl);
        out.append(nl);
        let status = self.render_status_line();
        out.append(status.as_str());
        out.append(nl);
        let sep = self.render_separator();
        out.append(sep.as_str());
        out.append(nl);
        let ghost head = out@;
        let lines = render_table(
            &self.columns,
            &self.rows,
            self.visible_rows(),
            self.width,
            self.h_scroll_offset,
            self.scroll.selected,
            self.scroll.offset,
        );
        let n = lines.len();
        assert(views(lines@) =~= Seq::new(n as nat, |k: int| self.table_line(k)));
        push_terminated(&mut out, &lines, nl);
        let pad: usize = if n <= usize::MAX - 6 && self.height >= 6 + n {
            self.height - 6 - n
        } else {
            0
        };
        let blanks: Vec<String> = empty_lines(pad);
        let ghost mid = out@;
        push_terminated(&mut out, &blanks, nl);
        assert(views(blanks@) =~= Seq::new(
            sat_sub(self.spec_height() as nat, 6 + n as nat),
            |k: int| Seq::<char>::empty(),
        ));
        out.append(sep.as_str());
        out.append(nl);
        let footer = self.render_footer();
        out.append(footer.as_str());
        assert(out@ =~= self.screen());
        out
    }

    /// The message that a raw event stands for.
    pub fn handle_event(&self, event: Event) -> (r: Option<FullScreenTableMsg>)
        ensures
            r == event_message(event),
    {
        match event {
            Event::Key(k) => match k.code {
                KeyCode::Char('q') | KeyCode::Esc => Some(FullScreenTableMsg::Quit),
                KeyCode::Up | KeyCode::Char('k') => Some(FullScreenTableMsg::SelectPrev),
                KeyCode::Down | KeyCode::Char('j') => Some(FullScreenTableMsg::SelectNext),
                KeyCode::Left | KeyCode::Char('h') => Some(FullScreenTableMsg::ScrollLeft),
                KeyCode::Right | KeyCode::Char('l') => Some(FullScreenTableMsg::ScrollRight),
                KeyCode::PageUp => Some(FullScreenTableMsg::PageUp),
                KeyCode::PageDown => Some(FullScreenTableMsg::PageDown),
                _ => None,
            },
            Event::Resize { width, height } => Some(
                FullScreenTableMsg::Resize { width: width as usize, height: height as usize },
            ),
            _ => None,
        }
    }
}

/// On a well-formed table, moving up from the first row and moving down
/// from the last row change nothing.
pub proof fn lemma_table_select_at_ends(t: FullScreenTable, r: FullScreenTable, msg: FullScreenTableMsg)
    requires
        t.wf(),
        t.after(msg, &r),
        (msg is SelectPrev && t.spec_scroll().selected == 0) || (msg is SelectNext
            && t.spec_rows().len() > 0 && t.spec_scroll().selected == t.spec_rows().len() - 1),
    ensures
        r.model() == t.model(),
{
    assert(t.spec_scroll().spec_select_previous() == t.spec_scroll() || !(msg is SelectPrev));
    assert(r.spec_scroll() == t.spec_scroll());
}

/// `n` empty strings.
fn empty_lines(n: usize) -> (r: Vec<String>)
    ensures
        r@.len() == n,
        forall|k: int| 0 <= k < n ==> (#[trigger] r@[k])@ == Seq::<char>::empty(),
{
    let mut out: Vec<String> = Vec::new();
    let mut i: usize = 0;
    while i < n
        invariant
            i <= n,
            out@.len() == i,
            forall|k: int| 0 <= k < i ==> (#[trigger] out@[k])@ == Seq::<char>::empty(),
        decreases n - i,
    {
        out.push(String::new());
        i = i + 1;
    }
    out
}

impl Model for FullScreenTable {
    type Message = FullScreenTableMsg;

    fn init(&self) -> (r: Option<Cmd<FullScreenTableMsg>>)
        ensures
            r is None,
    {
        None
    }

    fn update(&mut self, msg: FullScreenTableMsg) -> (r: Option<Cmd<FullScreenTableMsg>>)
        ensures
            old(self).after(msg, final(self)),
            msg is Quit ==> r matches Some(Cmd::Quit),
            !(msg is Quit) ==> r is None,
            !(msg is Quit) ==> final(self).wf(),
            old(self).wf() ==> final(self).wf(),
    {
        FullScreenTable::update(self, msg)
    }

    fn view(&self) -> (r: String)
        ensures
            r@ == self.screen(),
    {
        FullScreenTable::view(self)
    }

    fn handle_event(&self, event: Event) -> (r: Option<FullScreenTableMsg>)
        ensures
            r == event_message(event),
    {
        FullScreenTable::handle_event(self, event)
    }
}

} // verus!
