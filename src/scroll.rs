//! Cursor and viewport bookkeeping for long, indexable collections.
//!
//! The state is a pair `(selected, offset)`; the collection's length and the
//! number of visible rows are supplied by the caller on each operation. A
//! visible count of zero is treated as a window of one row.
use vstd::prelude::*;

verus! {

/// Rows in the window: `visible`, but never less than one.
pub open spec fn window(visible: nat) -> nat {
    if visible == 0 { 1 } else { visible }
}

/// Largest index of a collection of `len` items (0 when it is empty).
pub open spec fn last_index(len: nat) -> nat {
    if len > 0 { (len - 1) as nat } else { 0 }
}

/// Largest scroll offset: `max(len - visible, 0)`.
pub open spec fn max_offset(len: nat, visible: nat) -> nat {
    if len > window(visible) { (len - window(visible)) as nat } else { 0 }
}

/// Rows moved by one page: `visible - 1`, but never less than one.
pub open spec fn page_step(visible: nat) -> nat {
    if visible > 1 { (visible - 1) as nat } else { 1 }
}

/// Cursor position and viewport offset of a scrollable list.
#[derive(Debug, Clone, Copy, PartialEq, Eq, Structural)]
pub struct ScrollState {
    /// Index of the selected item.
    pub selected: usize,
    /// Index of the first visible item.
    pub offset: usize,
}

/// One operation of the scroll engine, for reasoning about sequences of them.
pub enum ScrollOp {
    SelectPrevious,
    SelectNext,
    PageUp,
    PageDown,
    Clamp { len: usize, visible: usize },
}

impl ScrollState {
    /// The cursor lies in `[0, len)` (at 0 when empty), the offset in
    /// `[0, max_offset]`, and the cursor within the visible window.
    pub open spec fn is_valid(self, len: nat, visible: nat) -> bool {
        &&& self.selected <= last_index(len)
        &&& self.offset <= max_offset(len, visible)
        &&& len > 0 ==> self.offset <= self.selected < self.offset + window(visible)
    }

    /// Pulls the offset up so that the cursor is not above the window.
    pub open spec fn scrolled_up(selected: nat, offset: nat) -> ScrollState {
        ScrollState {
            selected: selected as usize,
            offset: if selected < offset { selected as usize } else { offset as usize },
        }
    }

    /// Pushes the offset down so that the cursor is not below the window.
    pub open spec fn scrolled_down(selected: nat, offset: nat, visible: nat) -> ScrollState {
        ScrollState {
            selected: selected as usize,
            offset: if selected >= offset + window(visible) {
                (selected - window(visible) + 1) as usize
            } else {
                offset as usize
            },
        }
    }

    pub open spec fn spec_select_previous(self) -> ScrollState {
        if self.selected > 0 {
            ScrollState::scrolled_up((self.selected - 1) as nat, self.offset as nat)
        } else {
            self
        }
    }

    pub open spec fn spec_select_next(self, len: nat, visible: nat) -> ScrollState {
        if len > 0 && self.selected < len - 1 {
            ScrollState::scrolled_down((self.selected + 1) as nat, self.offset as nat, visible)
        } else {
            self
        }
    }

    pub open spec fn spec_page_up(self, visible: nat) -> ScrollState {
        let sel: nat = if self.selected >= page_step(visible) {
            (self.selected - page_step(visible)) as nat
        } else {
            0
        };
        ScrollState::scrolled_up(sel, self.offset as nat)
    }

    pub open spec fn spec_page_down(self, len: nat, visible: nat) -> ScrollState {
        let target = self.selected + page_step(visible);
        let sel: nat = if target < last_index(len) { target as nat } else { last_index(len) };
        ScrollState::scrolled_down(sel, self.offset as nat, visible)
    }

    pub open spec fn spec_clamp(self, len: nat, visible: nat) -> ScrollState {
        let sel: nat = if self.selected < last_index(len) {
            self.selected as nat
        } else {
            last_index(len)
        };
        let off: nat = if self.offset < max_offset(len, visible) {
            self.offset as nat
        } else {
            max_offset(len, visible)
        };
        if sel < off {
            ScrollState::scrolled_up(sel, off)
        } else {
            ScrollState::scrolled_down(sel, off, visible)
        }
    }

    /// A cursor at the top of the list.
    pub fn new() -> (r: ScrollState)
        ensures
            r.selected == 0,
            r.offset == 0,
    {
        ScrollState { selected: 0, offset: 0 }
    }

    /// Moves the cursor up by one row; no-op at the top.
    pub fn select_previous(&mut self)
        ensures
            *final(self) == old(self).spec_select_previous(),
    {
        if self.selected > 0 {
            self.selected = self.selected - 1;
            if self.selected < self.offset {
                self.offset = self.selected;
            }
        }
    }

    /// Moves the cursor down by one row; no-op at the bottom.
    pub fn select_next(&mut self, len: usize, visible: usize)
        ensures
            *final(self) == old(self).spec_select_next(len as nat, visible as nat),
    {
        if len > 0 && self.selected < len - 1 {
            self.selected = self.selected + 1;
            self.repair_down(visible);
        }
    }

    /// Moves the offset down when the cursor lies below the window.
    fn repair_down(&mut self, visible: usize)
        ensures
            *final(self) == ScrollState::scrolled_down(
                old(self).selected as nat,
                old(self).offset as nat,
                visible as nat,
            ),
    {
        let w: usize = if visible == 0 { 1 } else { visible };
        if self.selected >= self.offset && self.selected - self.offset >= w {
            self.offset = self.selected - w + 1;
        }
    }

    /// Moves the cursor up by one page, stopping at the top.
    pub fn page_up(&mut self, visible: usize)
        ensures
            *final(self) == old(self).spec_page_up(visible as nat),
    {
        let step: usize = if visible > 1 { visible - 1 } else { 1 };
        self.selected = if self.selected >= step { self.selected - step } else { 0 };
        if self.selected < self.offset {
            self.offset = self.selected;
        }
    }

    /// Moves the cursor down by one page, stopping at the last row.
    pub fn page_down(&mut self, len: usize, visible: usize)
        ensures
            *final(self) == old(self).spec_page_down(len as nat, visible as nat),
    {
        let step: usize = if visible > 1 { visible - 1 } else { 1 };
        let last: usize = if len > 0 { len - 1 } else { 0 };
        self.selected = if self.selected < last && last - self.selected > step {
            self.selected + step
        } else {
            last
        };
        self.repair_down(visible);
    }

    /// Brings the state back within range after a change of length or of
    /// window size, and scrolls the cursor into view.
    pub fn clamp(&mut self, len: usize, visible: usize)
        ensures
            *final(self) == old(self).spec_clamp(len as nat, visible as nat),
            final(self).is_valid(len as nat, visible as nat),
    {
        let w: usize = if visible == 0 { 1 } else { visible };
        let last: usize = if len > 0 { len - 1 } else { 0 };
        let max_off: usize = if len > w { len - w } else { 0 };
        if self.selected > last {
            self.selected = last;
        }
        if self.offset > max_off {
            self.offset = max_off;
        }
        if self.selected < self.offset {
            self.offset = self.selected;
        } else {
            self.repair_down(visible);
        }
    }
}

impl ScrollOp {
    /// Applies the operation to `st` on a list of `len` items with `visible`
    /// rows; a clamp also switches to its new length and row count.
    pub open spec fn apply(self, st: ScrollState, len: usize, visible: usize) -> (
        ScrollState,
        usize,
        usize,
    ) {
        match self {
            ScrollOp::SelectPrevious => (st.spec_select_previous(), len, visible),
            ScrollOp::SelectNext => (st.spec_select_next(len as nat, visible as nat), len, visible),
            ScrollOp::PageUp => (st.spec_page_up(visible as nat), len, visible),
            ScrollOp::PageDown => (st.spec_page_down(len as nat, visible as nat), len, visible),
            ScrollOp::Clamp { len: n, visible: v } => (st.spec_clamp(n as nat, v as nat), n, v),
        }
    }
}

/// Applies `ops` in order, starting from `st` on `len` items and `visible` rows.
pub open spec fn apply_all(st: ScrollState, len: usize, visible: usize, ops: Seq<ScrollOp>) -> (
    ScrollState,
    usize,
    usize,
)
    decreases ops.len(),
{
    if ops.len() == 0 {
        (st, len, visible)
    } else {
        let (st2, len2, visible2) = ops[0].apply(st, len, visible);
        apply_all(st2, len2, visible2, ops.drop_first())
    }
}

/// Every single operation keeps a valid state valid.
pub proof fn lemma_op_keeps_valid(op: ScrollOp, st: ScrollState, len: usize, visible: usize)
    requires
        st.is_valid(len as nat, visible as nat),
    ensures
        ({
            let (st2, len2, visible2) = op.apply(st, len, visible);
            st2.is_valid(len2 as nat, visible2 as nat)
        }),
{
    match op {
        ScrollOp::SelectPrevious => {
            assert(st.spec_select_previous().is_valid(len as nat, visible as nat));
        },
        ScrollOp::SelectNext => {
            assert(st.spec_select_next(len as nat, visible as nat).is_valid(
                len as nat,
                visible as nat,
            ));
        },
        ScrollOp::PageUp => {
            assert(st.spec_page_up(visible as nat).is_valid(len as nat, visible as nat));
        },
        ScrollOp::PageDown => {
            assert(st.spec_page_down(len as nat, visible as nat).is_valid(
                len as nat,
                visible as nat,
            ));
        },
        ScrollOp::Clamp { len: n, visible: v } => {
            assert(st.spec_clamp(n as nat, v as nat).is_valid(n as nat, v as nat));
        },
    }
}

/// Whatever sequence of moves, pages and clamps runs from a fresh state, with
/// at least one visible row each time, the offset stays within
/// `[0, max(len - visible, 0)]` and a non-empty list keeps the cursor inside
/// the window `[offset, offset + visible)`.
pub proof fn lemma_window_invariant(len: usize, visible: usize, ops: Seq<ScrollOp>)
    requires
        visible >= 1,
        forall|i: int|
            0 <= i < ops.len() ==> (#[trigger] ops[i] matches ScrollOp::Clamp { visible: v, .. }
                ==> v >= 1),
    ensures
        ({
            let (st, n, v) = apply_all(ScrollState { selected: 0, offset: 0 }, len, visible, ops);
            &&& st.offset <= (if n > v { n - v } else { 0 })
            &&& n > 0 ==> st.offset <= st.selected < st.offset + v
        }),
{
    lemma_valid_after_all(ScrollState { selected: 0, offset: 0 }, len, visible, ops);
}

proof fn lemma_valid_after_all(st: ScrollState, len: usize, visible: usize, ops: Seq<ScrollOp>)
    requires
        st.is_valid(len as nat, visible as nat),
        visible >= 1,
        forall|i: int|
            0 <= i < ops.len() ==> (#[trigger] ops[i] matches ScrollOp::Clamp { visible: v, .. }
                ==> v >= 1),
    ensures
        ({
            let (st2, n, v) = apply_all(st, len, visible, ops);
            st2.is_valid(n as nat, v as nat) && v >= 1
        }),
    decreases ops.len(),
{
    if ops.len() > 0 {
        lemma_op_keeps_valid(ops[0], st, len, visible);
        let (st2, len2, visible2) = ops[0].apply(st, len, visible);
        assert(ops[0] matches ScrollOp::Clamp { visible: v, .. } ==> v >= 1);
        let rest = ops.drop_first();
        assert forall|i: int|
            0 <= i < rest.len() implies (#[trigger] rest[i] matches ScrollOp::Clamp {
                visible: v,
                ..
            } ==> v >= 1) by {
            assert(rest[i] == ops[i + 1]);
        }
        lemma_valid_after_all(st2, len2, visible2, rest);
    }
}

/// Clamping twice with the same arguments gives the state of one clamp.
pub proof fn lemma_clamp_idempotent(st: ScrollState, len: usize, visible: usize)
    ensures
        st.spec_clamp(len as nat, visible as nat).spec_clamp(len as nat, visible as nat)
            == st.spec_clamp(len as nat, visible as nat),
{
}

/// Moving up at the top and down at the bottom change nothing, and clamping
/// to an empty list puts both cursor and offset at zero.
pub proof fn lemma_scroll_boundaries(st: ScrollState, len: usize, visible: usize)
    ensures
        st.selected == 0 ==> st.spec_select_previous() == st,
        len > 0 && st.selected == len - 1 ==> st.spec_select_next(len as nat, visible as nat)
            == st,
        st.spec_clamp(0, visible as nat) == (ScrollState { selected: 0, offset: 0 }),
{
}

/// `offset + delta`, clamped to `[0, max(content_width - view_width, 0)]`.
pub open spec fn spec_scroll_horizontal(
    offset: int,
    delta: int,
    content_width: nat,
    view_width: nat,
) -> int {
    let max = if content_width > view_width { content_width - view_width } else { 0 };
    let moved = offset + delta;
    if moved < 0 { 0 } else if moved > max { max } else { moved }
}

/// Moves a horizontal offset by `delta` columns, keeping it between zero
/// and the width that does not fit in the view.
pub fn scroll_horizontal(offset: usize, delta: isize, content_width: usize, view_width: usize) -> (r: usize)
    ensures
        r as int == spec_scroll_horizontal(
            offset as int,
            delta as int,
            content_width as nat,
            view_width as nat,
        ),
{
    let max: usize = if content_width > view_width { content_width - view_width } else { 0 };
    let moved: usize = if delta < 0 {
        let back: usize = if delta == isize::MIN {
            (isize::MAX as usize) + 1
        } else {
            (-delta) as usize
        };
        if offset >= back { offset - back } else { 0 }
    } else {
        let fwd = delta as usize;
        if offset <= max && fwd <= max - offset { offset + fwd } else { max }
    };
    if moved > max { max } else { moved }
}

} // verus!
