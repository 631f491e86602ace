//! Table rendering as a pure function of the table's data: column widths,
//! row formatting, horizontal cropping and the visible window of rows.
//! Cells are plain text; each column is as wide as its widest entry.
use vstd::prelude::*;
use vstd::string::*;
use crate::style::{Color, painted, push_painted};
use crate::text::{display_width, repeated, measure_text, repeat_char, push_char};
use crate::layout::sat_sub;

verus! {

/// A table column: a title and a minimum width.
#[derive(Debug, Clone)]
pub struct Column {
    pub title: String,
    pub min_width: usize,
}

impl Column {
    /// A column with a title and no minimum width.
    pub fn new(title: &str) -> (r: Column)
        ensures
            r.title@ == title@,
            r.min_width == 0,
    {
        Column { title: String::from_str(title), min_width: 0 }
    }

    /// Sets the minimum width.
    pub fn width(self, min_width: usize) -> (r: Column)
        ensures
            r.title@ == self.title@,
            r.min_width == min_width,
    {
        Column { min_width, ..self }
    }
}

/// Cell `c` of a row, or empty when the row is short.
pub open spec fn cell_at(row: Seq<String>, c: int) -> Seq<char> {
    if 0 <= c < row.len() { row[c]@ } else { Seq::empty() }
}

pub open spec fn max_nat(a: nat, b: nat) -> nat {
    if a >= b { a } else { b }
}

/// Width of column `c` over the first `k` rows: the widest of its minimum,
/// its title and its cells.
pub open spec fn col_width(col: Column, rows: Seq<Vec<String>>, c: int, k: int) -> nat
    decreases k,
{
    if k <= 0 {
        max_nat(col.min_width as nat, display_width(col.title@))
    } else {
        max_nat(col_width(col, rows, c, k - 1), display_width(cell_at(rows[k - 1]@, c)))
    }
}

/// A cell padded with spaces to `w` columns.
pub open spec fn padded(cell: Seq<char>, w: nat) -> Seq<char> {
    cell + repeated(' ', sat_sub(w, display_width(cell)))
}

/// The first `k` cells of a row, padded to their widths and separated by
/// single spaces.
pub open spec fn row_text(cells: Seq<Seq<char>>, widths: Seq<usize>, k: int) -> Seq<char>
    decreases k,
{
    if k <= 0 {
        Seq::empty()
    } else if k == 1 {
        padded(cells[0], widths[0] as nat)
    } else {
        row_text(cells, widths, k - 1) + seq![' '] + padded(cells[k - 1], widths[k - 1] as nat)
    }
}

/// Width of a table whose columns have the first `k` widths: the widths
/// and one column of space between neighbours.
pub open spec fn total_width(widths: Seq<usize>, k: int) -> nat
    decreases k,
{
    if k <= 0 {
        0
    } else if k == 1 {
        widths[0] as nat
    } else {
        total_width(widths, k - 1) + 1 + widths[k - 1] as nat
    }
}

/// Columns `[start, start + width)` of a plain line.
pub open spec fn cropped(line: Seq<char>, start: nat, width: nat) -> Seq<char> {
    let from = if start < line.len() { start } else { line.len() };
    let to = if start + width < line.len() { start + width } else { line.len() };
    line.subrange(from as int, to as int)
}

/// Width of each column.
pub fn column_widths(columns: &Vec<Column>, rows: &Vec<Vec<String>>) -> (r: Vec<usize>)
    ensures
        r@.len() == columns@.len(),
        forall|c: int|
            0 <= c < columns@.len() ==> #[trigger] r@[c] as nat == col_width(
                columns@[c],
                rows@,
                c,
                rows@.len() as int,
            ),
{
    let mut out: Vec<usize> = Vec::new();
    let mut c: usize = 0;
    while c < columns.len()
        invariant
            c <= columns@.len(),
            out@.len() == c,
            forall|j: int|
                0 <= j < c ==> #[trigger] out@[j] as nat == col_width(
                    columns@[j],
                    rows@,
                    j,
                    rows@.len() as int,
                ),
        decreases columns@.len() - c,
    {
        let col = &columns[c];
        let title_w = measure_text(col.title.as_str());
        let mut w: usize = if col.min_width >= title_w { col.min_width } else { title_w };
        let mut k: usize = 0;
        while k < rows.len()
            invariant
                k <= rows@.len(),
                c < columns@.len(),
                *col == columns@[c as int],
                w as nat == col_width(*col, rows@, c as int, k as int),
            decreases rows@.len() - k,
        {
            let row = &rows[k];
            let cw: usize = if c < row.len() { measure_text(row[c].as_str()) } else { 0 };
            if cw > w {
                w = cw;
            }
            k = k + 1;
        }
        out.push(w);
        c = c + 1;
    }
    out
}

/// Full width of the table, capped at `usize::MAX`.
pub fn table_width(widths: &Vec<usize>) -> (r: usize)
    ensures
        r as nat == (if total_width(widths@, widths@.len() as int) <= usize::MAX {
            total_width(widths@, widths@.len() as int)
        } else {
            usize::MAX as nat
        }),
{
    let mut total: usize = 0;
    let mut capped = false;
    let mut k: usize = 0;
    while k < widths.len()
        invariant
            k <= widths@.len(),
            capped ==> total == usize::MAX && total_width(widths@, k as int) > usize::MAX,
            !capped ==> total as nat == total_width(widths@, k as int),
        decreases widths@.len() - k,
    {
        let gap: usize = if k == 0 { 0 } else { 1 };
        if !capped {
            if total <= usize::MAX - gap && total + gap <= usize::MAX - widths[k] {
                total = total + gap + widths[k];
            } else {
                total = usize::MAX;
                capped = true;
            }
        }
        k = k + 1;
    }
    total
}

/// Formats a row: each cell padded to its column's width, with one space
/// between columns.
pub fn format_row(cells: &Vec<String>, widths: &Vec<usize>) -> (r: String)
    ensures
        r@ == row_text(
            Seq::new(widths@.len(), |j: int| cell_at(cells@, j)),
            widths@,
            widths@.len() as int,
        ),
{
    let ghost all = Seq::new(widths@.len(), |j: int| cell_at(cells@, j));
    let mut out = String::new();
    let mut k: usize = 0;
    while k < widths.len()
        invariant
            k <= widths@.len(),
            all == Seq::new(widths@.len(), |j: int| cell_at(cells@, j)),
            out@ == row_text(all, widths@, k as int),
        decreases widths@.len() - k,
    {
        let ghost before = out@;
        if k > 0 {
            push_char(&mut out, ' ');
        }
        let empty = String::new();
        let cell: &str = if k < cells.len() { cells[k].as_str() } else { empty.as_str() };
        assert(cell@ == all[k as int]);
        let used = measure_text(cell);
        let pad: usize = if widths[k] >= used { widths[k] - used } else { 0 };
        out.append(cell);
        let spaces = repeat_char(' ', pad);
        out.append(spaces.as_str());
        if k == 0 {
            assert(out@ =~= row_text(all, widths@, 1));
        } else {
            assert(out@ =~= before + seq![' '] + padded(all[k as int], widths@[k as int] as nat));
        }
        k = k + 1;
    }
    out
}

/// Columns `[start, start + width)` of a plain line.
pub fn crop(line: &str, start: usize, width: usize) -> (r: String)
    ensures
        r@ == cropped(line@, start as nat, width as nat),
{
    let n = line.unicode_len();
    let from: usize = if start < n { start } else { n };
    let to: usize = if start < n && width < n - start { start + width } else { n };
    String::from_str(line.substring_char(from, to))
}

/// Rows shown in a window of `height` rows that starts at `offset`.
pub open spec fn shown_rows(len: nat, height: nat, offset: nat) -> nat {
    if offset >= len { 0 } else if len - offset < height { (len - offset) as nat } else { height }
}

/// Line of data row `i`, cropped, and painted in cyan when it is the
/// cursor row.
pub open spec fn data_line(
    columns: Seq<Column>,
    rows: Seq<Vec<String>>,
    widths: Seq<usize>,
    i: int,
    h_offset: nat,
    width: nat,
    cursor: int,
) -> Seq<char> {
    let text = cropped(
        row_text(Seq::new(widths.len(), |j: int| cell_at(rows[i]@, j)), widths, widths.len() as int),
        h_offset,
        width,
    );
    if i == cursor { painted(Color::Cyan.fg_code(), text) } else { text }
}

/// The header line: the column titles, cropped.
pub open spec fn header_line(columns: Seq<Column>, widths: Seq<usize>, h_offset: nat, width: nat) -> Seq<char> {
    cropped(
        row_text(Seq::new(widths.len(), |j: int| columns[j].title@), widths, widths.len() as int),
        h_offset,
        width,
    )
}

/// Renders the header and the rows `[offset, offset + height)`, each line
/// cropped to the columns `[h_offset, h_offset + width)`; the cursor row is
/// painted in cyan.
pub fn render_table(
    columns: &Vec<Column>,
    rows: &Vec<Vec<String>>,
    height: usize,
    width: usize,
    h_offset: usize,
    cursor: usize,
    offset: usize,
) -> (r: Vec<String>)
    ensures
        r@.len() == 1 + shown_rows(rows@.len() as nat, height as nat, offset as nat),
        ({
            let widths = Seq::new(
                columns@.len(),
                |c: int| col_width(columns@[c], rows@, c, rows@.len() as int) as usize,
            );
            &&& r@[0]@ == header_line(columns@, widths, h_offset as nat, width as nat)
            &&& forall|j: int|
                1 <= j < r@.len() ==> #[trigger] r@[j]@ == data_line(
                    columns@,
                    rows@,
                    widths,
                    offset + j - 1,
                    h_offset as nat,
                    width as nat,
                    cursor as int,
                )
        }),
{
    let widths = column_widths(columns, rows);
    let ghost ws = Seq::new(
        columns@.len(),
        |c: int| col_width(columns@[c], rows@, c, rows@.len() as int) as usize,
    );
    assert(widths@ =~= ws);
    let mut titles: Vec<String> = Vec::new();
    let mut c: usize = 0;
    while c < columns.len()
        invariant
            c <= columns@.len(),
            titles@.len() == c,
            forall|j: int| 0 <= j < c ==> #[trigger] titles@[j]@ == columns@[j].title@,
        decreases columns@.len() - c,
    {
        titles.push(columns[c].title.clone());
        c = c + 1;
    }
    let header = format_row(&titles, &widths);
    assert(Seq::new(widths@.len(), |j: int| cell_at(titles@, j)) =~= Seq::new(
        ws.len(),
        |j: int| columns@[j].title@,
    ));
    let mut out: Vec<String> = Vec::new();
    out.push(crop(header.as_str(), h_offset, width));
    let shown: usize = if offset >= rows.len() {
        0
    } else if rows.len() - offset < height {
        rows.len() - offset
    } else {
        height
    };
    let mut j: usize = 0;
    while j < shown
        invariant
            j <= shown,
            shown == shown_rows(rows@.len() as nat, height as nat, offset as nat),
            shown == 0 || offset + shown <= rows.len(),
            widths@ == ws,
            out@.len() == 1 + j,
            out@[0]@ == header_line(columns@, ws, h_offset as nat, width as nat),
            forall|k: int|
                1 <= k < out@.len() ==> #[trigger] out@[k]@ == data_line(
                    columns@,
                    rows@,
                    ws,
                    offset + k - 1,
                    h_offset as nat,
                    width as nat,
                    cursor as int,
                ),
        decreases shown - j,
    {
        let i = offset + j;
        let line = format_row(&rows[i], &widths);
        let cut = crop(line.as_str(), h_offset, width);
        if i == cursor {
            let mut painted_line = String::new();
            push_painted(&mut painted_line, Color::Cyan, cut.as_str());
            assert(painted_line@ =~= painted(Color::Cyan.fg_code(), cut@));
            out.push(painted_line);
        } else {
            out.push(cut);
        }
        j = j + 1;
    }
    out
}

/// Widths of all columns of a table.
pub open spec fn spec_widths(columns: Seq<Column>, rows: Seq<Vec<String>>) -> Seq<usize> {
    Seq::new(columns.len(), |c: int| col_width(columns[c], rows, c, rows.len() as int) as usize)
}

/// Full width of a table's content, capped at `usize::MAX`.
pub open spec fn content_width(columns: Seq<Column>, rows: Seq<Vec<String>>) -> nat {
    let w = total_width(spec_widths(columns, rows), columns.len() as int);
    if w <= usize::MAX { w } else { usize::MAX as nat }
}

/// Full width of a table's content, capped at `usize::MAX`.
pub fn table_content_width(columns: &Vec<Column>, rows: &Vec<Vec<String>>) -> (r: usize)
    ensures
        r as nat == content_width(columns@, rows@),
{
    let widths = column_widths(columns, rows);
    assert(widths@ =~= spec_widths(columns@, rows@));
    table_width(&widths)
}

} // verus!
