//! Markdown tables drawn with box-drawing characters.
use vstd::prelude::*;

use crate::text::{chars_of, string_from_chars};
use ratatui::layout::{Constraint, Layout, Rect};
use unicode_width::{UnicodeWidthChar, UnicodeWidthStr};

verus! {

/// The alignment of a table column.
#[derive(Debug, Clone, Copy, PartialEq, Eq, Structural)]
pub enum Alignment {
    Unaligned,
    Left,
    Center,
    Right,
}

/// Accumulated data for a single table being built.
pub struct TableAccum {
    pub alignments: Vec<Alignment>,
    /// Cells of the header row.
    pub header_cells: Vec<String>,
    /// Body rows (each row is a list of cell strings).
    pub body_rows: Vec<Vec<String>>,
    /// Cells of the row currently being built.
    pub current_cells: Vec<String>,
    /// Text content being accumulated for the current cell.
    pub current_cell_buf: String,
    /// True while processing the header row.
    pub in_header: bool,
}

/// The cells of a row as plain values.
pub open spec fn cells_view(cells: Seq<String>) -> Seq<Seq<char>> {
    cells.map_values(|c: String| c@)
}

/// The body rows as plain values.
pub open spec fn rows_view(rows: Seq<Vec<String>>) -> Seq<Seq<Seq<char>>> {
    rows.map_values(|r: Vec<String>| cells_view(r@))
}

impl TableAccum {
    /// An empty table with the given column alignments.
    pub fn new(alignments: Vec<Alignment>) -> (r: Self)
        ensures
            r.alignments@ == alignments@,
            r.header_cells@.len() == 0,
            r.body_rows@.len() == 0,
            r.current_cells@.len() == 0,
            r.current_cell_buf@.len() == 0,
            !r.in_header,
    {
        TableAccum {
            alignments,
            header_cells: Vec::new(),
            body_rows: Vec::new(),
            current_cells: Vec::new(),
            current_cell_buf: String::new(),
            in_header: false,
        }
    }
}

impl Default for TableAccum {
    fn default() -> (r: Self)
        ensures
            r.alignments@.len() == 0,
            r.header_cells@.len() == 0,
            r.body_rows@.len() == 0,
            r.current_cells@.len() == 0,
            r.current_cell_buf@.len() == 0,
            !r.in_header,
    {
        Self::new(Vec::new())
    }
}

// ---------------------------------------------------------------------------
// Display widths
// ---------------------------------------------------------------------------

/// The number of terminal columns a string takes, as `unicode-width`
/// computes it.
pub uninterp spec fn display_width(s: Seq<char>) -> usize;

/// The number of terminal columns a character takes (`None` for a control
/// character), as `unicode-width` computes it.
pub uninterp spec fn char_width(c: char) -> Option<usize>;

/// `UnicodeWidthStr::width` from `unicode-width`. The contract names its
/// result (`display_width`) and states nothing more of it.
#[verifier::external_body]
fn str_width(s: &str) -> (r: usize)
    ensures
        r == display_width(s@),
{
    UnicodeWidthStr::width(s)
}

/// `UnicodeWidthChar::width` from `unicode-width`. The contract names its
/// result (`char_width`) and states nothing more of it.
#[verifier::external_body]
fn char_width_of(c: char) -> (r: Option<usize>)
    ensures
        r == char_width(c),
{
    UnicodeWidthChar::width(c)
}

fn chars_width(v: &Vec<char>) -> (r: usize)
    ensures
        r == display_width(v@),
{
    let s = string_from_chars(v);
    str_width(s.as_str())
}

// ---------------------------------------------------------------------------
// Natural column widths
// ---------------------------------------------------------------------------

/// The widest cell of column `j` among the first `n` rows (0 if none).
pub open spec fn col_max(rows: Seq<Seq<Seq<char>>>, j: int, n: int) -> int
    decreases n,
{
    if n <= 0 {
        0
    } else {
        let prev = col_max(rows, j, n - 1);
        let row = rows[n - 1];
        if 0 <= j < row.len() && display_width(row[j]) > prev {
            display_width(row[j]) as int
        } else {
            prev
        }
    }
}

/// The natural width of column `j`: the widest of its header and body cells,
/// and at least 3.
pub open spec fn natural_width(header: Seq<Seq<char>>, rows: Seq<Seq<Seq<char>>>, j: int) -> int {
    let h = display_width(header[j]) as int;
    let m = if col_max(rows, j, rows.len() as int) > h { col_max(rows, j, rows.len() as int) } else { h };
    if m > 3 { m } else { 3 }
}

/// Computes column widths from the natural (content-length) widths of a
/// table. Each column is at least 3 characters wide so that separator dashes
/// look reasonable.
pub fn compute_natural_col_widths(accum: &TableAccum) -> (r: Vec<usize>)
    ensures
        r@.len() == accum.header_cells@.len(),
        forall|j: int| 0 <= j < r@.len() ==> r@[j] as int == natural_width(
            cells_view(accum.header_cells@),
            rows_view(accum.body_rows@),
            j,
        ),
{
    let ncols = accum.header_cells.len();
    let ghost header = cells_view(accum.header_cells@);
    let ghost rows = rows_view(accum.body_rows@);
    let mut col_widths: Vec<usize> = Vec::new();
    let mut j: usize = 0;
    while j < ncols
        invariant
            ncols == accum.header_cells@.len(),
            header == cells_view(accum.header_cells@),
            j <= ncols,
            col_widths@.len() == j,
            forall|k: int| 0 <= k < j ==> col_widths@[k] == display_width(#[trigger] header[k]),
        decreases ncols - j,
    {
        col_widths.push(str_width(accum.header_cells[j].as_str()));
        j += 1;
    }
    let mut i: usize = 0;
    while i < accum.body_rows.len()
        invariant
            ncols == accum.header_cells@.len(),
            header == cells_view(accum.header_cells@),
            rows == rows_view(accum.body_rows@),
            i <= accum.body_rows@.len(),
            col_widths@.len() == ncols,
            forall|k: int| 0 <= k < ncols ==> {
                let h = display_width(#[trigger] header[k]) as int;
                let c = col_max(rows, k, i as int);
                col_widths@[k] as int == if c > h { c } else { h }
            },
        decreases accum.body_rows.len() - i,
    {
        let row = &accum.body_rows[i];
        assert(rows[i as int] == cells_view(row@));
        let mut k: usize = 0;
        while k < row.len()
            invariant
                ncols == accum.header_cells@.len(),
                header == cells_view(accum.header_cells@),
                rows == rows_view(accum.body_rows@),
                i < accum.body_rows@.len(),
                row == accum.body_rows@[i as int],
                rows[i as int] == cells_view(row@),
                k <= row@.len(),
                col_widths@.len() == ncols,
                forall|q: int| 0 <= q < ncols ==> {
                    let h = display_width(#[trigger] header[q]) as int;
                    let c = if q < k { col_max(rows, q, i + 1) } else { col_max(rows, q, i as int) };
                    col_widths@[q] as int == if c > h { c } else { h }
                },
            decreases row.len() - k,
        {
            if k < ncols {
                let w = str_width(row[k].as_str());
                if w > col_widths[k] {
                    col_widths.set(k, w);
                }
            }
            k += 1;
        }
        assert forall|q: int| 0 <= q < ncols implies {
            let h = display_width(#[trigger] header[q]) as int;
            let c = col_max(rows, q, i + 1);
            col_widths@[q] as int == if c > h { c } else { h }
        } by {
            if q >= row@.len() {
                assert(col_max(rows, q, i + 1) == col_max(rows, q, i as int));
            }
        }
        i += 1;
    }
    let mut j: usize = 0;
    while j < ncols
        invariant
            ncols == accum.header_cells@.len(),
            header == cells_view(accum.header_cells@),
            rows == rows_view(accum.body_rows@),
            rows.len() == accum.body_rows@.len(),
            j <= ncols,
            col_widths@.len() == ncols,
            forall|k: int| 0 <= k < ncols ==> {
                let h = display_width(#[trigger] header[k]) as int;
                let c = col_max(rows, k, rows.len() as int);
                let m = if c > h { c } else { h };
                col_widths@[k] as int == if k < j { if m > 3 { m } else { 3 } } else { m }
            },
        decreases ncols - j,
    {
        if col_widths[j] < 3 {
            col_widths.set(j, 3);
        }
        j += 1;
    }
    col_widths
}

proof fn lemma_col_max_covers(rows: Seq<Seq<Seq<char>>>, j: int, n: int, i: int)
    requires
        0 <= i < n <= rows.len(),
        0 <= j < rows[i].len(),
    ensures
        col_max(rows, j, n) >= display_width(rows[i][j]),
    decreases n,
{
    if i < n - 1 {
        lemma_col_max_covers(rows, j, n - 1, i);
    }
}

/// Every column is at least 3 columns wide and wide enough for its header
/// and for each of its body cells.
pub proof fn law_natural_width_fits_cells(header: Seq<Seq<char>>, rows: Seq<Seq<Seq<char>>>, j: int, i: int)
    requires
        0 <= j < header.len(),
    ensures
        natural_width(header, rows, j) >= 3,
        natural_width(header, rows, j) >= display_width(header[j]),
        0 <= i < rows.len() && j < rows[i].len() ==> natural_width(header, rows, j) >= display_width(rows[i][j]),
{
    if 0 <= i < rows.len() && j < rows[i].len() {
        lemma_col_max_covers(rows, j, rows.len() as int, i);
    }
}

proof fn lemma_col_max_attained(rows: Seq<Seq<Seq<char>>>, j: int, n: int)
    requires
        0 <= n <= rows.len(),
    ensures
        col_max(rows, j, n) == 0 || exists|i: int|
            0 <= i < n && 0 <= j < rows[i].len() && #[trigger] display_width(rows[i][j]) == col_max(rows, j, n),
    decreases n,
{
    if n > 0 {
        lemma_col_max_attained(rows, j, n - 1);
    }
}

/// Every column is exactly as wide as it needs to be: its width is 3, or
/// the display width of its header, or that of one of its body cells (the
/// widest of them, by `law_natural_width_fits_cells`).
pub proof fn law_natural_width_is_attained(header: Seq<Seq<char>>, rows: Seq<Seq<Seq<char>>>, j: int)
    requires
        0 <= j < header.len(),
    ensures
        natural_width(header, rows, j) == 3 || natural_width(header, rows, j) == display_width(header[j])
            || exists|i: int|
            0 <= i < rows.len() && j < rows[i].len() && #[trigger] display_width(rows[i][j]) == natural_width(
                header,
                rows,
                j,
            ),
{
    lemma_col_max_attained(rows, j, rows.len() as int);
}

// ---------------------------------------------------------------------------
// Wrapping cells
// ---------------------------------------------------------------------------

/// The columns a character takes while wrapping (a control character, none).
pub open spec fn cw(c: char) -> int {
    match char_width(c) {
        Some(w) => w as int,
        None => 0,
    }
}

/// Wrapping `cs[i..]` into rows at most `width` columns wide, after the
/// finished rows `done` and the row `cur` (`cur_w` columns) being filled: a
/// character goes on the current row if it fits, else it starts a new row (a
/// character wider than `width` gets a row of its own).
pub open spec fn wrap_from(cs: Seq<char>, width: int, i: int, done: Seq<Seq<char>>, cur: Seq<char>, cur_w: int) -> Seq<Seq<char>>
    decreases cs.len() - i,
{
    if i < 0 || i >= cs.len() {
        done.push(cur)
    } else if cur.len() > 0 && cur_w + cw(cs[i]) > width {
        wrap_from(cs, width, i + 1, done.push(cur), seq![cs[i]], cw(cs[i]))
    } else {
        wrap_from(cs, width, i + 1, done, cur.push(cs[i]), cur_w + cw(cs[i]))
    }
}

/// The display rows of a cell wrapped to `width` columns: a cell whose
/// display width fits stays whole; a wider one is wrapped character by
/// character; a cell in a column of width 0 is one empty row.
pub open spec fn wrap_cell_spec(cell: Seq<char>, width: int) -> Seq<Seq<char>> {
    if width <= 0 {
        seq![seq![]]
    } else if display_width(cell) <= width {
        seq![cell]
    } else {
        wrap_from(cell, width, 0, seq![], seq![], 0)
    }
}

/// The columns the characters of `row` take together.
pub open spec fn cols(row: Seq<char>) -> int
    decreases row.len(),
{
    if row.len() == 0 {
        0
    } else {
        cols(row.drop_last()) + cw(row.last())
    }
}

/// A wrapped row fits in `width` columns (by its display width, or by the
/// widths of its characters), or holds a single character that is too wide
/// on its own.
pub open spec fn row_fits(row: Seq<char>, width: int) -> bool {
    display_width(row) <= width || cols(row) <= width || row.len() == 1
}

proof fn lemma_wrap_from(cs: Seq<char>, width: int, i: int, done: Seq<Seq<char>>, cur: Seq<char>, cur_w: int)
    requires
        0 <= i <= cs.len(),
        cur_w == cols(cur),
        row_fits(cur, width),
        forall|k: int| 0 <= k < done.len() ==> row_fits(#[trigger] done[k], width) && done[k].len() > 0,
        i > 0 ==> cur.len() > 0,
    ensures
        wrap_from(cs, width, i, done, cur, cur_w).flatten() == done.flatten() + cur + cs.subrange(i, cs.len() as int),
        forall|k: int| 0 <= k < wrap_from(cs, width, i, done, cur, cur_w).len() ==> row_fits(
            #[trigger] wrap_from(cs, width, i, done, cur, cur_w)[k],
            width,
        ),
        cs.len() > 0 ==> forall|k: int| 0 <= k < wrap_from(cs, width, i, done, cur, cur_w).len() ==> (
            #[trigger] wrap_from(cs, width, i, done, cur, cur_w)[k]).len() > 0,
    decreases cs.len() - i,
{
    broadcast use Seq::lemma_flatten_push;

    if i >= cs.len() {
        assert(cs.subrange(i, cs.len() as int) =~= Seq::<char>::empty());
        assert(done.push(cur).flatten() =~= done.flatten() + cur);
        assert(done.flatten() + cur + cs.subrange(i, cs.len() as int) =~= done.flatten() + cur);
        assert forall|k: int| 0 <= k < done.push(cur).len() implies row_fits(#[trigger] done.push(cur)[k], width) by {
            if k < done.len() {
                assert(done.push(cur)[k] == done[k]);
            }
        }
    } else {
        let c = cs[i];
        assert(cs.subrange(i, cs.len() as int) =~= seq![c] + cs.subrange(i + 1, cs.len() as int));
        if cur.len() > 0 && cur_w + cw(c) > width {
            let done2 = done.push(cur);
            assert(seq![c].drop_last() =~= Seq::<char>::empty());
            assert(cols(Seq::<char>::empty()) == 0);
            assert(seq![c].last() == c);
            assert(cols(seq![c]) == cw(c));
            assert forall|k: int| 0 <= k < done2.len() implies row_fits(#[trigger] done2[k], width) && done2[k].len() > 0 by {
                if k < done.len() {
                    assert(done2[k] == done[k]);
                }
            }
            lemma_wrap_from(cs, width, i + 1, done2, seq![c], cw(c));
            assert(done2.flatten() =~= done.flatten() + cur);
            assert(done.flatten() + cur + seq![c] + cs.subrange(i + 1, cs.len() as int) =~= done.flatten() + cur
                + cs.subrange(i, cs.len() as int));
        } else {
            let cur2 = cur.push(c);
            assert(cur2.drop_last() =~= cur);
            assert(cols(cur2) == cur_w + cw(c));
            lemma_wrap_from(cs, width, i + 1, done, cur2, cur_w + cw(c));
            assert(done.flatten() + cur2 + cs.subrange(i + 1, cs.len() as int) =~= done.flatten() + cur
                + cs.subrange(i, cs.len() as int));
        }
    }
}

/// Wrapping a cell to a positive width keeps its text: the rows, joined,
/// give the cell back. Each row fits in the width unless it is a single
/// character too wide on its own, and no row is empty unless the cell is.
pub proof fn law_wrap_keeps_text_and_fits(cell: Seq<char>, width: int)
    requires
        width > 0,
    ensures
        wrap_cell_spec(cell, width).flatten() == cell,
        forall|k: int| 0 <= k < wrap_cell_spec(cell, width).len() ==> row_fits(#[trigger] wrap_cell_spec(cell, width)[k], width),
        cell.len() > 0 ==> forall|k: int| 0 <= k < wrap_cell_spec(cell, width).len() ==> (
            #[trigger] wrap_cell_spec(cell, width)[k]).len() > 0,
{
    if display_width(cell) <= width {
        assert(seq![cell].flatten() == cell) by {
            broadcast use Seq::lemma_flatten_singleton;
        }
    } else {
        lemma_wrap_from(cell, width, 0, seq![], seq![], 0);
        assert(Seq::<Seq<char>>::empty().flatten() =~= Seq::<char>::empty());
        assert(Seq::<char>::empty() + Seq::<char>::empty() + cell.subrange(0, cell.len() as int) =~= cell);
    }
}

fn wrap_chars(cs: &Vec<char>, width: usize) -> (r: Vec<Vec<char>>)
    ensures
        r@.map_values(|v: Vec<char>| v@) == wrap_cell_spec(cs@, width as int),
{
    let mut rows: Vec<Vec<char>> = Vec::new();
    if width == 0 {
        rows.push(Vec::new());
        assert(rows@.map_values(|v: Vec<char>| v@) =~= seq![Seq::<char>::empty()]);
        return rows;
    }
    if chars_width(cs) <= width {
        rows.push(copy_chars(cs));
        assert(rows@.map_values(|v: Vec<char>| v@) =~= seq![cs@]);
        return rows;
    }
    let mut cur: Vec<char> = Vec::new();
    let mut cur_w: usize = 0;
    let mut i: usize = 0;
    assert(rows@.map_values(|v: Vec<char>| v@) =~= Seq::<Seq<char>>::empty());
    while i < cs.len()
        invariant
            width > 0,
            i <= cs@.len(),
            cur@.len() == 0 ==> cur_w == 0,
            wrap_cell_spec(cs@, width as int) == wrap_from(cs@, width as int, i as int, rows@.map_values(|v: Vec<char>| v@), cur@, cur_w as int),
        decreases cs.len() - i,
    {
        let c = cs[i];
        let w: usize = match char_width_of(c) {
            Some(w) => w,
            None => 0,
        };
        let ghost done = rows@.map_values(|v: Vec<char>| v@);
        if cur.len() > 0 && (cur_w as u128) + (w as u128) > (width as u128) {
            let finished = cur;
            let ghost fv = finished@;
            rows.push(finished);
            assert(rows@.map_values(|v: Vec<char>| v@) =~= done.push(fv));
            cur = Vec::new();
            cur.push(c);
            cur_w = w;
        } else {
            cur.push(c);
            cur_w = cur_w + w;
        }
        i += 1;
    }
    let ghost done = rows@.map_values(|v: Vec<char>| v@);
    let ghost cv = cur@;
    rows.push(cur);
    assert(rows@.map_values(|v: Vec<char>| v@) =~= done.push(cv));
    rows
}

/// Wraps a cell string to fit within `col_width` terminal columns.
/// Returns one string per wrapped display row.
pub fn wrap_cell(cell: &str, col_width: usize) -> (r: Vec<String>)
    ensures
        r@.map_values(|s: String| s@) == wrap_cell_spec(cell@, col_width as int),
{
    let rows = wrap_chars(&chars_of(cell), col_width);
    let mut out: Vec<String> = Vec::new();
    let mut i: usize = 0;
    while i < rows.len()
        invariant
            i <= rows@.len(),
            out@.len() == i,
            forall|k: int| 0 <= k < i ==> #[trigger] out@[k]@ == rows@[k]@,
        decreases rows.len() - i,
    {
        out.push(string_from_chars(&rows[i]));
        i += 1;
    }
    assert(out@.map_values(|s: String| s@) =~= rows@.map_values(|v: Vec<char>| v@));
    out
}

// ---------------------------------------------------------------------------
// Rendering
// ---------------------------------------------------------------------------

/// Options for table rendering.
#[derive(Debug, Clone, Copy, PartialEq, Eq, Structural)]
pub struct TableOptions {
    /// When `true`, a horizontal divider line is rendered between every pair
    /// of body rows (in addition to the header separator).
    pub row_dividers: bool,
}

impl Default for TableOptions {
    fn default() -> (r: Self)
        ensures
            !r.row_dividers,
    {
        TableOptions { row_dividers: false }
    }
}

/// A run of text in a rendered line, bold or plain.
#[derive(Debug, Clone)]
pub struct TableSpan {
    pub text: String,
    pub bold: bool,
}

/// A rendered line: its spans, left to right.
pub type TableLine = Vec<TableSpan>;

/// A span as plain values.
pub type SpanV = (Seq<char>, bool);

/// A line as plain values.
pub type LineV = Seq<SpanV>;

pub open spec fn span_view(s: TableSpan) -> SpanV {
    (s.text@, s.bold)
}

pub open spec fn line_view(l: Seq<TableSpan>) -> LineV {
    l.map_values(|s: TableSpan| span_view(s))
}

pub open spec fn lines_view(ls: Seq<TableLine>) -> Seq<LineV> {
    ls.map_values(|l: TableLine| line_view(l@))
}

/// `n` copies of `c`.
pub open spec fn rep(c: char, n: int) -> Seq<char> {
    Seq::new(if n > 0 { n as nat } else { 0 }, |_i: int| c)
}

pub open spec fn plain(s: Seq<char>) -> SpanV {
    (s, false)
}

/// The width of column `j`: its entry of `widths`, or 0 past the end.
pub open spec fn width_at(widths: Seq<usize>, j: int) -> int {
    if 0 <= j < widths.len() { widths[j] as int } else { 0 }
}

/// `a - b`, or 0 when `b` is larger.
pub open spec fn sat_sub(a: int, b: int) -> int {
    if a > b { a - b } else { 0 }
}

/// The spans of the first `n` columns of a rule: each column's width in
/// horizontal lines, with `mid` between columns.
pub open spec fn rule_spans(widths: Seq<usize>, mid: Seq<char>, n: int) -> Seq<SpanV>
    decreases n,
{
    if n <= 0 {
        seq![]
    } else {
        rule_spans(widths, mid, n - 1) + seq![plain(rep('─', width_at(widths, n - 1)))] + (if n < widths.len() {
            seq![plain(mid)]
        } else {
            seq![]
        })
    }
}

/// A horizontal rule across all columns, between `left` and `right`.
pub open spec fn rule_line(widths: Seq<usize>, left: Seq<char>, mid: Seq<char>, right: Seq<char>) -> LineV {
    seq![plain(left)] + rule_spans(widths, mid, widths.len() as int) + seq![plain(right)]
}

/// The alignment of column `j`, if given.
pub open spec fn align_at(aligns: Seq<Alignment>, j: int) -> Option<Alignment> {
    if 0 <= j < aligns.len() { Some(aligns[j]) } else { None }
}

/// The header separator of a column of width `w`: colons mark the
/// alignment, as in Markdown.
pub open spec fn sep_dashes(a: Option<Alignment>, w: int) -> Seq<char> {
    match a {
        Some(Alignment::Center) => seq![':'] + rep('─', sat_sub(w, 2)) + seq![':'],
        Some(Alignment::Right) => rep('─', sat_sub(w, 1)) + seq![':'],
        Some(Alignment::Left) => seq![':'] + rep('─', sat_sub(w, 1)),
        _ => rep('─', w),
    }
}

/// The spans of the first `n` columns of the header separator.
pub open spec fn sep_spans(widths: Seq<usize>, aligns: Seq<Alignment>, n: int) -> Seq<SpanV>
    decreases n,
{
    if n <= 0 {
        seq![]
    } else {
        sep_spans(widths, aligns, n - 1) + seq![plain(sep_dashes(align_at(aligns, n - 1), width_at(widths, n - 1)))]
            + (if n < widths.len() {
            seq![plain("─┼─"@)]
        } else {
            seq![]
        })
    }
}

/// The line between the header and the body.
pub open spec fn separator_line(widths: Seq<usize>, aligns: Seq<Alignment>) -> LineV {
    seq![plain("├─"@)] + sep_spans(widths, aligns, widths.len() as int) + seq![plain("─┤"@)]
}

/// A cell padded to `width` columns: centred (the odd column on the right)
/// or left-aligned.
pub open spec fn padded_cell(cell: Seq<char>, width: int, center: bool) -> Seq<char> {
    let p = sat_sub(width, display_width(cell) as int);
    if center {
        rep(' ', p / 2) + cell + rep(' ', p - p / 2)
    } else {
        cell + rep(' ', p)
    }
}

/// The spans of the first `n` cells of a row, each followed by ` │ `.
pub open spec fn row_body(cells: Seq<Seq<char>>, widths: Seq<usize>, bold: bool, center: bool, n: int) -> Seq<SpanV>
    decreases n,
{
    if n <= 0 {
        seq![]
    } else {
        row_body(cells, widths, bold, center, n - 1) + seq![
            (padded_cell(cells[n - 1], width_at(widths, n - 1), center), bold),
            plain(" │ "@),
        ]
    }
}

/// A table row: `│ `, the padded cells separated by ` │ `, and ` │`.
pub open spec fn row_line(cells: Seq<Seq<char>>, widths: Seq<usize>, bold: bool, center: bool) -> LineV {
    if cells.len() == 0 {
        seq![plain("│ "@)]
    } else {
        (seq![plain("│ "@)] + row_body(cells, widths, bold, center, cells.len() as int)).drop_last().push(plain(" │"@))
    }
}

/// The cells of a row, each wrapped to its column.
pub open spec fn wrapped_cells(cells: Seq<Seq<char>>, widths: Seq<usize>) -> Seq<Seq<Seq<char>>> {
    Seq::new(cells.len(), |j: int| wrap_cell_spec(cells[j], width_at(widths, j)))
}

/// The most display rows among the first `n` wrapped cells.
pub open spec fn max_rows(ws: Seq<Seq<Seq<char>>>, n: int) -> int
    decreases n,
{
    if n <= 0 {
        0
    } else if ws[n - 1].len() > max_rows(ws, n - 1) {
        ws[n - 1].len() as int
    } else {
        max_rows(ws, n - 1)
    }
}

/// How many display lines a row takes: the most rows of any wrapped cell,
/// or 1 for a row without cells.
pub open spec fn line_count(ws: Seq<Seq<Seq<char>>>) -> int {
    if ws.len() == 0 { 1 } else { max_rows(ws, ws.len() as int) }
}

/// What column `j` shows on display line `li` of a row: that row of the
/// wrapped cell, or nothing. The row itself pads it to the column's display
/// width (`padded_cell`).
pub open spec fn line_cell(ws: Seq<Seq<Seq<char>>>, j: int, li: int) -> Seq<char> {
    if j < ws.len() && li < ws[j].len() { ws[j][li] } else { seq![] }
}

/// A table row wrapped over display lines: bold and centring apply to the
/// first line only.
pub open spec fn multiline_row(cells: Seq<Seq<char>>, widths: Seq<usize>, ncols: int, bold: bool, center: bool) -> Seq<LineV> {
    let ws = wrapped_cells(cells, widths);
    Seq::new(
        line_count(ws) as nat,
        |li: int| row_line(
            Seq::new(ncols as nat, |j: int| line_cell(ws, j, li)),
            widths,
            bold && li == 0,
            center && li == 0,
        ),
    )
}

/// A body row with empty cells added up to `ncols`.
pub open spec fn pad_row(row: Seq<Seq<char>>, ncols: int) -> Seq<Seq<char>> {
    if row.len() < ncols { row + Seq::new((ncols - row.len()) as nat, |_i: int| Seq::<char>::empty()) } else { row }
}

/// The display lines of the first `n` body rows, with dividers between rows
/// when asked for.
pub open spec fn body_lines(rows: Seq<Seq<Seq<char>>>, widths: Seq<usize>, ncols: int, dividers: bool, n: int) -> Seq<LineV>
    decreases n,
{
    if n <= 0 {
        seq![]
    } else {
        body_lines(rows, widths, ncols, dividers, n - 1) + multiline_row(pad_row(rows[n - 1], ncols), widths, ncols, false, false)
            + (if dividers && n < rows.len() {
            seq![rule_line(widths, "├─"@, "─┼─"@, "─┤"@)]
        } else {
            seq![]
        })
    }
}

/// The rendered table: top border, the header (bold, centred), the
/// separator, the body rows and the bottom border; nothing for a table
/// without header cells.
pub open spec fn spec_render_table(
    header: Seq<Seq<char>>,
    rows: Seq<Seq<Seq<char>>>,
    aligns: Seq<Alignment>,
    widths: Seq<usize>,
    dividers: bool,
) -> Seq<LineV> {
    let ncols = header.len() as int;
    if ncols == 0 {
        seq![]
    } else {
        seq![rule_line(widths, "╭─"@, "─┬─"@, "─╮"@)] + multiline_row(header, widths, ncols, true, true) + seq![
            separator_line(widths, aligns),
        ] + body_lines(rows, widths, ncols, dividers, rows.len() as int) + seq![
            rule_line(widths, "╰─"@, "─┴─"@, "─╯"@),
        ]
    }
}

proof fn lemma_sep_spans(widths: Seq<usize>, aligns: Seq<Alignment>, n: int)
    requires
        0 <= n <= widths.len(),
    ensures
        sep_spans(widths, aligns, n).len() == (if n == widths.len() && n > 0 { 2 * n - 1 } else { 2 * n }),
        forall|j: int|
            0 <= j < n ==> #[trigger] sep_spans(widths, aligns, n)[2 * j] == plain(
                sep_dashes(align_at(aligns, j), width_at(widths, j)),
            ),
    decreases n,
{
    if n > 0 {
        lemma_sep_spans(widths, aligns, n - 1);
        let prev = sep_spans(widths, aligns, n - 1);
        assert forall|j: int| 0 <= j < n implies #[trigger] sep_spans(widths, aligns, n)[2 * j] == plain(
            sep_dashes(align_at(aligns, j), width_at(widths, j)),
        ) by {
            if j < n - 1 {
                assert(sep_spans(widths, aligns, n)[2 * j] == prev[2 * j]);
            }
        }
    }
}

/// In the rendered header separator, the cell of column `j` is made of the
/// column's width in horizontal lines, with colons only to mark an
/// alignment: a column without one (or without an entry in `aligns`) is
/// plain lines; a left-aligned one starts with a colon, a right-aligned one
/// ends with one, and a centred one has one at each end.
pub proof fn law_separator_marks_alignment(
    header: Seq<Seq<char>>,
    rows: Seq<Seq<Seq<char>>>,
    aligns: Seq<Alignment>,
    widths: Seq<usize>,
    dividers: bool,
    j: int,
)
    requires
        header.len() > 0,
        0 <= j < widths.len(),
    ensures
        ({
            let lines = spec_render_table(header, rows, aligns, widths, dividers);
            let sep = lines[1 + multiline_row(header, widths, header.len() as int, true, true).len() as int];
            let cell = sep[1 + 2 * j];
            &&& !cell.1
            &&& (j >= aligns.len() || aligns[j] == Alignment::Unaligned) ==> cell.0.len() == widths[j] && forall|k: int|
                0 <= k < cell.0.len() ==> cell.0[k] == '─'
            &&& (j < aligns.len() && aligns[j] != Alignment::Unaligned) ==> cell.0.len() >= 1 && cell.0.contains(':')
            &&& (j < aligns.len() && aligns[j] == Alignment::Left) ==> cell.0[0] == ':' && forall|k: int|
                1 <= k < cell.0.len() ==> cell.0[k] == '─'
            &&& (j < aligns.len() && aligns[j] == Alignment::Right) ==> cell.0.last() == ':' && forall|k: int|
                0 <= k < cell.0.len() - 1 ==> cell.0[k] == '─'
            &&& (j < aligns.len() && aligns[j] == Alignment::Center) ==> cell.0[0] == ':' && cell.0.last() == ':'
        }),
{
    lemma_sep_spans(widths, aligns, widths.len() as int);
    let lines = spec_render_table(header, rows, aligns, widths, dividers);
    let m = multiline_row(header, widths, header.len() as int, true, true);
    assert(lines[1 + m.len() as int] == separator_line(widths, aligns));
    let sep = separator_line(widths, aligns);
    assert(sep[1 + 2 * j] == sep_spans(widths, aligns, widths.len() as int)[2 * j]);
    let cell = sep[1 + 2 * j].0;
    if j < aligns.len() && aligns[j] != Alignment::Unaligned {
        if aligns[j] == Alignment::Left || aligns[j] == Alignment::Center {
            assert(cell[0] == ':');
        } else {
            assert(cell[cell.len() - 1] == ':');
        }
    }
}

proof fn lemma_rule_spans(widths: Seq<usize>, mid: Seq<char>, n: int)
    requires
        0 <= n <= widths.len(),
    ensures
        rule_spans(widths, mid, n).len() == (if n == widths.len() && n > 0 { 2 * n - 1 } else { 2 * n }),
        forall|j: int| 0 <= j < n ==> #[trigger] rule_spans(widths, mid, n)[2 * j] == plain(rep('─', width_at(widths, j))),
        forall|j: int| 0 <= j < n && 2 * j + 1 < rule_spans(widths, mid, n).len() ==> #[trigger] rule_spans(
            widths,
            mid,
            n,
        )[2 * j + 1] == plain(mid),
    decreases n,
{
    if n > 0 {
        lemma_rule_spans(widths, mid, n - 1);
        let prev = rule_spans(widths, mid, n - 1);
        let cur = rule_spans(widths, mid, n);
        assert forall|j: int| 0 <= j < n implies #[trigger] cur[2 * j] == plain(rep('─', width_at(widths, j))) by {
            if j < n - 1 {
                assert(cur[2 * j] == prev[2 * j]);
            }
        }
        assert forall|j: int| 0 <= j < n && 2 * j + 1 < cur.len() implies #[trigger] cur[2 * j + 1] == plain(mid) by {
            if j < n - 1 {
                assert(cur[2 * j + 1] == prev[2 * j + 1]);
            }
        }
    }
}

/// A rendered table is framed: the top border runs from `╭─` to `─╮` with
/// `─┬─` between columns, the bottom border from `╰─` to `─╯` with `─┴─`
/// between columns, and in both each column is its width in horizontal
/// lines. A table without header cells renders nothing.
pub proof fn law_table_borders(
    header: Seq<Seq<char>>,
    rows: Seq<Seq<Seq<char>>>,
    aligns: Seq<Alignment>,
    widths: Seq<usize>,
    dividers: bool,
    j: int,
)
    requires
        0 <= j < widths.len(),
    ensures
        header.len() == 0 ==> spec_render_table(header, rows, aligns, widths, dividers).len() == 0,
        header.len() > 0 ==> {
            let lines = spec_render_table(header, rows, aligns, widths, dividers);
            let top = lines[0];
            let bottom = lines.last();
            &&& top.len() == 2 * widths.len() + 1 && bottom.len() == 2 * widths.len() + 1
            &&& top[0] == plain("╭─"@) && top.last() == plain("─╮"@)
            &&& bottom[0] == plain("╰─"@) && bottom.last() == plain("─╯"@)
            &&& top[1 + 2 * j] == plain(rep('─', widths[j] as int))
            &&& bottom[1 + 2 * j] == plain(rep('─', widths[j] as int))
            &&& j + 1 < widths.len() ==> top[2 + 2 * j] == plain("─┬─"@) && bottom[2 + 2 * j] == plain("─┴─"@)
        },
{
    lemma_rule_spans(widths, "─┬─"@, widths.len() as int);
    lemma_rule_spans(widths, "─┴─"@, widths.len() as int);
    if header.len() > 0 {
        let lines = spec_render_table(header, rows, aligns, widths, dividers);
        let top = rule_line(widths, "╭─"@, "─┬─"@, "─╮"@);
        let bottom = rule_line(widths, "╰─"@, "─┴─"@, "─╯"@);
        assert(lines[0] == top);
        assert(lines.last() == bottom);
        assert(top[1 + 2 * j] == rule_spans(widths, "─┬─"@, widths.len() as int)[2 * j]);
        assert(bottom[1 + 2 * j] == rule_spans(widths, "─┴─"@, widths.len() as int)[2 * j]);
        if j + 1 < widths.len() {
            assert(top[2 + 2 * j] == rule_spans(widths, "─┬─"@, widths.len() as int)[2 * j + 1]);
            assert(bottom[2 + 2 * j] == rule_spans(widths, "─┴─"@, widths.len() as int)[2 * j + 1]);
        }
    }
}

/// Padding a cell to its column: the padding is what the column's width
/// leaves of the cell's display width (none when the cell is wider). A
/// left-aligned cell gets it all on the right; a centred cell gets half of
/// it on each side, the odd column on the right.
pub proof fn law_padded_cell(cell: Seq<char>, width: int)
    ensures
        ({
            let p = if width > display_width(cell) { width - display_width(cell) } else { 0 };
            let c = padded_cell(cell, width, true);
            let l = p / 2;
            &&& padded_cell(cell, width, false) == cell + Seq::new(p as nat, |_i: int| ' ')
            &&& c.len() == cell.len() + p
            &&& l <= p - l <= l + 1
            &&& forall|k: int| 0 <= k < l ==> c[k] == ' '
            &&& c.subrange(l, l + cell.len()) == cell
            &&& forall|k: int| l + cell.len() <= k < c.len() ==> c[k] == ' '
        }),
{
    let p = if width > display_width(cell) { width - display_width(cell) } else { 0 };
    let c = padded_cell(cell, width, true);
    let l = p / 2;
    assert(padded_cell(cell, width, false) =~= cell + Seq::new(p as nat, |_i: int| ' '));
    assert(c.subrange(l, l + cell.len()) =~= cell);
}

/// Every cell of `cells` fits its column by display width.
pub open spec fn cells_fit(cells: Seq<Seq<char>>, widths: Seq<usize>) -> bool {
    forall|j: int| 0 <= j < cells.len() ==> display_width(#[trigger] cells[j]) <= width_at(widths, j)
}

proof fn lemma_max_rows_one(ws: Seq<Seq<Seq<char>>>, n: int)
    requires
        1 <= n <= ws.len(),
        forall|k: int| 0 <= k < ws.len() ==> (#[trigger] ws[k]).len() == 1,
    ensures
        max_rows(ws, n) == 1,
    decreases n,
{
    if n > 1 {
        lemma_max_rows_one(ws, n - 1);
    } else {
        assert(max_rows(ws, 0) == 0);
    }
    assert(ws[n - 1].len() == 1);
}

proof fn lemma_fitting_row_is_one_line(cells: Seq<Seq<char>>, widths: Seq<usize>, bold: bool, center: bool)
    requires
        cells.len() > 0,
        cells_fit(cells, widths),
    ensures
        multiline_row(cells, widths, cells.len() as int, bold, center).len() == 1,
{
    let ws = wrapped_cells(cells, widths);
    assert forall|k: int| 0 <= k < ws.len() implies (#[trigger] ws[k]).len() == 1 by {
        assert(display_width(cells[k]) <= width_at(widths, k));
    }
    lemma_max_rows_one(ws, ws.len() as int);
}

proof fn lemma_body_lines_len(rows: Seq<Seq<Seq<char>>>, widths: Seq<usize>, ncols: int, dividers: bool, n: int)
    requires
        ncols > 0,
        0 <= n <= rows.len(),
        forall|i: int| 0 <= i < rows.len() ==> (#[trigger] rows[i]).len() == ncols && cells_fit(rows[i], widths),
    ensures
        body_lines(rows, widths, ncols, dividers, n).len() == n + (if dividers {
            if n < rows.len() { n } else if n > 0 { n - 1 } else { 0 }
        } else {
            0
        }),
    decreases n,
{
    if n > 0 {
        lemma_body_lines_len(rows, widths, ncols, dividers, n - 1);
        let row = rows[n - 1];
        assert(pad_row(row, ncols) == row);
        lemma_fitting_row_is_one_line(row, widths, false, false);
    }
}

/// A table whose cells all fit their columns takes one display line per
/// row: the top border, the header, the separator, each body row, a divider
/// between body rows when asked for, and the bottom border.
pub proof fn law_fitting_table_line_count(
    header: Seq<Seq<char>>,
    rows: Seq<Seq<Seq<char>>>,
    aligns: Seq<Alignment>,
    widths: Seq<usize>,
    dividers: bool,
)
    requires
        header.len() > 0,
        cells_fit(header, widths),
        forall|i: int| 0 <= i < rows.len() ==> (#[trigger] rows[i]).len() == header.len() && cells_fit(rows[i], widths),
    ensures
        spec_render_table(header, rows, aligns, widths, dividers).len() == rows.len() + 4 + (if dividers
            && rows.len() > 0 {
            rows.len() - 1
        } else {
            0
        }),
{
    lemma_fitting_row_is_one_line(header, widths, true, true);
    lemma_body_lines_len(rows, widths, header.len() as int, dividers, rows.len() as int);
}

proof fn lemma_row_body(cells: Seq<Seq<char>>, widths: Seq<usize>, bold: bool, center: bool, n: int)
    requires
        0 <= n <= cells.len(),
    ensures
        row_body(cells, widths, bold, center, n).len() == 2 * n,
        forall|j: int| 0 <= j < n ==> #[trigger] row_body(cells, widths, bold, center, n)[2 * j] == (
            padded_cell(cells[j], width_at(widths, j), center),
            bold,
        ),
        forall|j: int| 0 <= j < n ==> #[trigger] row_body(cells, widths, bold, center, n)[2 * j + 1] == plain(
            " │ "@,
        ),
    decreases n,
{
    if n > 0 {
        lemma_row_body(cells, widths, bold, center, n - 1);
        let prev = row_body(cells, widths, bold, center, n - 1);
        let cur = row_body(cells, widths, bold, center, n);
        assert forall|j: int| 0 <= j < n implies #[trigger] cur[2 * j] == (
            padded_cell(cells[j], width_at(widths, j), center),
            bold,
        ) by {
            if j < n - 1 {
                assert(cur[2 * j] == prev[2 * j]);
            }
        }
        assert forall|j: int| 0 <= j < n implies #[trigger] cur[2 * j + 1] == plain(" │ "@) by {
            if j < n - 1 {
                assert(cur[2 * j + 1] == prev[2 * j + 1]);
            }
        }
    }
}

proof fn lemma_fitting_row_line(cells: Seq<Seq<char>>, widths: Seq<usize>, bold: bool, center: bool, j: int)
    requires
        cells.len() > 0,
        cells_fit(cells, widths),
        0 <= j < cells.len(),
        width_at(widths, j) > 0,
    ensures
        ({
            let m = multiline_row(cells, widths, cells.len() as int, bold, center);
            &&& m.len() == 1
            &&& m[0].len() == 2 * cells.len() + 1
            &&& m[0][0] == plain("│ "@)
            &&& m[0].last() == plain(" │"@)
            &&& m[0][1 + 2 * j] == (padded_cell(cells[j], width_at(widths, j), center), bold)
            &&& j + 1 < cells.len() ==> m[0][2 + 2 * j] == plain(" │ "@)
        }),
{
    lemma_fitting_row_is_one_line(cells, widths, bold, center);
    let n = cells.len() as int;
    let ws = wrapped_cells(cells, widths);
    let first = Seq::new(n as nat, |k: int| line_cell(ws, k, 0));
    assert(display_width(cells[j]) <= width_at(widths, j));
    assert(ws[j] == seq![cells[j]]);
    assert(first[j] == cells[j]);
    lemma_row_body(first, widths, bold && 0 == 0, center && 0 == 0, n);
    let m = multiline_row(cells, widths, n, bold, center);
    assert(m[0] == row_line(first, widths, bold, center));
    let rb = row_body(first, widths, bold, center, n);
    assert(m[0][1 + 2 * j] == rb[2 * j]);
    if j + 1 < n {
        assert(m[0][2 + 2 * j] == rb[2 * j + 1]);
    }
}

/// The header row of a table whose header fits its columns is one line
/// right below the top border: `│ `, then each header cell in bold, centred
/// in its column, separated by ` │ `, then ` │`.
pub proof fn law_header_row_bold_centred(
    header: Seq<Seq<char>>,
    rows: Seq<Seq<Seq<char>>>,
    aligns: Seq<Alignment>,
    widths: Seq<usize>,
    dividers: bool,
    j: int,
)
    requires
        header.len() > 0,
        cells_fit(header, widths),
        0 <= j < header.len(),
        width_at(widths, j) > 0,
    ensures
        ({
            let h = spec_render_table(header, rows, aligns, widths, dividers)[1];
            &&& h.len() == 2 * header.len() + 1
            &&& h[0] == plain("│ "@) && h.last() == plain(" │"@)
            &&& h[1 + 2 * j] == (padded_cell(header[j], widths[j] as int, true), true)
            &&& j + 1 < header.len() ==> h[2 + 2 * j] == plain(" │ "@)
        }),
{
    lemma_fitting_row_line(header, widths, true, true, j);
}

proof fn lemma_body_lines_index(rows: Seq<Seq<Seq<char>>>, widths: Seq<usize>, ncols: int, n: int)
    requires
        ncols > 0,
        0 <= n <= rows.len(),
        forall|i: int| 0 <= i < rows.len() ==> (#[trigger] rows[i]).len() == ncols && cells_fit(rows[i], widths),
    ensures
        body_lines(rows, widths, ncols, false, n).len() == n,
        forall|i: int| 0 <= i < n ==> #[trigger] body_lines(rows, widths, ncols, false, n)[i] == multiline_row(
            rows[i],
            widths,
            ncols,
            false,
            false,
        )[0],
    decreases n,
{
    if n > 0 {
        lemma_body_lines_index(rows, widths, ncols, n - 1);
        let row = rows[n - 1];
        assert(pad_row(row, ncols) == row);
        lemma_fitting_row_is_one_line(row, widths, false, false);
        let prev = body_lines(rows, widths, ncols, false, n - 1);
        let cur = body_lines(rows, widths, ncols, false, n);
        assert forall|i: int| 0 <= i < n implies #[trigger] cur[i] == multiline_row(rows[i], widths, ncols, false, false)[0] by {
            if i < n - 1 {
                assert(cur[i] == prev[i]);
            }
        }
    }
}

/// In a table without dividers whose cells all fit their columns, body row
/// `i` is the line `i` places below the header separator: its cells are in
/// plain text, left-aligned in their columns, separated by ` │ `.
pub proof fn law_body_row_plain_left_aligned(
    header: Seq<Seq<char>>,
    rows: Seq<Seq<Seq<char>>>,
    aligns: Seq<Alignment>,
    widths: Seq<usize>,
    i: int,
    j: int,
)
    requires
        header.len() > 0,
        cells_fit(header, widths),
        forall|k: int| 0 <= k < rows.len() ==> (#[trigger] rows[k]).len() == header.len() && cells_fit(rows[k], widths),
        0 <= i < rows.len(),
        0 <= j < header.len(),
        width_at(widths, j) > 0,
    ensures
        ({
            let b = spec_render_table(header, rows, aligns, widths, false)[3 + i];
            &&& b.len() == 2 * header.len() + 1
            &&& b[0] == plain("│ "@) && b.last() == plain(" │"@)
            &&& b[1 + 2 * j] == (padded_cell(rows[i][j], widths[j] as int, false), false)
        }),
{
    let ncols = header.len() as int;
    lemma_fitting_row_is_one_line(header, widths, true, true);
    lemma_body_lines_index(rows, widths, ncols, rows.len() as int);
    lemma_fitting_row_line(rows[i], widths, false, false, j);
    let lines = spec_render_table(header, rows, aligns, widths, false);
    let bl = body_lines(rows, widths, ncols, false, rows.len() as int);
    assert(lines[3 + i] == bl[i]);
}

/// Rows of characters as plain values.
pub open spec fn char_rows(v: Seq<Vec<char>>) -> Seq<Seq<char>> {
    v.map_values(|r: Vec<char>| r@)
}

fn rep_chars(c: char, n: usize) -> (r: Vec<char>)
    ensures
        r@ == rep(c, n as int),
{
    let mut v: Vec<char> = Vec::new();
    let mut i: usize = 0;
    while i < n
        invariant
            i <= n,
            v@ == rep(c, i as int),
        decreases n - i,
    {
        v.push(c);
        assert(v@ =~= rep(c, i + 1));
        i += 1;
    }
    v
}

fn append_chars(dst: &mut Vec<char>, src: &Vec<char>)
    ensures
        final(dst)@ == old(dst)@ + src@,
{
    let mut i: usize = 0;
    while i < src.len()
        invariant
            i <= src@.len(),
            dst@ == old(dst)@ + src@.subrange(0, i as int),
        decreases src.len() - i,
    {
        dst.push(src[i]);
        assert(dst@ =~= old(dst)@ + src@.subrange(0, i + 1));
        i += 1;
    }
    assert(src@.subrange(0, src@.len() as int) =~= src@);
}

fn copy_chars(src: &Vec<char>) -> (r: Vec<char>)
    ensures
        r@ == src@,
{
    let mut v: Vec<char> = Vec::new();
    append_chars(&mut v, src);
    assert(Seq::<char>::empty() + src@ =~= src@);
    v
}

fn push_span(line: &mut TableLine, text: &Vec<char>, bold: bool)
    ensures
        line_view(final(line)@) == line_view(old(line)@).push((text@, bold)),
{
    line.push(TableSpan { text: string_from_chars(text), bold });
    assert(line_view(line@) =~= line_view(old(line)@).push((text@, bold)));
}

fn push_str_span(line: &mut TableLine, text: &str)
    ensures
        line_view(final(line)@) == line_view(old(line)@).push(plain(text@)),
{
    push_span(line, &chars_of(text), false);
}

fn width_get(widths: &[usize], j: usize) -> (r: usize)
    ensures
        r as int == width_at(widths@, j as int),
{
    if j < widths.len() {
        widths[j]
    } else {
        0
    }
}

fn rule_line_exec(widths: &[usize], left: &str, mid: &str, right: &str) -> (r: TableLine)
    ensures
        line_view(r@) == rule_line(widths@, left@, mid@, right@),
{
    let mut line: TableLine = Vec::new();
    push_str_span(&mut line, left);
    let mut j: usize = 0;
    assert(line_view(line@) =~= seq![plain(left@)] + rule_spans(widths@, mid@, 0));
    while j < widths.len()
        invariant
            j <= widths@.len(),
            line_view(line@) == seq![plain(left@)] + rule_spans(widths@, mid@, j as int),
        decreases widths.len() - j,
    {
        push_span(&mut line, &rep_chars('─', widths[j]), false);
        if j + 1 < widths.len() {
            push_str_span(&mut line, mid);
        }
        assert(line_view(line@) =~= seq![plain(left@)] + rule_spans(widths@, mid@, j + 1));
        j += 1;
    }
    push_str_span(&mut line, right);
    assert(line_view(line@) =~= rule_line(widths@, left@, mid@, right@));
    line
}

fn sep_dashes_exec(a: Option<Alignment>, w: usize) -> (r: Vec<char>)
    ensures
        r@ == sep_dashes(a, w as int),
{
    match a {
        Some(Alignment::Center) => {
            let mut v: Vec<char> = Vec::new();
            v.push(':');
            append_chars(&mut v, &rep_chars('─', w.saturating_sub(2)));
            v.push(':');
            assert(v@ =~= sep_dashes(a, w as int));
            v
        },
        Some(Alignment::Right) => {
            let mut v = rep_chars('─', w.saturating_sub(1));
            v.push(':');
            v
        },
        Some(Alignment::Left) => {
            let mut v: Vec<char> = Vec::new();
            v.push(':');
            append_chars(&mut v, &rep_chars('─', w.saturating_sub(1)));
            assert(v@ =~= sep_dashes(a, w as int));
            v
        },
        _ => rep_chars('─', w),
    }
}

fn separator_line_exec(widths: &[usize], aligns: &Vec<Alignment>) -> (r: TableLine)
    ensures
        line_view(r@) == separator_line(widths@, aligns@),
{
    let mut line: TableLine = Vec::new();
    push_str_span(&mut line, "├─");
    let mut j: usize = 0;
    assert(line_view(line@) =~= seq![plain("├─"@)] + sep_spans(widths@, aligns@, 0));
    while j < widths.len()
        invariant
            j <= widths@.len(),
            line_view(line@) == seq![plain("├─"@)] + sep_spans(widths@, aligns@, j as int),
        decreases widths.len() - j,
    {
        let a = if j < aligns.len() { Some(aligns[j]) } else { None };
        push_span(&mut line, &sep_dashes_exec(a, widths[j]), false);
        if j + 1 < widths.len() {
            push_str_span(&mut line, "─┼─");
        }
        assert(line_view(line@) =~= seq![plain("├─"@)] + sep_spans(widths@, aligns@, j + 1));
        j += 1;
    }
    push_str_span(&mut line, "─┤");
    assert(line_view(line@) =~= separator_line(widths@, aligns@));
    line
}

fn padded_cell_exec(cell: &Vec<char>, width: usize, center: bool) -> (r: Vec<char>)
    ensures
        r@ == padded_cell(cell@, width as int, center),
{
    let cw = chars_width(cell);
    let p = width.saturating_sub(cw);
    let mut v: Vec<char>;
    if center {
        v = rep_chars(' ', p / 2);
        append_chars(&mut v, cell);
        append_chars(&mut v, &rep_chars(' ', p - p / 2));
    } else {
        v = copy_chars(cell);
        append_chars(&mut v, &rep_chars(' ', p));
    }
    v
}

fn row_line_exec(cells: &Vec<Vec<char>>, widths: &[usize], bold: bool, center: bool) -> (r: TableLine)
    ensures
        line_view(r@) == row_line(char_rows(cells@), widths@, bold, center),
{
    let ghost cv = char_rows(cells@);
    let mut line: TableLine = Vec::new();
    push_str_span(&mut line, "│ ");
    let mut j: usize = 0;
    assert(line_view(line@) =~= seq![plain("│ "@)] + row_body(cv, widths@, bold, center, 0));
    while j < cells.len()
        invariant
            cv == char_rows(cells@),
            j <= cells@.len(),
            line_view(line@) == seq![plain("│ "@)] + row_body(cv, widths@, bold, center, j as int),
        decreases cells.len() - j,
    {
        let padded = padded_cell_exec(&cells[j], width_get(widths, j), center);
        assert(cv[j as int] == cells@[j as int]@);
        push_span(&mut line, &padded, bold);
        push_str_span(&mut line, " │ ");
        assert(line_view(line@) =~= seq![plain("│ "@)] + row_body(cv, widths@, bold, center, j + 1));
        j += 1;
    }
    if cells.len() > 0 {
        let ghost before = line_view(line@);
        line.pop();
        assert(line_view(line@) =~= before.drop_last());
        push_str_span(&mut line, " │");
    }
    line
}

fn push_line(lines: &mut Vec<TableLine>, line: TableLine)
    ensures
        lines_view(final(lines)@) == lines_view(old(lines)@).push(line_view(line@)),
{
    lines.push(line);
    assert(lines_view(lines@) =~= lines_view(old(lines)@).push(line_view(line@)));
}

fn append_lines(lines: &mut Vec<TableLine>, more: Vec<TableLine>)
    ensures
        lines_view(final(lines)@) == lines_view(old(lines)@) + lines_view(more@),
{
    let mut m = more;
    let ghost mv = lines_view(m@);
    lines.append(&mut m);
    assert(lines_view(lines@) =~= lines_view(old(lines)@) + mv);
}

fn multiline_row_exec(cells: &Vec<Vec<char>>, widths: &[usize], ncols: usize, bold: bool, center: bool) -> (r: Vec<TableLine>)
    ensures
        lines_view(r@) == multiline_row(char_rows(cells@), widths@, ncols as int, bold, center),
{
    let ghost cv = char_rows(cells@);
    let ghost wsv = wrapped_cells(cv, widths@);
    let mut ws: Vec<Vec<Vec<char>>> = Vec::new();
    let mut j: usize = 0;
    while j < cells.len()
        invariant
            cv == char_rows(cells@),
            wsv == wrapped_cells(cv, widths@),
            j <= cells@.len(),
            ws@.len() == j,
            forall|k: int| 0 <= k < j ==> char_rows(#[trigger] ws@[k]@) == wsv[k],
        decreases cells.len() - j,
    {
        let w = wrap_chars(&cells[j], width_get(widths, j));
        assert(char_rows(w@) == w@.map_values(|v: Vec<char>| v@));
        ws.push(w);
        j += 1;
    }
    let mut count: usize = 0;
    let mut k: usize = 0;
    while k < ws.len()
        invariant
            ws@.len() == cv.len(),
            wsv.len() == cv.len(),
            forall|q: int| 0 <= q < ws@.len() ==> char_rows(#[trigger] ws@[q]@) == wsv[q],
            k <= ws@.len(),
            count as int == max_rows(wsv, k as int),
        decreases ws.len() - k,
    {
        assert(char_rows(ws@[k as int]@).len() == ws@[k as int]@.len());
        if ws[k].len() > count {
            count = ws[k].len();
        }
        k += 1;
    }
    if ws.len() == 0 {
        count = 1;
    }
    assert(count as int == line_count(wsv));
    let ghost all = multiline_row(cv, widths@, ncols as int, bold, center);
    let mut out: Vec<TableLine> = Vec::new();
    let mut li: usize = 0;
    while li < count
        invariant
            cv == char_rows(cells@),
            wsv == wrapped_cells(cv, widths@),
            all == multiline_row(cv, widths@, ncols as int, bold, center),
            all.len() == count,
            ws@.len() == wsv.len(),
            forall|q: int| 0 <= q < ws@.len() ==> char_rows(#[trigger] ws@[q]@) == wsv[q],
            li <= count,
            lines_view(out@) == all.subrange(0, li as int),
        decreases count - li,
    {
        let first = li == 0;
        let centred = center && first;
        let mut row_cells: Vec<Vec<char>> = Vec::new();
        let mut q: usize = 0;
        while q < ncols
            invariant
                wsv == wrapped_cells(cv, widths@),
                ws@.len() == wsv.len(),
                forall|z: int| 0 <= z < ws@.len() ==> char_rows(#[trigger] ws@[z]@) == wsv[z],
                q <= ncols,
                row_cells@.len() == q,
                forall|z: int| 0 <= z < q ==> (#[trigger] row_cells@[z])@ == line_cell(wsv, z, li as int),
            decreases ncols - q,
        {
            let s: Vec<char> = if q < ws.len() && li < ws[q].len() {
                assert(char_rows(ws@[q as int]@)[li as int] == ws@[q as int]@[li as int]@);
                copy_chars(&ws[q][li])
            } else {
                Vec::new()
            };
            row_cells.push(s);
            q += 1;
        }
        assert(char_rows(row_cells@) =~= Seq::new(ncols as nat, |z: int| line_cell(wsv, z, li as int)));
        let line = row_line_exec(&row_cells, widths, bold && first, centred);
        push_line(&mut out, line);
        assert(lines_view(out@) =~= all.subrange(0, li + 1));
        li += 1;
    }
    assert(all.subrange(0, count as int) =~= all);
    out
}

fn row_chars(row: &Vec<String>) -> (r: Vec<Vec<char>>)
    ensures
        char_rows(r@) == cells_view(row@),
{
    let mut v: Vec<Vec<char>> = Vec::new();
    let mut i: usize = 0;
    while i < row.len()
        invariant
            i <= row@.len(),
            v@.len() == i,
            forall|k: int| 0 <= k < i ==> (#[trigger] v@[k])@ == row@[k]@,
        decreases row.len() - i,
    {
        v.push(chars_of(row[i].as_str()));
        i += 1;
    }
    assert(char_rows(v@) =~= cells_view(row@));
    v
}

/// Renders a table using the given column widths, with row dividers between
/// body rows when `options` asks for them. Cells wider than their column are
/// wrapped.
pub fn render_table_with_options(accum: &TableAccum, col_widths: &[usize], options: &TableOptions) -> (r: Vec<TableLine>)
    ensures
        lines_view(r@) == spec_render_table(
            cells_view(accum.header_cells@),
            rows_view(accum.body_rows@),
            accum.alignments@,
            col_widths@,
            options.row_dividers,
        ),
{
    let ncols = accum.header_cells.len();
    let mut lines: Vec<TableLine> = Vec::new();
    if ncols == 0 {
        assert(lines_view(lines@) =~= Seq::<LineV>::empty());
        return lines;
    }
    let ghost header = cells_view(accum.header_cells@);
    let ghost rows = rows_view(accum.body_rows@);
    assert(lines_view(lines@) =~= Seq::<LineV>::empty());
    push_line(&mut lines, rule_line_exec(col_widths, "╭─", "─┬─", "─╮"));
    let header_chars = row_chars(&accum.header_cells);
    append_lines(&mut lines, multiline_row_exec(&header_chars, col_widths, ncols, true, true));
    push_line(&mut lines, separator_line_exec(col_widths, &accum.alignments));
    let ghost prefix = lines_view(lines@);
    assert(prefix =~= seq![rule_line(col_widths@, "╭─"@, "─┬─"@, "─╮"@)] + multiline_row(header, col_widths@, ncols as int, true, true) + seq![separator_line(col_widths@, accum.alignments@)]);
    let nrows = accum.body_rows.len();
    let mut i: usize = 0;
    assert(prefix + body_lines(rows, col_widths@, ncols as int, options.row_dividers, 0) =~= prefix);
    while i < nrows
        invariant
            nrows == accum.body_rows@.len(),
            rows == rows_view(accum.body_rows@),
            ncols == accum.header_cells@.len(),
            i <= nrows,
            lines_view(lines@) == prefix + body_lines(rows, col_widths@, ncols as int, options.row_dividers, i as int),
        decreases nrows - i,
    {
        let mut padded = row_chars(&accum.body_rows[i]);
        assert(char_rows(padded@) == rows[i as int]);
        let ghost orig = char_rows(padded@);
        while padded.len() < ncols
            invariant
                ncols == accum.header_cells@.len(),
                orig.len() <= ncols ==> char_rows(padded@) == orig + Seq::new((padded@.len() - orig.len()) as nat, |_i: int| Seq::<char>::empty()),
                orig.len() > ncols ==> char_rows(padded@) == orig,
                orig.len() <= ncols ==> padded@.len() <= ncols,
                padded@.len() >= orig.len(),
                orig == rows[i as int],
            decreases ncols - padded.len(),
        {
            let ghost before = char_rows(padded@);
            padded.push(Vec::new());
            assert(char_rows(padded@) =~= before.push(Seq::<char>::empty()));
            assert(orig + Seq::new((padded@.len() - orig.len()) as nat, |_i: int| Seq::<char>::empty()) =~= (orig + Seq::new((padded@.len() - 1 - orig.len()) as nat, |_i: int| Seq::<char>::empty())).push(Seq::<char>::empty()));
        }
        assert(char_rows(padded@) =~= pad_row(rows[i as int], ncols as int));
        let ghost before = lines_view(lines@);
        append_lines(&mut lines, multiline_row_exec(&padded, col_widths, ncols, false, false));
        if options.row_dividers && i + 1 < nrows {
            push_line(&mut lines, rule_line_exec(col_widths, "├─", "─┼─", "─┤"));
        }
        assert(lines_view(lines@) =~= prefix + body_lines(rows, col_widths@, ncols as int, options.row_dividers, i + 1));
        i += 1;
    }
    push_line(&mut lines, rule_line_exec(col_widths, "╰─", "─┴─", "─╯"));
    lines
}

/// Renders a table using the given column widths, without row dividers.
pub fn render_table(accum: &TableAccum, col_widths: &[usize]) -> (r: Vec<TableLine>)
    ensures
        lines_view(r@) == spec_render_table(
            cells_view(accum.header_cells@),
            rows_view(accum.body_rows@),
            accum.alignments@,
            col_widths@,
            false,
        ),
{
    render_table_with_options(accum, col_widths, &TableOptions::default())
}

/// How wide a column should be, as ratatui's layout `Constraint` says it.
#[derive(Debug, Clone, Copy, PartialEq, Eq, Structural)]
pub enum ColumnConstraint {
    Min(u16),
    Max(u16),
    Length(u16),
    Percentage(u16),
    Ratio(u32, u32),
    Fill(u16),
}

/// The sum of a sequence of widths.
pub open spec fn width_sum(ws: Seq<u16>) -> int
    decreases ws.len(),
{
    if ws.len() == 0 {
        0
    } else {
        width_sum(ws.drop_last()) + ws.last()
    }
}

/// `Layout::horizontal(..).split(..)` from ratatui, on the one-row area
/// `Rect::new(0, 0, width, 1)`, giving the width of each area. Which widths
/// its constraint solver settles on is not fixed by the arguments (it walks
/// hash maps seeded per process), so the contract states only what holds of
/// every outcome: one area per constraint, and the areas, laid out in order
/// without overlap inside the row, take at most `width` columns together.
/// The source ends in `expect` if the solver refuses a constraint, a case
/// that its documentation does not list among its panics; the contract does
/// not single out inputs for it.
#[verifier::external_body]
fn split_widths(constraints: &Vec<ColumnConstraint>, width: u16) -> (r: Vec<u16>)
    ensures
        r@.len() == constraints@.len(),
        width_sum(r@) <= width,
{
    let cs = constraints.iter().map(|c| match *c {
        ColumnConstraint::Min(v) => Constraint::Min(v),
        ColumnConstraint::Max(v) => Constraint::Max(v),
        ColumnConstraint::Length(v) => Constraint::Length(v),
        ColumnConstraint::Percentage(v) => Constraint::Percentage(v),
        ColumnConstraint::Ratio(n, d) => Constraint::Ratio(n, d),
        ColumnConstraint::Fill(v) => Constraint::Fill(v),
    });
    Layout::horizontal(cs).split(Rect::new(0, 0, width, 1)).iter().map(|r| r.width).collect()
}

/// The width left for cell contents in a row `max_width` columns wide with
/// `ncols` columns: each column takes 3 columns of borders and padding, and
/// the row one more.
pub open spec fn available_width(max_width: u16, ncols: nat) -> u16 {
    let borders = 3 * ((ncols as u16) as int) + 1;
    if max_width > borders { (max_width - borders) as u16 } else { 0 }
}

/// Like `render_table_with_options`, but with column widths that ratatui's
/// layout computes from `constraints` within `max_width`: whatever widths it
/// settles on, one per constraint and together no wider than the room left
/// by the borders, the table is rendered with them.
pub fn render_table_constrained(
    accum: &TableAccum,
    constraints: &Vec<ColumnConstraint>,
    max_width: u16,
    options: &TableOptions,
) -> (r: Vec<TableLine>)
    requires
        3 * ((constraints@.len() as u16) as int) + 1 <= u16::MAX,
    ensures
        exists|ws: Seq<u16>|
            #![trigger width_sum(ws)]
            ws.len() == constraints@.len() && width_sum(ws) <= available_width(max_width, constraints@.len())
                && lines_view(r@) == spec_render_table(
                cells_view(accum.header_cells@),
                rows_view(accum.body_rows@),
                accum.alignments@,
                ws.map_values(|w: u16| w as usize),
                options.row_dividers,
            ),
{
    let n = constraints.len() as u16;
    let available = max_width.saturating_sub(3 * n + 1);
    let chunks = split_widths(constraints, available);
    let mut col_widths: Vec<usize> = Vec::new();
    let mut i: usize = 0;
    while i < chunks.len()
        invariant
            i <= chunks@.len(),
            col_widths@.len() == i,
            forall|k: int| 0 <= k < i ==> col_widths@[k] == chunks@[k] as usize,
        decreases chunks.len() - i,
    {
        col_widths.push(chunks[i] as usize);
        i += 1;
    }
    assert(col_widths@ =~= chunks@.map_values(|w: u16| w as usize));
    let r = render_table_with_options(accum, col_widths.as_slice(), options);
    assert(available as int == available_width(max_width, constraints@.len()) as int);
    assert(width_sum(chunks@) <= available_width(max_width, constraints@.len()));
    r
}

} // verus!
