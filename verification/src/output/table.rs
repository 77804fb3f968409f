//! Plain-text tables: column widths, truncation with an ellipsis, padding and
//! alignment, rendered as lines of equal length.

use vstd::prelude::*;
use crate::text::{chars_of, push_char};

verus! {

/// Horizontal alignment of the cells of a column.
#[derive(Debug, Clone, Copy)]
pub enum Align {
    Left,
    Right,
}

/// A column: its header, alignment and an optional cap on its width (in
/// characters).
pub struct Column {
    pub header: &'static str,
    pub align: Align,
    pub max_width: Option<usize>,
}

/// A table of rows of cells under a list of columns.
pub struct Table {
    columns: Vec<Column>,
    rows: Vec<Vec<String>>,
}

/// The character sequences of a row of cells.
pub open spec fn row_view(row: Seq<String>) -> Seq<Seq<char>> {
    row.map_values(|c: String| c@)
}

/// The spaces that make up `n` columns of padding.
pub open spec fn spaces(n: nat) -> Seq<char> {
    Seq::new(n, |_i: int| ' ')
}

/// `n` dashes.
pub open spec fn dashes(n: nat) -> Seq<char> {
    Seq::new(n, |_i: int| '-')
}

/// `s` cut to at most `max` characters: unchanged when it fits, else its
/// first `max - 1` characters followed by an ellipsis ('…'), or empty when
/// `max` is zero.
pub open spec fn truncate_spec(s: Seq<char>, max: nat) -> Seq<char> {
    if s.len() <= max {
        s
    } else if max == 0 {
        Seq::empty()
    } else {
        s.take(max - 1).push('…')
    }
}

/// The width a header claims: its length in bytes.
pub open spec fn header_width(c: Column) -> nat {
    c.header.len() as nat
}

/// The widest of the header of column `i` and its cells in the first `k`
/// rows (rows too short to reach column `i` do not count).
pub open spec fn content_width(cols: Seq<Column>, rows: Seq<Seq<Seq<char>>>, i: int, k: nat) -> nat
    decreases k,
{
    if k == 0 {
        header_width(cols[i])
    } else {
        let prev = content_width(cols, rows, i, (k - 1) as nat);
        let r = rows[k - 1];
        if i < r.len() && r[i].len() > prev {
            r[i].len()
        } else {
            prev
        }
    }
}

/// The content width over the first `k` rows depends only on those rows.
pub proof fn lemma_content_width_prefix(
    cols: Seq<Column>,
    rows: Seq<Seq<Seq<char>>>,
    more: Seq<Seq<Seq<char>>>,
    i: int,
    k: nat,
)
    requires
        k <= rows.len(),
        k <= more.len(),
        forall|j: int| 0 <= j < k ==> rows[j] == more[j],
    ensures
        content_width(cols, rows, i, k) == content_width(cols, more, i, k),
    decreases k,
{
    if k > 0 {
        lemma_content_width_prefix(cols, rows, more, i, (k - 1) as nat);
    }
}

/// Adding a row never narrows a column, and a column never grows past its
/// cap.
pub proof fn lemma_push_row_widens(cols: Seq<Column>, rows: Seq<Seq<Seq<char>>>, row: Seq<Seq<char>>, i: int)
    ensures
        column_width(cols, rows, i) <= column_width(cols, rows.push(row), i),
        cols[i].max_width matches Some(m) ==> column_width(cols, rows.push(row), i) <= m,
{
    lemma_content_width_prefix(cols, rows, rows.push(row), i, rows.len());
}

/// A width `w` held to the cap of column `c`, if it has one.
pub open spec fn capped(w: nat, c: Column) -> nat {
    match c.max_width {
        Some(m) => if m < w {
            m as nat
        } else {
            w
        },
        None => w,
    }
}

/// The content width of column `i` over the first `k` rows is at least its
/// header and each of its cells there, and is one of them.
proof fn lemma_content_width_widest(cols: Seq<Column>, rows: Seq<Seq<Seq<char>>>, i: int, k: nat)
    requires
        0 <= i,
        k <= rows.len(),
    ensures
        header_width(cols[i]) <= content_width(cols, rows, i, k),
        forall|r: int|
            0 <= r < k && i < rows[r].len() ==> (#[trigger] rows[r][i]).len() <= content_width(
                cols,
                rows,
                i,
                k,
            ),
        content_width(cols, rows, i, k) == header_width(cols[i]) || exists|r: int|
            0 <= r < k && i < rows[r].len() && content_width(cols, rows, i, k) == (#[trigger] rows[r][i]).len(),
    decreases k,
{
    if k > 0 {
        lemma_content_width_widest(cols, rows, i, (k - 1) as nat);
        let last: int = k - 1;
        if content_width(cols, rows, i, k) != content_width(cols, rows, i, (k - 1) as nat) {
            assert(content_width(cols, rows, i, k) == rows[last][i].len());
        }
    }
}

/// Column `i` is exactly as wide as the widest of its header and its cells
/// in every row, held to its cap: it is no narrower than any of them (each
/// taken up to the cap), never wider than the cap, and as wide as one of
/// them (up to the cap).
pub proof fn lemma_column_width_widest_capped(cols: Seq<Column>, rows: Seq<Seq<Seq<char>>>, i: int)
    requires
        0 <= i < cols.len(),
    ensures
        capped(header_width(cols[i]), cols[i]) <= column_width(cols, rows, i),
        forall|r: int|
            0 <= r < rows.len() && i < rows[r].len() ==> capped((#[trigger] rows[r][i]).len(), cols[i])
                <= column_width(cols, rows, i),
        cols[i].max_width matches Some(m) ==> column_width(cols, rows, i) <= m,
        column_width(cols, rows, i) == capped(header_width(cols[i]), cols[i]) || exists|r: int|
            0 <= r < rows.len() && i < rows[r].len() && column_width(cols, rows, i) == capped(
                (#[trigger] rows[r][i]).len(),
                cols[i],
            ),
{
    lemma_content_width_widest(cols, rows, i, rows.len());
    let w = content_width(cols, rows, i, rows.len());
    if w != header_width(cols[i]) {
        let r = choose|r: int| 0 <= r < rows.len() && i < rows[r].len() && w == (#[trigger] rows[r][i]).len();
        assert(column_width(cols, rows, i) == capped(rows[r][i].len(), cols[i]));
    }
}

/// The width of column `i`: its content width, capped by its `max_width`.
pub open spec fn column_width(cols: Seq<Column>, rows: Seq<Seq<Seq<char>>>, i: int) -> nat {
    let w = content_width(cols, rows, i, rows.len());
    match cols[i].max_width {
        Some(m) => if m < w {
            m as nat
        } else {
            w
        },
        None => w,
    }
}

/// A border line for columns of widths `ws`: "+", then for each column
/// `w + 2` dashes and a "+".
pub open spec fn border_spec(ws: Seq<usize>) -> Seq<char>
    decreases ws.len(),
{
    if ws.len() == 0 {
        seq!['+']
    } else {
        border_spec(ws.drop_last()) + dashes((ws.last() + 2) as nat) + seq!['+']
    }
}

/// The cell of `row` in column `i`; empty when the row is too short.
pub open spec fn cell_text(row: Seq<Seq<char>>, i: int) -> Seq<char> {
    if 0 <= i < row.len() {
        row[i]
    } else {
        Seq::empty()
    }
}

/// The padding that fills `t` up to width `w`.
pub open spec fn pad_len(w: nat, t: Seq<char>) -> nat {
    if t.len() < w {
        (w - t.len()) as nat
    } else {
        0
    }
}

/// One cell of a row line: a space, the cell cut to `w` and padded on the
/// side its alignment gives, then " |".
pub open spec fn cell_segment(align: Align, w: nat, cell: Seq<char>) -> Seq<char> {
    let t = truncate_spec(cell, w);
    let p = spaces(pad_len(w, t));
    match align {
        Align::Left => seq![' '] + t + p + seq![' ', '|'],
        Align::Right => seq![' '] + p + t + seq![' ', '|'],
    }
}

/// The line for `row` over the first `k` columns: "|" then one segment per
/// column.
pub open spec fn row_spec(cols: Seq<Column>, ws: Seq<usize>, row: Seq<Seq<char>>, k: nat) -> Seq<char>
    decreases k,
{
    if k == 0 {
        seq!['|']
    } else {
        row_spec(cols, ws, row, (k - 1) as nat) + cell_segment(
            cols[k - 1].align,
            ws[k - 1] as nat,
            cell_text(row, k - 1),
        )
    }
}

/// The length of every line of a table whose first `k` columns have widths
/// `ws`: one character, then `w + 3` per column.
pub open spec fn line_width(ws: Seq<usize>, k: nat) -> nat
    decreases k,
{
    if k == 0 {
        1
    } else {
        line_width(ws, (k - 1) as nat) + ws[k - 1] as nat + 3
    }
}

/// Cuts `s` to at most `max_chars` characters, marking a cut with '…'.
pub fn truncate(s: &str, max_chars: usize) -> (r: String)
    ensures
        r@ == truncate_spec(s@, max_chars as nat),
{
    let chars = chars_of(s);
    let len = chars.len();
    if len <= max_chars {
        return s.to_owned();
    }
    if max_chars == 0 {
        return String::new();
    }
    let mut out = String::new();
    if max_chars == 1 {
        push_char(&mut out, '…');
        return out;
    }
    let take = max_chars - 1;
    let mut i: usize = 0;
    while i < take
        invariant
            i <= take < len,
            len == chars.len(),
            chars@ == s@,
            out@ =~= s@.take(i as int),
        decreases take - i,
    {
        push_char(&mut out, chars[i]);
        i = i + 1;
    }
    push_char(&mut out, '…');
    out
}

/// A truncated cell is never wider than the limit, and is exactly as wide
/// as the limit when it had to be cut.
pub proof fn lemma_truncate_len(s: Seq<char>, max: nat)
    ensures
        truncate_spec(s, max).len() == if s.len() <= max {
            s.len()
        } else {
            max
        },
{
}

/// Every cell segment of width `w` is `w + 3` characters long.
pub proof fn lemma_cell_segment_len(align: Align, w: nat, cell: Seq<char>)
    ensures
        cell_segment(align, w, cell).len() == w + 3,
{
    lemma_truncate_len(cell, w);
}

/// Every row line has the table's line width.
pub proof fn lemma_row_len(cols: Seq<Column>, ws: Seq<usize>, row: Seq<Seq<char>>, k: nat)
    ensures
        row_spec(cols, ws, row, k).len() == line_width(ws, k),
    decreases k,
{
    if k > 0 {
        lemma_row_len(cols, ws, row, (k - 1) as nat);
        lemma_cell_segment_len(cols[k - 1].align, ws[k - 1] as nat, cell_text(row, k - 1));
    }
}

/// Every border line has the table's line width.
pub proof fn lemma_border_len(ws: Seq<usize>)
    ensures
        border_spec(ws).len() == line_width(ws, ws.len()),
    decreases ws.len(),
{
    if ws.len() > 0 {
        lemma_border_len(ws.drop_last());
        lemma_line_width_prefix(ws, ws.drop_last(), (ws.len() - 1) as nat);
    }
}

/// The line width over the first `k` columns depends only on those widths.
pub proof fn lemma_line_width_prefix(ws: Seq<usize>, vs: Seq<usize>, k: nat)
    requires
        k <= ws.len(),
        k <= vs.len(),
        forall|j: int| 0 <= j < k ==> ws[j] == vs[j],
    ensures
        line_width(ws, k) == line_width(vs, k),
    decreases k,
{
    if k > 0 {
        lemma_line_width_prefix(ws, vs, (k - 1) as nat);
    }
}

impl Table {
    /// The columns of the table.
    pub closed spec fn columns_view(&self) -> Seq<Column> {
        self.columns@
    }

    /// The rows of the table, each as the character sequences of its cells.
    pub closed spec fn rows_view(&self) -> Seq<Seq<Seq<char>>> {
        self.rows@.map_values(|r: Vec<String>| row_view(r@))
    }

    /// A table with the given columns and no rows.
    pub fn new(columns: Vec<Column>) -> (t: Self)
        ensures
            t.columns_view() == columns@,
            t.rows_view() == Seq::<Seq<Seq<char>>>::empty(),
    {
        let t = Table { columns, rows: Vec::new() };
        t
    }

    /// Appends a row of cells.
    pub fn push_row(&mut self, cells: Vec<String>)
        ensures
            final(self).columns_view() == old(self).columns_view(),
            final(self).rows_view() == old(self).rows_view().push(row_view(cells@)),
    {
        self.rows.push(cells);
    }

    /// The width of each column: the widest of its header (in bytes) and its
    /// cells (in characters), capped by the column's `max_width`.
    pub fn compute_widths(&self) -> (ws: Vec<usize>)
        ensures
            ws@.len() == self.columns_view().len(),
            forall|i: int|
                0 <= i < ws@.len() ==> ws@[i] == column_width(
                    self.columns_view(),
                    self.rows_view(),
                    i,
                ),
            forall|i: int, r: int|
                #![trigger ws@[i], self.rows_view()[r]]
                0 <= i < ws@.len() && 0 <= r < self.rows_view().len() && i < self.rows_view()[r].len()
                    ==> capped(self.rows_view()[r][i].len(), self.columns_view()[i]) <= ws@[i],
            forall|i: int|
                0 <= i < ws@.len() ==> capped(
                    header_width(self.columns_view()[i]),
                    self.columns_view()[i],
                ) <= #[trigger] ws@[i],
            forall|i: int|
                0 <= i < ws@.len() ==> (self.columns_view()[i].max_width matches Some(m) ==> #[trigger] ws@[i]
                    <= m),
    {
        let ghost cols = self.columns_view();
        let ghost rows = self.rows_view();
        let n = self.columns.len();
        let mut widths: Vec<usize> = Vec::new();
        let mut i: usize = 0;
        while i < n
            invariant
                i <= n == self.columns@.len(),
                cols == self.columns@,
                widths@.len() == i,
                forall|j: int| 0 <= j < i ==> widths@[j] == content_width(cols, rows, j, 0),
            decreases n - i,
        {
            widths.push(self.columns[i].header.len());
            i = i + 1;
        }
        let mut r: usize = 0;
        while r < self.rows.len()
            invariant
                r <= self.rows@.len(),
                n == cols.len(),
                cols == self.columns@,
                rows == self.rows_view(),
                rows.len() == self.rows@.len(),
                widths@.len() == n,
                forall|j: int| 0 <= j < n ==> widths@[j] == content_width(cols, rows, j, r as nat),
            decreases self.rows@.len() - r,
        {
            let row = &self.rows[r];
            let mut i: usize = 0;
            while i < row.len() && i < n
                invariant
                    i <= n,
                    r < self.rows@.len(),
                    row == self.rows@[r as int],
                    rows[r as int] == row_view(row@),
                    n == cols.len(),
                    widths@.len() == n,
                    forall|j: int| 0 <= j < i ==> widths@[j] == content_width(cols, rows, j, (r + 1) as nat),
                    forall|j: int| i <= j < n ==> widths@[j] == content_width(cols, rows, j, r as nat),
                decreases n - i,
            {
                let w = row[i].as_str().unicode_len();
                if w > widths[i] {
                    widths.set(i, w);
                }
                i = i + 1;
            }
            r = r + 1;
        }
        let mut i: usize = 0;
        while i < n
            invariant
                i <= n == cols.len(),
                cols == self.columns@,
                rows == self.rows_view(),
                widths@.len() == n,
                forall|j: int| 0 <= j < i ==> widths@[j] == column_width(cols, rows, j),
                forall|j: int| i <= j < n ==> widths@[j] == content_width(cols, rows, j, rows.len()),
            decreases n - i,
        {
            if let Some(max) = self.columns[i].max_width {
                let w = widths[i];
                widths.set(i, if max < w { max } else { w });
            }
            i = i + 1;
        }
        proof {
            assert forall|j: int| 0 <= j < n implies {
                &&& capped(header_width(cols[j]), cols[j]) <= widths@[j]
                &&& (cols[j].max_width matches Some(m) ==> widths@[j] <= m)
                &&& forall|r: int|
                    0 <= r < rows.len() && j < rows[r].len() ==> capped(
                        (#[trigger] rows[r][j]).len(),
                        cols[j],
                    ) <= widths@[j]
            } by {
                lemma_column_width_widest_capped(cols, rows, j);
            }
        }
        widths
    }

    /// The border line for columns of the given widths.
    pub fn border_line(&self, widths: &Vec<usize>) -> (line: String)
        ensures
            line@ == border_spec(widths@),
    {
        let mut out = String::new();
        push_char(&mut out, '+');
        let mut k: usize = 0;
        while k < widths.len()
            invariant
                k <= widths@.len(),
                out@ == border_spec(widths@.take(k as int)),
            decreases widths@.len() - k,
        {
            let w = widths[k];
            let ghost before = out@;
            let mut j: usize = 0;
            while j < w
                invariant
                    j <= w,
                    out@ == before + dashes(j as nat),
                decreases w - j,
            {
                push_char(&mut out, '-');
                j = j + 1;
            }
            push_char(&mut out, '-');
            push_char(&mut out, '-');
            push_char(&mut out, '+');
            assert(widths@.take(k + 1).drop_last() =~= widths@.take(k as int));
            k = k + 1;
        }
        assert(widths@.take(widths@.len() as int) =~= widths@);
        out
    }

    /// The line for one row: each cell cut to its column's width, padded and
    /// aligned; cells past the last column are left out, missing ones are
    /// empty.
    pub fn row_line(&self, widths: &Vec<usize>, row: &Vec<String>) -> (line: String)
        requires
            widths@.len() >= self.columns_view().len(),
        ensures
            line@ == row_spec(
                self.columns_view(),
                widths@,
                row_view(row@),
                self.columns_view().len(),
            ),
    {
        let ghost cols = self.columns_view();
        let ghost rv = row_view(row@);
        let n = self.columns.len();
        let empty = String::new();
        let mut out = String::new();
        push_char(&mut out, '|');
        let mut i: usize = 0;
        while i < n
            invariant
                i <= n == cols.len(),
                cols == self.columns@,
                widths@.len() >= n,
                rv == row_view(row@),
                empty@ == Seq::<char>::empty(),
                out@ == row_spec(cols, widths@, rv, i as nat),
            decreases n - i,
        {
            let cell: &String = if i < row.len() {
                &row[i]
            } else {
                &empty
            };
            assert(cell@ == cell_text(rv, i as int));
            push_segment(&mut out, self.columns[i].align, widths[i], cell.as_str());
            i = i + 1;
        }
        out
    }

    /// The header cells: one per column.
    pub fn header_cells(&self) -> (cells: Vec<String>)
        ensures
            cells@.len() == self.columns_view().len(),
            forall|i: int| 0 <= i < cells@.len() ==> cells@[i]@ == (#[trigger] self.columns_view()[i]).header@,
    {
        let mut cells: Vec<String> = Vec::new();
        let mut i: usize = 0;
        while i < self.columns.len()
            invariant
                i <= self.columns@.len(),
                cells@.len() == i,
                forall|j: int| 0 <= j < i ==> cells@[j]@ == self.columns@[j].header@,
            decreases self.columns@.len() - i,
        {
            cells.push(self.columns[i].header.to_owned());
            i = i + 1;
        }
        cells
    }

    /// The lines of the rendered table, top to bottom: a border, the header
    /// row, a border, one line per row, and a closing border.
    pub fn render(&self) -> (lines: Vec<String>)
        ensures
            lines@.len() == self.rows_view().len() + 4,
            ({
                let cols = self.columns_view();
                let ws = Seq::new(cols.len(), |i: int| column_width(cols, self.rows_view(), i) as usize);
                let hs = Seq::new(cols.len(), |i: int| cols[i].header@);
                let last = lines@.len() - 1;
                &&& lines@[0]@ == border_spec(ws)
                &&& lines@[1]@ == row_spec(cols, ws, hs, cols.len())
                &&& lines@[2]@ == border_spec(ws)
                &&& forall|r: int|
                    3 <= r < last ==> #[trigger] lines@[r]@ == row_spec(
                        cols,
                        ws,
                        self.rows_view()[r - 3],
                        cols.len(),
                    )
                &&& lines@[last]@ == border_spec(ws)
            }),
    {
        let ghost cols = self.columns_view();
        let ghost rows = self.rows_view();
        let widths = self.compute_widths();
        let ghost ws = Seq::new(cols.len(), |i: int| column_width(cols, rows, i) as usize);
        let mut lines: Vec<String> = Vec::new();
        lines.push(self.border_line(&widths));
        let headers = self.header_cells();
        let ghost hs = Seq::new(cols.len(), |i: int| cols[i].header@);
        assert(row_view(headers@) =~= hs);
        lines.push(self.row_line(&widths, &headers));
        lines.push(self.border_line(&widths));
        let mut r: usize = 0;
        while r < self.rows.len()
            invariant
                r <= self.rows@.len(),
                cols == self.columns_view(),
                rows == self.rows_view(),
                rows.len() == self.rows@.len(),
                widths@ == ws,
                widths@.len() == cols.len(),
                lines@.len() == r + 3,
                lines@[0]@ == border_spec(ws),
                lines@[1]@ == row_spec(cols, ws, hs, cols.len()),
                lines@[2]@ == border_spec(ws),
                forall|q: int| 3 <= q < r + 3 ==> #[trigger] lines@[q]@ == row_spec(cols, ws, rows[q - 3], cols.len()),
            decreases self.rows@.len() - r,
        {
            lines.push(self.row_line(&widths, &self.rows[r]));
            r = r + 1;
        }
        lines.push(self.border_line(&widths));
        lines
    }
}

/// Appends the segment of one cell: a space, the cell cut to width `w` and
/// padded on the side its alignment gives, then " |".
pub fn push_segment(out: &mut String, align: Align, w: usize, cell: &str)
    ensures
        final(out)@ == old(out)@ + cell_segment(align, w as nat, cell@),
{
    let ghost before = out@;
    let t = truncate(cell, w);
    let pad = w.saturating_sub(t.as_str().unicode_len());
    assert(pad == pad_len(w as nat, t@));
    push_char(out, ' ');
    match align {
        Align::Left => {
            out.append(t.as_str());
            push_spaces(out, pad);
        },
        Align::Right => {
            push_spaces(out, pad);
            out.append(t.as_str());
        },
    }
    push_char(out, ' ');
    push_char(out, '|');
    assert(out@ =~= before + cell_segment(align, w as nat, cell@));
}

/// Appends `n` spaces to `out`.
pub fn push_spaces(out: &mut String, n: usize)
    ensures
        final(out)@ == old(out)@ + spaces(n as nat),
{
    let ghost before = out@;
    let mut j: usize = 0;
    while j < n
        invariant
            j <= n,
            out@ == before + spaces(j as nat),
        decreases n - j,
    {
        push_char(out, ' ');
        j = j + 1;
    }
}

/// All lines of a rendered table have the same length: the border and every
/// row line over column widths `ws` are `line_width(ws)` characters long.
pub proof fn lemma_lines_equal_width(cols: Seq<Column>, ws: Seq<usize>, row: Seq<Seq<char>>)
    requires
        ws.len() == cols.len(),
    ensures
        border_spec(ws).len() == line_width(ws, ws.len()),
        row_spec(cols, ws, row, cols.len()).len() == line_width(ws, ws.len()),
{
    lemma_border_len(ws);
    lemma_row_len(cols, ws, row, cols.len());
}

} // verus!
