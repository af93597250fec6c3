use vstd::prelude::*;

use crate::geometry::{clamp, max_len, Constraints, Extent};

verus! {

/// The widest of `header` and the cells of column `c` in the first `n` rows.
pub open spec fn column_upto(header: u64, cells: Seq<Seq<Extent>>, c: int, n: nat) -> u64
    decreases n,
{
    if n == 0 {
        header
    } else {
        max_len(column_upto(header, cells, c, (n - 1) as nat), cells[n - 1][c].width)
    }
}

/// The tallest of the first `n` cells of a row (zero for none).
pub open spec fn row_upto(row: Seq<Extent>, n: nat) -> u64
    decreases n,
{
    if n == 0 {
        0
    } else {
        max_len(row_upto(row, (n - 1) as nat), row[n - 1].height)
    }
}

/// The tallest of the first `n` headers (zero for none).
pub open spec fn header_upto(headers: Seq<Extent>, n: nat) -> u64
    decreases n,
{
    if n == 0 {
        0
    } else {
        max_len(header_upto(headers, (n - 1) as nat), headers[n - 1].height)
    }
}

/// Column widths measured from header sizes and the grid of cell sizes.
pub open spec fn measured_widths(headers: Seq<Extent>, cells: Seq<Seq<Extent>>) -> Seq<u64> {
    Seq::new(headers.len(), |c: int| column_upto(headers[c].width, cells, c, cells.len()))
}

/// Row heights measured from the grid of cell sizes.
pub open spec fn measured_heights(cells: Seq<Seq<Extent>>) -> Seq<u64> {
    Seq::new(cells.len(), |r: int| row_upto(cells[r], cells[r].len()))
}

/// The header row height: the tallest header.
pub open spec fn header_height_of(headers: Seq<Extent>) -> u64 {
    header_upto(headers, headers.len())
}

/// The first `n` lengths added up, each followed by `gap`.
pub open spec fn span(lens: Seq<u64>, gap: u64, n: nat) -> int
    decreases n,
{
    if n == 0 {
        0
    } else {
        span(lens, gap, (n - 1) as nat) + lens[n - 1] + gap
    }
}

/// A grid of measured cell sizes, row by row.
pub open spec fn grid(cells: Seq<Vec<Extent>>) -> Seq<Seq<Extent>> {
    cells.map_values(|row: Vec<Extent>| row@)
}

/// The row heights after reconciling against `n` data items: trailing rows
/// dropped, or fresh rows of height zero appended.
pub open spec fn reconciled(rows: Seq<u64>, n: nat) -> Seq<u64> {
    if n <= rows.len() {
        rows.subrange(0, n as int)
    } else {
        rows + Seq::new((n - rows.len()) as nat, |i: int| 0u64)
    }
}

/// A span only grows as more lengths are taken in.
pub proof fn lemma_span_monotone(lens: Seq<u64>, gap: u64, i: nat, j: nat)
    requires
        i <= j,
    ensures
        span(lens, gap, i) <= span(lens, gap, j),
    decreases j - i,
{
    if i < j {
        lemma_span_monotone(lens, gap, i, (j - 1) as nat);
    }
}

/// A span without separators is no longer than one with them.
pub proof fn lemma_span_gap(lens: Seq<u64>, gap: u64, n: nat)
    ensures
        span(lens, 0, n) <= span(lens, gap, n),
    decreases n,
{
    if n > 0 {
        lemma_span_gap(lens, gap, (n - 1) as nat);
    }
}

/// A span reads only the lengths it takes in.
pub proof fn lemma_span_prefix(a: Seq<u64>, b: Seq<u64>, gap: u64, n: nat)
    requires
        n <= a.len(),
        n <= b.len(),
        forall|i: int| 0 <= i < n ==> a[i] == b[i],
    ensures
        span(a, gap, n) == span(b, gap, n),
    decreases n,
{
    if n > 0 {
        lemma_span_prefix(a, b, gap, (n - 1) as nat);
    }
}

/// What the table knows of its columns and rows.
pub ghost struct TableView {
    pub col_widths: Seq<u64>,
    pub row_heights: Seq<u64>,
    pub header_height: u64,
    pub row_gap: u64,
    pub col_gap: u64,
}

/// The table after a layout pass over header sizes and the cell sizes of its
/// first `cells.len()` rows; rows past those keep their heights.
pub open spec fn laid_out(v: TableView, headers: Seq<Extent>, cells: Seq<Seq<Extent>>) -> TableView {
    TableView {
        col_widths: measured_widths(headers, cells),
        row_heights: measured_heights(cells) + v.row_heights.subrange(
            cells.len() as int,
            v.row_heights.len() as int,
        ),
        header_height: header_height_of(headers),
        row_gap: v.row_gap,
        col_gap: v.col_gap,
    }
}

/// Full width: every column followed by a column separator.
pub open spec fn total_width(v: TableView) -> int {
    span(v.col_widths, v.col_gap, v.col_widths.len())
}

/// Full height over the first `k` rows: the header, then each row followed by
/// a row separator.
pub open spec fn total_height(v: TableView, k: nat) -> int {
    v.header_height + span(v.row_heights, v.row_gap, k)
}

/// The size a laid-out table reports for `k` arranged rows.
pub open spec fn reported(v: TableView, bc: Constraints, k: nat) -> Extent {
    Extent {
        width: clamp(total_width(v) as u64, bc.min.width, bc.max.width),
        height: clamp(total_height(v, k) as u64, bc.min.height, bc.max.height),
    }
}

/// Where each header, cell column and cell row is placed, and the size the
/// table occupies.
pub struct Arrangement {
    /// Left edge of each header; headers are packed without separators.
    pub header_xs: Vec<u64>,
    /// Left edge of the cells of each column.
    pub cell_xs: Vec<u64>,
    /// Top edge of the cells of each arranged row.
    pub row_ys: Vec<u64>,
    /// Bottom edge of the cells of each arranged row.
    pub row_ends: Vec<u64>,
    pub size: Extent,
}

impl Arrangement {
    /// Where vertical separators are stroked: at the left edge of every cell
    /// column but the first.
    pub fn column_lines(&self) -> (r: Vec<u64>)
        ensures
            self.cell_xs@.len() == 0 ==> r@.len() == 0,
            self.cell_xs@.len() > 0 ==> r@ == self.cell_xs@.subrange(1, self.cell_xs@.len() as int),
    {
        let mut r: Vec<u64> = Vec::new();
        let n = self.cell_xs.len();
        let mut c: usize = 1;
        while c < n
            invariant
                n == self.cell_xs@.len(),
                1 <= c,
                n > 0 ==> c <= n,
                n > 0 ==> r@ == self.cell_xs@.subrange(1, c as int),
                n == 0 ==> r@.len() == 0,
            decreases n - c,
        {
            r.push(self.cell_xs[c]);
            c = c + 1;
            assert(r@ =~= self.cell_xs@.subrange(1, c as int));
        }
        r
    }

    /// Where horizontal separators are stroked: along the bottom edge of
    /// every arranged row, the last one included.
    pub fn row_lines(&self) -> (r: Vec<u64>)
        ensures
            r@ == self.row_ends@,
    {
        self.row_ends.clone()
    }
}

/// How the row list changed when it was reconciled with the data.
#[derive(Clone, Copy, Debug, PartialEq, Eq, Structural)]
pub enum RowChange {
    Unchanged,
    /// Trailing rows were dropped, leaving this many.
    Truncated(usize),
    /// This many fresh rows were appended.
    Appended(usize),
}

impl RowChange {
    /// Whether the set of child widgets changed.
    pub fn changed(&self) -> (r: bool)
        ensures
            r == (*self != RowChange::Unchanged),
    {
        match self {
            RowChange::Unchanged => false,
            _ => true,
        }
    }
}

/// Layout bookkeeping of a table: the measured width of each column, the
/// measured height of each row, the header row height and the separator
/// thicknesses.
pub struct Table {
    col_widths: Vec<u64>,
    row_heights: Vec<u64>,
    header_height: u64,
    row_gap: u64,
    col_gap: u64,
}

impl View for Table {
    type V = TableView;

    closed spec fn view(&self) -> TableView {
        TableView {
            col_widths: self.col_widths@,
            row_heights: self.row_heights@,
            header_height: self.header_height,
            row_gap: self.row_gap,
            col_gap: self.col_gap,
        }
    }
}

impl Table {
    /// No columns, no rows, separators one unit thick.
    pub fn new() -> (t: Table)
        ensures
            t@.col_widths.len() == 0,
            t@.row_heights.len() == 0,
            t@.header_height == 0,
            t@.row_gap == 1,
            t@.col_gap == 1,
    {
        Table { col_widths: Vec::new(), row_heights: Vec::new(), header_height: 0, row_gap: 1, col_gap: 1 }
    }

    /// Sets the row and column separator thicknesses.
    pub fn seperator(self, rows: u64, cols: u64) -> (t: Table)
        ensures
            t@ == (TableView { row_gap: rows, col_gap: cols, ..self@ }),
    {
        Table { row_gap: rows, col_gap: cols, ..self }
    }

    /// Appends a column of measured width zero.
    pub fn col(self) -> (t: Table)
        ensures
            t@ == (TableView { col_widths: self@.col_widths.push(0), ..self@ }),
    {
        let mut t = self;
        t.col_widths.push(0);
        t
    }

    pub fn column_count(&self) -> (r: usize)
        ensures
            r == self@.col_widths.len(),
    {
        self.col_widths.len()
    }

    pub fn row_count(&self) -> (r: usize)
        ensures
            r == self@.row_heights.len(),
    {
        self.row_heights.len()
    }

    pub fn column_width(&self, c: usize) -> (r: u64)
        requires
            c < self@.col_widths.len(),
        ensures
            r == self@.col_widths[c as int],
    {
        self.col_widths[c]
    }

    pub fn row_height(&self, r: usize) -> (h: u64)
        requires
            r < self@.row_heights.len(),
        ensures
            h == self@.row_heights[r as int],
    {
        self.row_heights[r]
    }

    pub fn header_height(&self) -> (r: u64)
        ensures
            r == self@.header_height,
    {
        self.header_height
    }

    /// The row and column separator thicknesses.
    pub fn gaps(&self) -> (r: (u64, u64))
        ensures
            r == (self@.row_gap, self@.col_gap),
    {
        (self.row_gap, self.col_gap)
    }

    /// How many rows are paired with data items in a pass over `data_len`
    /// items: rows and items beyond the shorter list take no part.
    pub fn paired_rows(&self, data_len: usize) -> (r: usize)
        ensures
            r <= data_len,
            r <= self@.row_heights.len(),
            r == data_len || r == self@.row_heights.len(),
    {
        if self.row_heights.len() < data_len {
            self.row_heights.len()
        } else {
            data_len
        }
    }

    /// Builds one fresh row per data item, replacing any rows there were.
    pub fn attach(&mut self, data_len: usize)
        ensures
            final(self)@ == (TableView {
                row_heights: Seq::new(data_len as nat, |i: int| 0u64),
                ..old(self)@
            }),
    {
        let mut rows: Vec<u64> = Vec::new();
        let mut i: usize = 0;
        while i < data_len
            invariant
                i <= data_len,
                rows@ == Seq::new(i as nat, |j: int| 0u64),
            decreases data_len - i,
        {
            rows.push(0);
            i = i + 1;
            assert(rows@ =~= Seq::new(i as nat, |j: int| 0u64));
        }
        self.row_heights = rows;
    }

    /// Brings the number of rows to `data_len`: trailing rows are dropped, or
    /// fresh rows of height zero appended. Reports what changed.
    pub fn update_rows(&mut self, data_len: usize) -> (change: RowChange)
        ensures
            final(self)@ == (TableView {
                row_heights: reconciled(old(self)@.row_heights, data_len as nat),
                ..old(self)@
            }),
            final(self)@.row_heights.len() == data_len,
            (change == RowChange::Unchanged) == (old(self)@.row_heights.len() == data_len),
            old(self)@.row_heights.len() > data_len ==> change == RowChange::Truncated(data_len),
            old(self)@.row_heights.len() < data_len ==> change == RowChange::Appended(
                (data_len - old(self)@.row_heights.len()) as usize,
            ),
    {
        let len = self.row_heights.len();
        if len > data_len {
            self.row_heights.truncate(data_len);
            assert(self.row_heights@ =~= reconciled(old(self)@.row_heights, data_len as nat));
            RowChange::Truncated(data_len)
        } else if len < data_len {
            let ghost start = self.row_heights@;
            let mut i: usize = len;
            while i < data_len
                invariant
                    len <= i <= data_len,
                    start == old(self)@.row_heights,
                    start.len() == len,
                    self.col_widths == old(self).col_widths,
                    self.header_height == old(self).header_height,
                    self.row_gap == old(self).row_gap,
                    self.col_gap == old(self).col_gap,
                    self.row_heights@ == start + Seq::new((i - len) as nat, |j: int| 0u64),
                decreases data_len - i,
            {
                self.row_heights.push(0);
                i = i + 1;
                assert(self.row_heights@ =~= start + Seq::new((i - len) as nat, |j: int| 0u64));
            }
            RowChange::Appended(data_len - len)
        } else {
            assert(self.row_heights@ =~= reconciled(old(self)@.row_heights, data_len as nat));
            RowChange::Unchanged
        }
    }
    /// One layout pass. `headers` holds the size each header measured under
    /// loosened constraints, `cells[r][c]` the size of the cell in row `r` and
    /// column `c`, for the first `cells.len()` rows. Each column becomes as wide
    /// as its widest header or cell, each measured row as tall as its tallest
    /// cell, and the header row as tall as the tallest header. The result says
    /// where headers and cells go and the size the table reports, clamped
    /// into `bc`.
    pub fn layout(&mut self, bc: &Constraints, headers: &Vec<Extent>, cells: &Vec<Vec<Extent>>) -> (a: Arrangement)
        requires
            bc.wf(),
            headers@.len() == old(self)@.col_widths.len(),
            cells@.len() <= old(self)@.row_heights.len(),
            forall|r: int| 0 <= r < cells@.len() ==> (#[trigger] cells@[r])@.len() == headers@.len(),
            span(measured_widths(headers@, grid(cells@)), old(self)@.col_gap, headers@.len()) <= u64::MAX,
            header_height_of(headers@) + span(measured_heights(grid(cells@)), old(self)@.row_gap, cells@.len())
                <= u64::MAX,
        ensures
            final(self)@ == laid_out(old(self)@, headers@, grid(cells@)),
            a.header_xs@.len() == headers@.len(),
            a.cell_xs@.len() == headers@.len(),
            a.row_ys@.len() == cells@.len(),
            a.row_ends@.len() == cells@.len(),
            forall|c: int| 0 <= c < headers@.len() ==> a.header_xs@[c] == span(final(self)@.col_widths, 0, c as nat),
            forall|c: int|
                0 <= c < headers@.len() ==> a.cell_xs@[c] == span(final(self)@.col_widths, final(self)@.col_gap, c as nat),
            forall|r: int|
                0 <= r < cells@.len() ==> a.row_ys@[r] == total_height(final(self)@, r as nat),
            forall|r: int|
                0 <= r < cells@.len() ==> a.row_ends@[r] == total_height(final(self)@, r as nat)
                    + final(self)@.row_heights[r],
            a.size == reported(final(self)@, *bc, cells@.len()),
    {
        let ghost g = grid(cells@);
        let ghost v0 = self@;
        let n = headers.len();
        let k = cells.len();

        // Headers: each column starts as wide as its header.
        let mut widths: Vec<u64> = Vec::new();
        let mut header_h: u64 = 0;
        let mut c: usize = 0;
        while c < n
            invariant
                n == headers@.len(),
                c <= n,
                widths@.len() == c,
                forall|j: int| 0 <= j < c ==> widths@[j] == column_upto(headers@[j].width, g, j, 0),
                header_h == header_upto(headers@, c as nat),
            decreases n - c,
        {
            widths.push(headers[c].width);
            if headers[c].height > header_h {
                header_h = headers[c].height;
            }
            c = c + 1;
        }

        // Cells: running maxima over columns and over each row.
        let mut r: usize = 0;
        while r < k
            invariant
                n == headers@.len(),
                k == cells@.len(),
                g == grid(cells@),
                k <= self.row_heights@.len(),
                r <= k,
                widths@.len() == n,
                forall|i: int| 0 <= i < k ==> (#[trigger] cells@[i])@.len() == n,
                forall|j: int| 0 <= j < n ==> widths@[j] == column_upto(headers@[j].width, g, j, r as nat),
                self.row_heights@.len() == v0.row_heights.len(),
                forall|i: int| 0 <= i < r ==> self.row_heights@[i] == measured_heights(g)[i],
                forall|i: int| r <= i < v0.row_heights.len() ==> self.row_heights@[i] == v0.row_heights[i],
                self.col_widths == old(self).col_widths,
                self.header_height == old(self).header_height,
                self.row_gap == old(self).row_gap,
                self.col_gap == old(self).col_gap,
            decreases k - r,
        {
            let row = &cells[r];
            assert(g[r as int] == row@);
            let mut h: u64 = 0;
            let mut c: usize = 0;
            while c < n
                invariant
                    n == headers@.len(),
                    row@.len() == n,
                    g[r as int] == row@,
                    r < k,
                    k == g.len(),
                    c <= n,
                    widths@.len() == n,
                    forall|j: int| 0 <= j < c ==> widths@[j] == column_upto(headers@[j].width, g, j, (r + 1) as nat),
                    forall|j: int| c <= j < n ==> widths@[j] == column_upto(headers@[j].width, g, j, r as nat),
                    h == row_upto(row@, c as nat),
                decreases n - c,
            {
                let cell = row[c];
                if cell.width > widths[c] {
                    widths[c] = cell.width;
                }
                if cell.height > h {
                    h = cell.height;
                }
                c = c + 1;
            }
            self.row_heights[r] = h;
            r = r + 1;
        }
        assert(widths@ =~= measured_widths(headers@, g));
        assert(self.row_heights@ =~= measured_heights(g) + v0.row_heights.subrange(k as int, v0.row_heights.len() as int));
        self.col_widths = widths;
        self.header_height = header_h;
        assert(self@ == laid_out(v0, headers@, g));

        // Headers are packed edge to edge; cells leave a column separator.
        let col_gap = self.col_gap;
        let mut header_xs: Vec<u64> = Vec::new();
        let mut cell_xs: Vec<u64> = Vec::new();
        let mut hx: u64 = 0;
        let mut cx: u64 = 0;
        let mut c: usize = 0;
        while c < n
            invariant
                n == self.col_widths@.len(),
                col_gap == self.col_gap,
                c <= n,
                span(self.col_widths@, col_gap, n as nat) <= u64::MAX,
                hx == span(self.col_widths@, 0, c as nat),
                cx == span(self.col_widths@, col_gap, c as nat),
                header_xs@.len() == c,
                cell_xs@.len() == c,
                forall|j: int| 0 <= j < c ==> header_xs@[j] == span(self.col_widths@, 0, j as nat),
                forall|j: int| 0 <= j < c ==> cell_xs@[j] == span(self.col_widths@, col_gap, j as nat),
            decreases n - c,
        {
            proof {
                lemma_span_monotone(self.col_widths@, col_gap, (c + 1) as nat, n as nat);
                lemma_span_gap(self.col_widths@, col_gap, (c + 1) as nat);
            }
            header_xs.push(hx);
            cell_xs.push(cx);
            hx = hx + self.col_widths[c];
            cx = cx + self.col_widths[c] + col_gap;
            c = c + 1;
        }

        // Rows start below the header and leave a row separator.
        proof {
            lemma_span_prefix(self.row_heights@, measured_heights(g), self.row_gap, k as nat);
        }
        let row_gap = self.row_gap;
        let mut row_ys: Vec<u64> = Vec::new();
        let mut row_ends: Vec<u64> = Vec::new();
        let mut y: u64 = header_h;
        let mut r: usize = 0;
        while r < k
            invariant
                k <= self.row_heights@.len(),
                row_gap == self.row_gap,
                header_h == self.header_height,
                r <= k,
                total_height(self@, k as nat) <= u64::MAX,
                y == total_height(self@, r as nat),
                row_ys@.len() == r,
                row_ends@.len() == r,
                forall|i: int| 0 <= i < r ==> row_ys@[i] == total_height(self@, i as nat),
                forall|i: int|
                    0 <= i < r ==> row_ends@[i] == total_height(self@, i as nat) + self@.row_heights[i],
            decreases k - r,
        {
            proof {
                lemma_span_monotone(self.row_heights@, row_gap, (r + 1) as nat, k as nat);
            }
            row_ys.push(y);
            row_ends.push(y + self.row_heights[r]);
            y = y + self.row_heights[r] + row_gap;
            r = r + 1;
        }
        let size = bc.constrain(Extent { width: cx, height: y });
        Arrangement { header_xs, cell_xs, row_ys, row_ends, size }
    }
}

} // verus!
