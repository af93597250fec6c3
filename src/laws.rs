use vstd::prelude::*;

use crate::geometry::{Constraints, Extent};
use crate::table::{
    column_upto, laid_out, lemma_span_monotone, measured_heights, measured_widths, reported, row_upto, span,
    total_height, TableView,
};

verus! {

proof fn lemma_column_upto_is_max(header: u64, cells: Seq<Seq<Extent>>, c: int, n: nat)
    requires
        n <= cells.len(),
    ensures
        header <= column_upto(header, cells, c, n),
        forall|r: int| 0 <= r < n ==> (#[trigger] cells[r])[c].width <= column_upto(header, cells, c, n),
        column_upto(header, cells, c, n) == header || exists|r: int|
            0 <= r < n && column_upto(header, cells, c, n) == (#[trigger] cells[r])[c].width,
    decreases n,
{
    if n > 0 {
        lemma_column_upto_is_max(header, cells, c, (n - 1) as nat);
        let prev = column_upto(header, cells, c, (n - 1) as nat);
        if prev < cells[n - 1][c].width {
            assert(column_upto(header, cells, c, n) == cells[n - 1][c].width);
        }
    }
}

proof fn lemma_row_upto_is_max(row: Seq<Extent>, n: nat)
    requires
        n <= row.len(),
    ensures
        forall|c: int| 0 <= c < n ==> (#[trigger] row[c]).height <= row_upto(row, n),
        n == 0 ==> row_upto(row, n) == 0,
        n > 0 ==> exists|c: int| 0 <= c < n && row_upto(row, n) == (#[trigger] row[c]).height,
    decreases n,
{
    if n > 0 {
        lemma_row_upto_is_max(row, (n - 1) as nat);
        if n > 1 && row_upto(row, (n - 1) as nat) >= row[n - 1].height {
            let c = choose|c: int| 0 <= c < n - 1 && row_upto(row, (n - 1) as nat) == (#[trigger] row[c]).height;
            assert(0 <= c < n && row_upto(row, n) == row[c].height);
        } else {
            assert(row_upto(row, n) == row[n - 1].height);
        }
    }
}

/// The measured width of a column is the largest of its header's width and
/// the widths of all its cells: no smaller than any of them, and equal to one.
pub proof fn lemma_width_is_max(headers: Seq<Extent>, cells: Seq<Seq<Extent>>, c: int)
    requires
        0 <= c < headers.len(),
        forall|r: int| 0 <= r < cells.len() ==> (#[trigger] cells[r]).len() == headers.len(),
    ensures
        headers[c].width <= measured_widths(headers, cells)[c],
        forall|r: int| 0 <= r < cells.len() ==> (#[trigger] cells[r])[c].width <= measured_widths(headers, cells)[c],
        measured_widths(headers, cells)[c] == headers[c].width || exists|r: int|
            0 <= r < cells.len() && measured_widths(headers, cells)[c] == (#[trigger] cells[r])[c].width,
{
    lemma_column_upto_is_max(headers[c].width, cells, c, cells.len());
}

/// The measured height of a row is the largest height among its cells (zero
/// for a row without cells), and the header sizes play no part in it.
pub proof fn lemma_height_is_max(
    v: TableView,
    headers: Seq<Extent>,
    other_headers: Seq<Extent>,
    cells: Seq<Seq<Extent>>,
    r: int,
)
    requires
        0 <= r < cells.len(),
    ensures
        forall|c: int|
            0 <= c < cells[r].len() ==> (#[trigger] cells[r][c]).height <= measured_heights(cells)[r],
        cells[r].len() == 0 ==> measured_heights(cells)[r] == 0,
        cells[r].len() > 0 ==> exists|c: int|
            0 <= c < cells[r].len() && measured_heights(cells)[r] == (#[trigger] cells[r][c]).height,
        laid_out(v, headers, cells).row_heights == laid_out(v, other_headers, cells).row_heights,
{
    lemma_row_upto_is_max(cells[r], cells[r].len());
    let row = cells[r];
    assert forall|c: int| 0 <= c < cells[r].len() implies (#[trigger] cells[r][c]).height
        <= measured_heights(cells)[r] by {
        assert(row[c] == cells[r][c]);
    }
    if cells[r].len() > 0 {
        let c = choose|c: int| 0 <= c < row.len() && row_upto(row, row.len()) == (#[trigger] row[c]).height;
        assert(measured_heights(cells)[r] == cells[r][c].height);
    }
}

/// A second layout pass over the same measurements changes nothing: the
/// same column widths, row heights and header height, and the same reported
/// size.
pub proof fn lemma_layout_idempotent(
    v: TableView,
    bc: Constraints,
    headers: Seq<Extent>,
    cells: Seq<Seq<Extent>>,
)
    requires
        cells.len() <= v.row_heights.len(),
    ensures
        laid_out(laid_out(v, headers, cells), headers, cells) == laid_out(v, headers, cells),
        reported(laid_out(laid_out(v, headers, cells), headers, cells), bc, cells.len()) == reported(
            laid_out(v, headers, cells),
            bc,
            cells.len(),
        ),
{
    let once = laid_out(v, headers, cells);
    let twice = laid_out(once, headers, cells);
    let k = cells.len() as int;
    let rest = v.row_heights.subrange(k, v.row_heights.len() as int);
    assert(once.row_heights.subrange(k, once.row_heights.len() as int) =~= rest);
    assert(twice.row_heights =~= once.row_heights);
}

/// Spans laid end to end, each followed by `gap`, do not overlap: the span
/// at `i` ends no later than the one at `j > i` starts.
pub proof fn lemma_spans_disjoint(lens: Seq<u64>, gap: u64, i: int, j: int)
    requires
        0 <= i < j <= lens.len(),
    ensures
        span(lens, gap, i as nat) + lens[i] <= span(lens, gap, j as nat),
{
    lemma_span_monotone(lens, gap, (i + 1) as nat, j as nat);
}

/// Arranged cells do not overlap: two cells of a row occupy disjoint
/// horizontal ranges, and so do two headers; two rows occupy disjoint
/// vertical ranges, both below the header row.
pub proof fn lemma_cells_do_not_overlap(v: TableView, i: int, j: int, r1: int, r2: int)
    requires
        0 <= i < j < v.col_widths.len(),
        0 <= r1 < r2 < v.row_heights.len(),
    ensures
        span(v.col_widths, v.col_gap, i as nat) + v.col_widths[i] <= span(v.col_widths, v.col_gap, j as nat),
        span(v.col_widths, 0, i as nat) + v.col_widths[i] <= span(v.col_widths, 0, j as nat),
        total_height(v, r1 as nat) + v.row_heights[r1] <= total_height(v, r2 as nat),
        v.header_height <= total_height(v, r1 as nat),
{
    lemma_spans_disjoint(v.col_widths, v.col_gap, i, j);
    lemma_spans_disjoint(v.col_widths, 0, i, j);
    lemma_spans_disjoint(v.row_heights, v.row_gap, r1, r2);
    lemma_span_monotone(v.row_heights, v.row_gap, 0, r1 as nat);
}

} // verus!
