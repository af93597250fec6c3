use druid_simple_table::{Constraints, Extent, RowChange, Table};

fn ext(width: u64, height: u64) -> Extent {
    Extent::new(width, height)
}

fn unbounded() -> Constraints {
    Constraints::new(ext(0, 0), ext(u64::MAX, u64::MAX))
}

fn two_columns() -> Table {
    Table::new().col().col()
}

#[test]
fn new_table_has_unit_separators() {
    let t = Table::new();
    assert_eq!(t.column_count(), 0);
    assert_eq!(t.row_count(), 0);
    assert_eq!(t.gaps(), (1, 1));
    let t = t.seperator(3, 4);
    assert_eq!(t.gaps(), (3, 4));
}

#[test]
fn rows_follow_data_through_attach_grow_and_shrink() {
    let mut t = two_columns();
    let mut data = vec!["a", "bb", "ccc"];
    t.attach(data.len());
    assert_eq!(t.row_count(), 3);

    data.push("dddd");
    let change = t.update_rows(data.len());
    assert_eq!(change, RowChange::Appended(1));
    assert!(change.changed());
    assert_eq!(t.row_count(), 4);

    // Give the rows distinct heights to see which ones are retained.
    let cells: Vec<Vec<Extent>> = (0..4).map(|i| vec![ext(1, 10 + i), ext(1, 1)]).collect();
    t.layout(&unbounded(), &vec![ext(1, 1), ext(1, 1)], &cells);
    data.truncate(2);
    let change = t.update_rows(data.len());
    assert_eq!(change, RowChange::Truncated(2));
    assert_eq!(t.row_count(), 2);
    assert_eq!(t.row_height(0), 10);
    assert_eq!(t.row_height(1), 11);
}

#[test]
fn reconciling_equal_lengths_changes_nothing() {
    let mut t = two_columns();
    t.attach(2);
    let change = t.update_rows(2);
    assert_eq!(change, RowChange::Unchanged);
    assert!(!change.changed());
    assert_eq!(t.row_count(), 2);
}

#[test]
fn reconciling_to_and_from_empty() {
    let mut t = two_columns();
    assert_eq!(t.update_rows(0), RowChange::Unchanged);
    assert_eq!(t.update_rows(5), RowChange::Appended(5));
    assert_eq!(t.row_count(), 5);
    assert_eq!(t.row_height(4), 0);
    assert_eq!(t.update_rows(0), RowChange::Truncated(0));
    assert_eq!(t.row_count(), 0);
}

#[test]
fn column_width_is_widest_of_header_and_cells() {
    let mut t = Table::new().col();
    t.attach(3);
    let headers = vec![ext(50, 12)];
    let cells = vec![vec![ext(10, 5)], vec![ext(80, 5)], vec![ext(30, 5)]];
    t.layout(&unbounded(), &headers, &cells);
    assert_eq!(t.column_width(0), 80);
}

#[test]
fn header_wider_than_every_cell_sets_the_width() {
    let mut t = Table::new().col();
    t.attach(2);
    let cells = vec![vec![ext(10, 5)], vec![ext(20, 5)]];
    t.layout(&unbounded(), &vec![ext(50, 12)], &cells);
    assert_eq!(t.column_width(0), 50);
}

#[test]
fn row_height_is_tallest_cell_and_ignores_header() {
    let mut t = two_columns();
    t.attach(2);
    let headers = vec![ext(5, 99), ext(5, 7)];
    let cells = vec![vec![ext(1, 3), ext(1, 8)], vec![ext(1, 6), ext(1, 2)]];
    t.layout(&unbounded(), &headers, &cells);
    assert_eq!(t.header_height(), 99);
    assert_eq!(t.row_height(0), 8);
    assert_eq!(t.row_height(1), 6);
}

#[test]
fn layout_places_headers_and_cells() {
    let mut t = two_columns().seperator(2, 3);
    t.attach(2);
    let headers = vec![ext(10, 4), ext(20, 6)];
    let cells = vec![vec![ext(15, 5), ext(5, 7)], vec![ext(1, 9), ext(25, 1)]];
    let a = t.layout(&unbounded(), &headers, &cells);
    // widths 15 and 25, header height 6, row heights 7 and 9
    assert_eq!(a.header_xs, vec![0, 15]);
    assert_eq!(a.cell_xs, vec![0, 18]);
    assert_eq!(a.row_ys, vec![6, 15]);
    assert_eq!(a.size, ext(15 + 3 + 25 + 3, 6 + 7 + 2 + 9 + 2));
    assert_eq!(a.column_lines(), vec![18]);
    assert_eq!(a.row_ends, vec![13, 24]);
    assert_eq!(a.row_lines(), vec![13, 24]);
}

#[test]
fn reported_size_is_clamped_into_constraints() {
    let mut t = Table::new().col();
    t.attach(1);
    let headers = vec![ext(100, 10)];
    let cells = vec![vec![ext(10, 10)]];
    let bc = Constraints::new(ext(0, 200), ext(50, 300));
    let a = t.layout(&bc, &headers, &cells);
    assert_eq!(a.size, ext(50, 200));
}

#[test]
fn layout_twice_gives_the_same_result() {
    let mut t = two_columns();
    t.attach(3);
    let headers = vec![ext(10, 4), ext(20, 6)];
    let cells = vec![
        vec![ext(15, 5), ext(5, 7)],
        vec![ext(1, 9), ext(25, 1)],
        vec![ext(4, 4), ext(4, 4)],
    ];
    let bc = unbounded();
    let first = t.layout(&bc, &headers, &cells);
    let widths: Vec<u64> = (0..2).map(|c| t.column_width(c)).collect();
    let heights: Vec<u64> = (0..3).map(|r| t.row_height(r)).collect();
    let second = t.layout(&bc, &headers, &cells);
    assert_eq!(first.size, second.size);
    assert_eq!(first.cell_xs, second.cell_xs);
    assert_eq!(first.row_ys, second.row_ys);
    assert_eq!(widths, (0..2).map(|c| t.column_width(c)).collect::<Vec<u64>>());
    assert_eq!(heights, (0..3).map(|r| t.row_height(r)).collect::<Vec<u64>>());
}

#[test]
fn arranged_cells_do_not_overlap() {
    let mut t = Table::new().col().col().col().seperator(0, 0);
    t.attach(3);
    let headers = vec![ext(3, 1), ext(0, 1), ext(4, 1)];
    let cells = vec![
        vec![ext(1, 2), ext(0, 0), ext(2, 3)],
        vec![ext(5, 0), ext(0, 0), ext(1, 1)],
        vec![ext(2, 7), ext(0, 0), ext(2, 2)],
    ];
    let a = t.layout(&unbounded(), &headers, &cells);
    for c in 0..2 {
        assert!(a.cell_xs[c] + t.column_width(c) <= a.cell_xs[c + 1]);
    }
    for r in 0..2 {
        assert!(a.row_ends[r] <= a.row_ys[r + 1]);
        assert_eq!(a.row_ends[r], a.row_ys[r] + t.row_height(r));
    }
}

#[test]
fn rows_without_data_keep_their_heights() {
    let mut t = Table::new().col();
    t.attach(2);
    t.layout(&unbounded(), &vec![ext(1, 1)], &vec![vec![ext(1, 4)], vec![ext(1, 6)]]);
    assert_eq!(t.paired_rows(1), 1);
    let a = t.layout(&unbounded(), &vec![ext(1, 1)], &vec![vec![ext(1, 9)]]);
    assert_eq!(t.row_height(0), 9);
    assert_eq!(t.row_height(1), 6);
    assert_eq!(a.row_ys, vec![1]);
    assert_eq!(a.size, ext(2, 1 + 9 + 1));
}

#[test]
fn paired_rows_is_the_shorter_length() {
    let mut t = Table::new();
    t.attach(3);
    assert_eq!(t.paired_rows(5), 3);
    assert_eq!(t.paired_rows(2), 2);
}

#[test]
fn constraints_helpers() {
    let bc = Constraints::new(ext(5, 6), ext(50, 60));
    assert_eq!(bc.loosen(), Constraints::new(ext(0, 0), ext(50, 60)));
    assert_eq!(Constraints::tight(ext(7, 8)), Constraints::new(ext(7, 8), ext(7, 8)));
    assert_eq!(bc.constrain(ext(1, 100)), ext(5, 60));
    assert_eq!(bc.constrain(ext(20, 30)), ext(20, 30));
}
