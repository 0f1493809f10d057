use mnist_recognition::dataset::Dataset;
use mnist_recognition::grid::ByteGrid;

fn grid_2_by_3() -> ByteGrid {
    // Three samples of two cells: columns (1, 2), (3, 4), (5, 6).
    Dataset::vec_to_array(&vec![1, 2, 3, 4, 5, 6], 3, 2).unwrap()
}

#[test]
fn grid_reports_its_shape() {
    let grid = grid_2_by_3();
    assert_eq!(grid.nrows(), 2);
    assert_eq!(grid.ncols(), 3);
}

#[test]
fn grid_get_reads_cells_and_refuses_outside_indices() {
    let grid = grid_2_by_3();
    assert_eq!(grid.get(0, 0), Some(1));
    assert_eq!(grid.get(0, 1), Some(3));
    assert_eq!(grid.get(0, 2), Some(5));
    assert_eq!(grid.get(1, 0), Some(2));
    assert_eq!(grid.get(1, 1), Some(4));
    assert_eq!(grid.get(1, 2), Some(6));
    assert_eq!(grid.get(2, 0), None);
    assert_eq!(grid.get(0, 3), None);
}

#[test]
fn grid_row_and_column_read_across_and_down() {
    let grid = grid_2_by_3();
    assert_eq!(grid.row(0), vec![1, 3, 5]);
    assert_eq!(grid.row(1), vec![2, 4, 6]);
    assert_eq!(grid.column_cells(0), vec![1, 2]);
    assert_eq!(grid.column_cells(2), vec![5, 6]);
}

#[test]
fn grid_swap_columns_exchanges_whole_columns() {
    let mut grid = grid_2_by_3();
    grid.swap_columns(0, 2);
    assert_eq!(grid.row(0), vec![5, 3, 1]);
    assert_eq!(grid.row(1), vec![6, 4, 2]);
    assert_eq!(grid.nrows(), 2);
    assert_eq!(grid.ncols(), 3);
}

#[test]
fn grid_swap_columns_with_itself_changes_nothing() {
    let mut grid = grid_2_by_3();
    grid.swap_columns(1, 1);
    assert_eq!(grid.row(0), vec![1, 3, 5]);
    assert_eq!(grid.row(1), vec![2, 4, 6]);
}
