use maze_grid::grid::{Grid, GridError};

#[test]
fn new_fills_all_cells() {
    let g: Grid<u32> = Grid::new(3, 4, 7).unwrap();
    assert_eq!(g.width(), 3);
    assert_eq!(g.height(), 4);
    for y in 0..4 {
        for x in 0..3 {
            assert_eq!(*g.get(x, y).unwrap(), 7);
        }
    }
}

#[test]
fn new_rejects_zero_dimension() {
    assert_eq!(Grid::<u32>::new(0, 5, 1).unwrap_err(), GridError::InvalidDimension);
    assert_eq!(Grid::<u32>::new(5, 0, 1).unwrap_err(), GridError::InvalidDimension);
    assert_eq!(Grid::<u32>::new(0, 0, 1).unwrap_err(), GridError::InvalidDimension);
}

#[test]
fn access_out_of_bounds_fails() {
    let mut g: Grid<u8> = Grid::new(3, 2, 0).unwrap();
    assert_eq!(g.get(3, 0).unwrap_err(), GridError::OutOfBounds);
    assert_eq!(g.get(0, 2).unwrap_err(), GridError::OutOfBounds);
    assert_eq!(g.get(17, 99).unwrap_err(), GridError::OutOfBounds);
    assert_eq!(g.set(3, 0, 1).unwrap_err(), GridError::OutOfBounds);
    assert_eq!(g.set(0, 2, 1).unwrap_err(), GridError::OutOfBounds);
    assert_eq!(g.row(2).unwrap_err(), GridError::OutOfBounds);
    // a failed write leaves everything in place
    for y in 0..2 {
        for x in 0..3 {
            assert_eq!(*g.get(x, y).unwrap(), 0);
        }
    }
}

#[test]
fn read_after_write() {
    let mut g: Grid<u32> = Grid::new(4, 4, 0).unwrap();
    g.set(1, 2, 55).unwrap();
    assert_eq!(*g.get(1, 2).unwrap(), 55);
    *g.get_mut(3, 0) = 77;
    assert_eq!(*g.get(3, 0).unwrap(), 77);
    // neighbours keep their values
    assert_eq!(*g.get(2, 2).unwrap(), 0);
    assert_eq!(*g.get(1, 1).unwrap(), 0);
}

#[test]
fn rows_are_row_major() {
    let mut g: Grid<usize> = Grid::new(3, 2, 0).unwrap();
    for y in 0..2 {
        for x in 0..3 {
            g.set(x, y, y * 3 + x).unwrap();
        }
    }
    // the n-th row holds the cells at y = n, in increasing x order
    let rows = g.rows();
    assert_eq!(rows.len(), 2);
    for y in 0..2 {
        assert_eq!(rows[y], vec![y * 3, y * 3 + 1, y * 3 + 2]);
        assert_eq!(g.row(y).unwrap(), rows[y]);
    }
    // concatenating the rows reproduces the linear layout exactly
    let flat: Vec<usize> = rows.into_iter().flatten().collect();
    assert_eq!(flat, vec![0, 1, 2, 3, 4, 5]);
}

#[test]
fn set_row_overwrites_one_row() {
    let mut g: Grid<u32> = Grid::new(3, 3, 0).unwrap();
    g.set_row(1, &vec![4, 5, 6]).unwrap();
    assert_eq!(g.row(1).unwrap(), vec![4, 5, 6]);
    assert_eq!(g.row(0).unwrap(), vec![0, 0, 0]);
    assert_eq!(g.row(2).unwrap(), vec![0, 0, 0]);
    assert_eq!(g.set_row(3, &vec![1, 2, 3]).unwrap_err(), GridError::OutOfBounds);
    assert_eq!(g.set_row(0, &vec![1, 2]).unwrap_err(), GridError::InvalidDimension);
    assert_eq!(g.row(0).unwrap(), vec![0, 0, 0]);
}

#[test]
fn fill_overwrites_every_cell() {
    let mut g: Grid<i64> = Grid::new(5, 3, -1).unwrap();
    g.set(0, 0, 10).unwrap();
    g.set(4, 2, 20).unwrap();
    g.set(2, 1, 30).unwrap();
    g.fill(9);
    for y in 0..3 {
        for x in 0..5 {
            assert_eq!(*g.get(x, y).unwrap(), 9);
        }
    }
    assert_eq!(g.width(), 5);
    assert_eq!(g.height(), 3);
}

#[test]
fn bool_grid_scenario() {
    let mut g: Grid<bool> = Grid::new(4, 3, false).unwrap();
    assert_eq!(g.width(), 4);
    assert_eq!(g.height(), 3);
    g.set(2, 1, true).unwrap();
    assert_eq!(*g.get(2, 1).unwrap(), true);
    let mut falses = 0;
    for y in 0..3 {
        for x in 0..4 {
            if (x, y) != (2, 1) {
                assert_eq!(*g.get(x, y).unwrap(), false);
                falses += 1;
            }
        }
    }
    assert_eq!(falses, 11);
}
