use game_of_life::grid::Grid;

#[test]
fn init() {
    let height = 3;
    let width = 4;
    let grid = Grid::new(height, width);

    assert_eq!(grid.height(), height);
    assert_eq!(grid.width(), width);
}

#[test]
fn new_zero_height() {
    let grid = Grid::new(0, 4);
    assert_eq!(grid.height(), 0);
    assert_eq!(grid.width(), 0);
}

#[test]
fn new_zero_width() {
    let grid = Grid::new(5, 0);
    assert_eq!(grid.height(), 5);
    assert_eq!(grid.width(), 0);
}

#[test]
fn new_cells_are_uninitialized() {
    let grid = Grid::new(2, 3);
    for y in 0..2 {
        for x in 0..3 {
            assert_eq!(grid.get(x, y), None);
        }
    }
}

#[test]
fn set_then_get() {
    let mut grid = Grid::new(2, 2);
    grid.set(1, 0, Some(true));
    assert_eq!(grid.get(1, 0), Some(true));
    assert_eq!(grid.get(0, 0), None);
    assert_eq!(grid.get(0, 1), None);
    assert_eq!(grid.get(1, 1), None);
}

#[test]
fn clone_copies_cells() {
    let mut grid = Grid::new(2, 2);
    grid.set(0, 1, Some(true));
    let copy = grid.clone();
    assert_eq!(copy.get(0, 1), Some(true));
    assert_eq!(copy.get(1, 1), None);
    assert_eq!(copy.height(), 2);
    assert_eq!(copy.width(), 2);
}

#[test]
fn shade_cell_exact_first_half() {
    // iteration 10: offset is 10; bases are 2 + 3, 2 * 3, and 1.
    assert_eq!(Grid::shade_cell(2, 3, 10), (25, 28, 13));
}

#[test]
fn shade_cell_exact_second_half() {
    // iteration 200: 200 % 256 > 128, so offset is 128 - 200 % 129 = 57.
    assert_eq!(Grid::shade_cell(0, 0, 200), (57, 57, 60));
}

#[test]
fn shade_cell_periodic_in_first_half() {
    assert_eq!(Grid::shade_cell(2, 3, 100), Grid::shade_cell(2, 3, 356));
    assert_eq!(Grid::shade_cell(7, 1, 0), Grid::shade_cell(7, 1, 256));
}

#[test]
fn shade_cell_symmetric_about_midpoint() {
    // the offset at 128 + d equals the offset at 129 - d
    assert_eq!(Grid::shade_cell(7, 9, 130), Grid::shade_cell(7, 9, 127));
    assert_eq!(Grid::shade_cell(4, 5, 255), Grid::shade_cell(4, 5, 2));
}
