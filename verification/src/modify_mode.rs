use vstd::prelude::*;

verus! {

/// The edit-mode state: a cursor position over the grid, as (column, row).
pub struct ModifyMode {
    pub cursor_coord: (usize, usize),
}

impl ModifyMode {
    /// A cursor at the given position.
    pub fn new(x: usize, y: usize) -> (r: ModifyMode)
        ensures
            r.cursor_coord == (x, y),
    {
        ModifyMode { cursor_coord: (x, y) }
    }
}

impl Default for ModifyMode {
    /// The cursor starts at (1, 1).
    fn default() -> (r: Self)
        ensures
            r.cursor_coord == (1usize, 1usize),
    {
        ModifyMode::new(1, 1)
    }
}

} // verus!
