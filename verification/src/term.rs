//! The geometry of the terminal that the program under test runs in.

use vstd::prelude::*;

verus! {

/// Size of the terminal in character cells, and of one cell in pixels.
pub struct SizeInfo {
    /// The number of rows.
    pub lines: usize,
    /// The number of columns.
    pub cols: usize,
    /// Width of a cell in pixels.
    pub width: usize,
    /// Height of a cell in pixels.
    pub height: usize,
}

impl SizeInfo {
    /// A terminal of `cols` columns and `lines` rows, with cells of 10 by 5
    /// pixels.
    pub fn new(cols: usize, lines: usize) -> (size: Self)
        ensures
            size == (SizeInfo { lines, cols, width: 10, height: 5 }),
    {
        Self { lines, cols, width: 10, height: 5 }
    }

    /// The number of rows.
    pub fn lines(&self) -> (r: (usize, ()))
        ensures
            r == (self.lines, ()),
    {
        (self.lines, ())
    }

    /// The number of columns.
    pub fn cols(&self) -> (r: (usize, ()))
        ensures
            r == (self.cols, ()),
    {
        (self.cols, ())
    }
}

} // verus!
