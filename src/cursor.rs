//! The text-grid location used by the cursor and font entry points.
use vstd::prelude::*;

verus! {

/// A location on the text grid: a row and a column, each one byte wide.
#[derive(Clone, Copy, Debug, PartialEq, Eq, Structural)]
pub struct CursorPosition {
    pub row: u8,
    pub column: u8,
}

/// The value that a one-byte field keeps of a wider native integer: its low
/// eight bits.
pub open spec fn low_byte(x: int) -> int {
    x % 256
}

impl CursorPosition {
    /// Assembles a position from the two scalar locations that the firmware's
    /// cursor query fills, keeping the low byte of each.
    pub fn from_native(row: usize, column: usize) -> (r: CursorPosition)
        ensures
            r.row as int == low_byte(row as int),
            r.column as int == low_byte(column as int),
    {
        let r8: u8 = (row % 256) as u8;
        let c8: u8 = (column % 256) as u8;
        CursorPosition { row: r8, column: c8 }
    }

    /// The arguments the font drawing entry points take for this position:
    /// the column first, widened to sixteen bits, then the row.
    pub fn text_origin(&self) -> (r: (u16, u8))
        ensures
            r.0 as int == self.column as int,
            r.1 == self.row,
    {
        (self.column as u16, self.row)
    }
}

} // verus!
