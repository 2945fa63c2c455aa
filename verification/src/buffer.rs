//! The buffer of measured bits: one bit for each position of the grid, row
//! by row.

use vstd::prelude::*;

verus! {

/// A qubit or a measurement slot: a position on the grid, `(x, y)`.
pub type Position = (u32, u32);

/// The measured bits of a grid, row by row.
#[derive(Debug, PartialEq, Eq)]
pub struct MitouOscBuffer(Vec<bool>, usize);

/// What became of one step of reading results into a buffer.
#[derive(Clone, Copy, Debug, PartialEq, Eq, Structural)]
pub enum Received {
    /// A bit was stored; more may follow.
    More,
    /// The end marker came: the batch is complete.
    Done,
    /// The queue of results was closed before the end marker came.
    Broken,
}

impl MitouOscBuffer {
    /// The bits, row by row.
    pub closed spec fn bits(&self) -> Seq<bool> {
        self.0@
    }

    /// The length of a row.
    pub closed spec fn width(&self) -> nat {
        self.1 as nat
    }

    /// Where the bit of a position lies among the bits.
    pub open spec fn index_of(&self, pos: Position) -> int {
        self.width() * pos.1 + pos.0
    }

    /// Whether the buffer has a bit for the position.
    pub open spec fn holds(&self, pos: Position) -> bool {
        self.index_of(pos) < self.bits().len()
    }

    /// A buffer of clear bits for a grid of the given width and height,
    /// whose number of positions is itself a 32-bit number.
    pub fn new(width: u32, height: u32) -> (buf: MitouOscBuffer)
        requires
            width * height <= u32::MAX,
        ensures
            buf.width() == width,
            buf.bits() == Seq::new((width * height) as nat, |i: int| false),
    {
        let cells: u32 = width * height;
        let bits: Vec<bool> = vec![false; cells as usize];
        assert(bits@ == Seq::new((width * height) as nat, |i: int| false));
        MitouOscBuffer(bits, width as usize)
    }

    /// Whether the buffer has a bit for the position.
    pub fn contains(&self, pos: Position) -> (b: bool)
        ensures
            b == self.holds(pos),
    {
        assert(self.1 * pos.1 <= 0xffff_ffff_ffff_ffff * 0xffff_ffff) by (nonlinear_arith)
            requires
                0 <= self.1 <= 0xffff_ffff_ffff_ffff,
                0 <= pos.1 <= 0xffff_ffff,
        ;
        let row: u128 = (self.1 as u128) * (pos.1 as u128);
        row + (pos.0 as u128) < (self.0.len() as u128)
    }

    /// The measured bit of a slot that the buffer has.
    pub fn get(&self, pos: Position) -> (bit: bool)
        requires
            self.holds(pos),
        ensures
            bit == self.bits()[self.index_of(pos)],
    {
        let (x, y) = pos;
        let n: usize = self.0.len();
        assert(0 <= self.1 * y) by (nonlinear_arith)
            requires
                0 <= self.1,
                0 <= y,
        ;
        assert(self.1 * y + x < n);
        self.0[self.1 * (y as usize) + (x as usize)]
    }

    /// Stores the measured bit of a slot that the buffer has.
    pub fn set(&mut self, pos: Position, bit: bool)
        requires
            old(self).holds(pos),
        ensures
            final(self).width() == old(self).width(),
            final(self).bits() == old(self).bits().update(old(self).index_of(pos), bit),
    {
        let (x, y) = pos;
        assert(0 <= y * self.1 && y * self.1 == self.1 * y) by (nonlinear_arith)
            requires
                0 <= self.1,
                0 <= y,
        ;
        let n: usize = self.0.len();
        assert(x + y * self.1 < n);
        let at: usize = (x as usize) + (y as usize) * self.1;
        self.0.set(at, bit);
    }
}

} // verus!
