use vstd::prelude::*;

verus! {

/// How many cells a fresh tape holds.
pub const DEFAULT_TAP_SIZE: usize = 10;

/// Which way the tape cursor moves.
pub enum Direction {
    Right,
    Left,
}

/// The byte tape: a growable sequence of cells and a cursor that always
/// addresses a valid cell. Moving past either end grows the tape by one
/// zero cell, so no move can ever leave the cursor out of range.
#[derive(Debug)]
pub struct Tape {
    cursor: usize,
    tape: Vec<u8>,
}

impl Tape {
    /// The cells as a sequence of bytes.
    pub closed spec fn cells(&self) -> Seq<u8> {
        self.tape@
    }

    /// The cursor as a position into `cells`.
    pub closed spec fn pos(&self) -> int {
        self.cursor as int
    }

    /// The cursor addresses a valid cell.
    pub open spec fn wf(&self) -> bool {
        0 <= self.pos() < self.cells().len()
    }

    /// A getter for the cursor position, so that callers outside the
    /// proofs can observe where the tape stands.
    pub fn cursor(&self) -> (cursor: usize)
        ensures
            cursor == self.pos(),
    {
        self.cursor
    }

    /// Moves the cursor one cell. Moving left of the start prepends a
    /// zero cell and leaves the cursor on it; moving right past the end
    /// appends a zero cell.
    pub fn move_cursor(&mut self, direction: Direction)
        requires
            old(self).wf(),
        ensures
            final(self).wf(),
            direction is Left && old(self).pos() == 0 ==> final(self).cells() == seq![0u8]
                + old(self).cells() && final(self).pos() == 0,
            direction is Left && old(self).pos() > 0 ==> final(self).cells() == old(self).cells()
                && final(self).pos() == old(self).pos() - 1,
            direction is Right && old(self).pos() + 1 == old(self).cells().len()
                ==> final(self).cells() == old(self).cells().push(0u8)
                && final(self).pos() == old(self).pos() + 1,
            direction is Right && old(self).pos() + 1 < old(self).cells().len()
                ==> final(self).cells() == old(self).cells()
                && final(self).pos() == old(self).pos() + 1,
    {
        match direction {
            Direction::Left => {
                if self.cursor == 0 {
                    self.tape.insert(0, 0);
                    proof {
                        assert(self.tape@ =~= seq![0u8] + old(self).tape@);
                    }
                } else {
                    self.cursor = self.cursor - 1;
                }
            },
            Direction::Right => {
                let len = self.tape.len();
                self.cursor = self.cursor + 1;
                if self.cursor >= len {
                    self.tape.push(0);
                }
            },
        }
    }

    /// Reads the cell under the cursor.
    pub fn get(&self) -> (value: u8)
        requires
            self.wf(),
        ensures
            value == self.cells()[self.pos()],
    {
        self.tape[self.cursor]
    }

    /// Writes the cell under the cursor.
    pub fn set(&mut self, value: u8)
        requires
            old(self).wf(),
        ensures
            final(self).wf(),
            final(self).cells() == old(self).cells().update(old(self).pos(), value),
            final(self).pos() == old(self).pos(),
    {
        self.tape[self.cursor] = value;
    }
}

impl Default for Tape {
    /// A fresh tape: all cells zero, cursor at the origin.
    fn default() -> (tape: Tape)
        ensures
            tape.wf(),
            tape.cells() == Seq::new(DEFAULT_TAP_SIZE as nat, |i: int| 0u8),
            tape.pos() == 0,
    {
        let tape = Tape { cursor: 0, tape: vec![0u8; DEFAULT_TAP_SIZE] };
        proof {
            assert(tape.tape@ =~= Seq::new(DEFAULT_TAP_SIZE as nat, |i: int| 0u8));
        }
        tape
    }
}

} // verus!
