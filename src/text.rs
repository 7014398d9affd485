//! Line wrapping for text shown on the display, which does not wrap by
//! itself.
use vstd::prelude::*;

verus! {

/// Characters counted on a line before a line break is forced.
pub const WRAP_COLUMNS: u32 = 26;

/// The column count after `c` when it was `col` before.
pub open spec fn counted(col: u32, c: char) -> int {
    if c == '\n' {
        0
    } else {
        col + 1
    }
}

/// Decides, one character at a time, where line breaks go.
///
/// It counts the characters since the last line break of the text or the
/// last forced one; when the count reaches `WRAP_COLUMNS`, a break goes in
/// front of the character and the count starts again from zero.
pub struct LineWrapper {
    column: u32,
}

impl LineWrapper {
    #[verifier::type_invariant]
    spec fn inv(self) -> bool {
        self.column < WRAP_COLUMNS
    }

    /// Characters counted on the current line.
    pub closed spec fn column(&self) -> u32 {
        self.column
    }

    /// A wrapper at the start of a line.
    pub fn new() -> (r: LineWrapper)
        ensures
            r.column() == 0,
    {
        LineWrapper { column: 0 }
    }

    /// Takes the next character of the text; returns whether a line break
    /// goes in front of it.
    pub fn feed(&mut self, c: char) -> (brk: bool)
        ensures
            brk == (counted(old(self).column(), c) >= WRAP_COLUMNS),
            final(self).column() == if brk {
                0
            } else {
                counted(old(self).column(), c)
            },
            final(self).column() < WRAP_COLUMNS,
    {
        proof {
            use_type_invariant(&*self);
        }
        let next: u32 = if c == '\n' {
            0
        } else {
            self.column + 1
        };
        if next >= WRAP_COLUMNS {
            *self = LineWrapper { column: 0 };
            true
        } else {
            *self = LineWrapper { column: next };
            false
        }
    }
}

} // verus!
