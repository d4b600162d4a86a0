//! Cursor positions.

use vstd::prelude::*;

verus! {

/// A position in a buffer: `x` is the column, `y` the line. Both are signed,
/// so that a step past the first line or column can be written down before it
/// is clamped.
#[derive(Debug, Clone, Copy, PartialEq, Eq, Structural, Hash)]
pub struct Cursor {
    pub x: isize,
    pub y: isize,
}

/// A stretch of text from the cursor to `target`.
#[derive(Debug, Clone)]
pub struct Selection {
    target: Cursor,
}

impl Cursor {
    pub fn new(x: isize, y: isize) -> (c: Self)
        ensures
            c == (Cursor { x, y }),
    {
        Self { x, y }
    }
}

impl Default for Cursor {
    fn default() -> (c: Self)
        ensures
            c == (Cursor { x: 0, y: 0 }),
    {
        Cursor { x: 0, y: 0 }
    }
}

impl From<(isize, isize)> for Cursor {
    fn from(value: (isize, isize)) -> (c: Self) {
        Cursor::new(value.0, value.1)
    }
}

impl vstd::std_specs::convert::FromSpecImpl<(isize, isize)> for Cursor {
    open spec fn obeys_from_spec() -> bool {
        true
    }

    open spec fn from_spec(value: (isize, isize)) -> Self {
        Cursor { x: value.0, y: value.1 }
    }
}

impl core::ops::Add for Cursor {
    type Output = Cursor;

    fn add(self, rhs: Cursor) -> (c: Cursor) {
        Cursor::new(self.x + rhs.x, self.y + rhs.y)
    }
}

impl vstd::std_specs::ops::AddSpecImpl for Cursor {
    open spec fn obeys_add_spec() -> bool {
        true
    }

    open spec fn add_req(self, rhs: Cursor) -> bool {
        &&& isize::MIN <= self.x + rhs.x <= isize::MAX
        &&& isize::MIN <= self.y + rhs.y <= isize::MAX
    }

    open spec fn add_spec(self, rhs: Cursor) -> Cursor {
        Cursor { x: (self.x + rhs.x) as isize, y: (self.y + rhs.y) as isize }
    }
}

impl core::ops::Sub for Cursor {
    type Output = Cursor;

    fn sub(self, rhs: Cursor) -> (c: Cursor) {
        Cursor::new(self.x - rhs.x, self.y - rhs.y)
    }
}

impl vstd::std_specs::ops::SubSpecImpl for Cursor {
    open spec fn obeys_sub_spec() -> bool {
        true
    }

    open spec fn sub_req(self, rhs: Cursor) -> bool {
        &&& isize::MIN <= self.x - rhs.x <= isize::MAX
        &&& isize::MIN <= self.y - rhs.y <= isize::MAX
    }

    open spec fn sub_spec(self, rhs: Cursor) -> Cursor {
        Cursor { x: (self.x - rhs.x) as isize, y: (self.y - rhs.y) as isize }
    }
}

} // verus!
