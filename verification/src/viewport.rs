//! Which part of a buffer a window shows.
//!
//! A window shows so many rows and so many columns of a buffer, from an
//! offset on. The offset follows the cursor: it moves as little as it takes
//! to keep the cursor among what is shown.

use crate::edit::cursor::Cursor;
use vstd::prelude::*;

verus! {

/// How the rows are numbered at the side.
#[derive(Debug, Clone, Copy, PartialEq, Eq, Structural)]
pub enum LineNumberMode {
    /// The cursor's row by its number, the others by their distance from it.
    Relative,
    /// Every row by its number.
    Absolute,
}

impl Default for LineNumberMode {
    fn default() -> (m: Self)
        ensures
            m == LineNumberMode::Relative,
    {
        LineNumberMode::Relative
    }
}

/// The number to show beside row `row`, the cursor being on row `current`.
/// Rows are counted from 0 and numbered from 1.
pub open spec fn line_number_of(mode: LineNumberMode, row: int, current: int) -> int {
    if mode == LineNumberMode::Absolute || row == current {
        row + 1
    } else if row < current {
        current - row
    } else {
        row - current
    }
}

pub fn line_number(mode: LineNumberMode, row: usize, current: usize) -> (n: usize)
    requires
        row < usize::MAX,
    ensures
        n == line_number_of(mode, row as int, current as int),
{
    match mode {
        LineNumberMode::Absolute => row + 1,
        LineNumberMode::Relative => if row == current {
            row + 1
        } else if row < current {
            current - row
        } else {
            row - current
        },
    }
}

/// The offset along one axis after it has followed the cursor: `at` is where
/// the cursor is, `offset` the first row or column shown, `visible` how many
/// are shown. A cursor at or past the far edge pulls the offset up until the
/// cursor is the last one shown; a cursor before the offset pulls the offset
/// back onto it.
pub open spec fn followed(offset: int, at: int, visible: int) -> int {
    if at - offset >= visible {
        at - visible + 1
    } else if at < offset {
        at
    } else {
        offset
    }
}

/// The rows that are shown, as a range of line numbers: from the offset on,
/// as many as are visible, and no more than there are.
pub open spec fn shown_rows(offset: int, visible: int, total: int) -> (int, int) {
    let from = if offset < total { offset } else { total };
    let to = if from + visible < total { from + visible } else { total };
    (from, to)
}

/// The offset of what a window shows of its buffer.
#[derive(Debug, Clone, Copy)]
pub struct Viewport {
    offset: Cursor,
}

impl View for Viewport {
    type V = Cursor;

    closed spec fn view(&self) -> Cursor {
        self.offset
    }
}

impl Viewport {
    /// The offset is not before the start of the buffer.
    pub open spec fn wf(&self) -> bool {
        self@.x >= 0 && self@.y >= 0
    }

    /// A viewport at the start of the buffer.
    pub fn new() -> (v: Self)
        ensures
            v@ == (Cursor { x: 0, y: 0 }),
            v.wf(),
    {
        Viewport { offset: Cursor { x: 0, y: 0 } }
    }

    pub fn offset(&self) -> (c: Cursor)
        ensures
            c == self@,
    {
        self.offset
    }

    /// Where the cursor is within what is shown.
    pub fn virt(&self, cursor: Cursor) -> (c: Cursor)
        requires
            self.wf(),
            cursor.x >= 0,
            cursor.y >= 0,
        ensures
            c.x == cursor.x - self@.x,
            c.y == cursor.y - self@.y,
    {
        Cursor { x: cursor.x - self.offset.x, y: cursor.y - self.offset.y }
    }

    /// Lets the offset follow the cursor, along both axes.
    pub fn follow(&mut self, cursor: Cursor, lines_visible: usize, chars_visible: usize)
        requires
            old(self).wf(),
            0 <= cursor.x < isize::MAX,
            0 <= cursor.y < isize::MAX,
        ensures
            final(self)@.x == followed(old(self)@.x as int, cursor.x as int, chars_visible as int),
            final(self)@.y == followed(old(self)@.y as int, cursor.y as int, lines_visible as int),
            final(self).wf(),
    {
        self.offset.y = follow_axis(self.offset.y, cursor.y, lines_visible);
        self.offset.x = follow_axis(self.offset.x, cursor.x, chars_visible);
    }

    /// The rows that are shown, of `total`: the first and one past the last.
    pub fn rows(&self, lines_visible: usize, total: usize) -> (r: (usize, usize))
        requires
            self.wf(),
        ensures
            (r.0 as int, r.1 as int) == shown_rows(self@.y as int, lines_visible as int, total as int),
            r.0 <= r.1 <= total,
    {
        let y = self.offset.y as usize;
        let from: usize = if y < total { y } else { total };
        let to: usize = if lines_visible < total - from { from + lines_visible } else { total };
        (from, to)
    }
}

fn follow_axis(offset: isize, at: isize, visible: usize) -> (r: isize)
    requires
        0 <= offset,
        0 <= at < isize::MAX,
    ensures
        r == followed(offset as int, at as int, visible as int),
        0 <= r,
{
    if at >= offset && (at - offset) as usize >= visible {
        // the cursor is at or past the far edge: always move by at least one
        at - (visible as isize) + 1
    } else if at < offset {
        at
    } else {
        offset
    }
}

} // verus!
