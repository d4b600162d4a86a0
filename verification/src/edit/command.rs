//! Commands made of several buffer operations, as keys are bound to them.

use crate::edit::buffer::Buffer;
use crate::edit::model::BufferModel;
use crate::text::limit;
use vstd::prelude::*;

verus! {

/// What the tab key inserts: four spaces.
pub open spec fn tab() -> Seq<char> {
    seq![' ', ' ', ' ', ' ']
}

impl BufferModel {
    /// The character before the cursor taken out: a step to the left, then
    /// the character under the cursor deleted. A cursor that stood past the
    /// end of its row stands there again.
    pub open spec fn backspace(self) -> Self {
        let cut = self.move_left().delete_char();
        if self.append {
            cut.move_append_end_line()
        } else {
            cut
        }
    }

    /// Four spaces inserted at the cursor, and the cursor moved past them.
    pub open spec fn insert_tab(self) -> Self {
        self.insert_string(tab()).move_right().move_right().move_right().move_right()
    }

    /// An empty row put in below the cursor's row, and the cursor moved onto
    /// it.
    pub open spec fn open_below(self) -> Self {
        self.newline_below().move_down()
    }

    /// The cursor moved behind the character that it is on, which from the
    /// last character of a row is the column past the end.
    pub open spec fn append_after(self) -> Self {
        if self.x + 1 >= self.row().len() {
            self.move_append_end_line()
        } else {
            self.move_right()
        }
    }
}

impl Buffer {
    /// Deletes the character before the cursor.
    pub fn backspace(&mut self)
        requires
            old(self).wf(),
        ensures
            final(self)@ == old(self)@.backspace(),
            final(self).wf(),
    {
        let append = self.append();

        self.move_left();
        self.delete_char();

        if append {
            self.move_append_end_line();
        }
    }

    /// Inserts four spaces and moves the cursor past them.
    pub fn insert_tab(&mut self)
        requires
            old(self).wf(),
            old(self)@.row().len() + 4 < limit(),
        ensures
            final(self)@ == old(self)@.insert_tab(),
            final(self).wf(),
    {
        proof {
            reveal_strlit("    ");
            assert("    "@ =~= tab());
        }
        self.insert_string("    ");
        self.move_right();
        self.move_right();
        self.move_right();
        self.move_right();
    }

    /// Opens an empty row below the cursor's row and moves onto it.
    pub fn open_below(&mut self)
        requires
            old(self).wf(),
            old(self)@.lines.len() + 1 < limit(),
        ensures
            final(self)@ == old(self)@.open_below(),
            final(self).wf(),
    {
        self.newline_below();
        self.move_down();
    }

    /// Moves the cursor behind the character that it is on.
    pub fn append_after(&mut self)
        requires
            old(self).wf(),
        ensures
            final(self)@ == old(self)@.append_after(),
            final(self).wf(),
    {
        let len = self.getline().unicode_len();
        let x = self.cursor().x as usize;
        if x + 1 >= len {
            self.move_append_end_line();
        } else {
            self.move_right();
        }
    }
}

/// A backspace after a character typed at the end of a row gives back the
/// row and the cursor as they were.
pub proof fn lemma_backspace_undoes_typing(m: BufferModel, c: char)
    requires
        m.inv(),
        m.append,
        m.x == m.row().len(),
    ensures
        m.insert_char(c).move_right().backspace() == m,
{
    let typed = m.insert_char(c).move_right();
    assert(typed.lines[typed.y] =~= m.row().push(c));
    assert(typed.x == m.x + 1);
    let left = typed.move_left();
    let cut = left.delete_char();
    assert(cut.lines[cut.y] =~= m.row());
    assert(cut.lines =~= m.lines);
}

} // verus!
