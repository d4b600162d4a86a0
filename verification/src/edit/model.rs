//! The mathematical model of a buffer, and what each editing operation does
//! to it.

use crate::edit::cursor::Cursor;
use crate::text::{find, fits, splice};
use vstd::prelude::*;

verus! {

/// What a buffer is: rows of characters, a cursor at column `x` of line `y`,
/// and the flag `append`, which lets the cursor stand one column past the end
/// of its row.
pub struct BufferModel {
    pub filename: Option<Seq<char>>,
    pub lines: Seq<Seq<char>>,
    pub x: int,
    pub y: int,
    pub append: bool,
    pub search_query: Seq<char>,
}

/// `v`, or the nearer of `lo` and `hi` where it lies outside them.
pub open spec fn clamp(v: int, lo: int, hi: int) -> int {
    if v < lo {
        lo
    } else if v > hi {
        hi
    } else {
        v
    }
}

impl BufferModel {
    /// The row that the cursor is on.
    pub open spec fn row(self) -> Seq<char> {
        self.lines[self.y]
    }

    /// The cursor is in the text: there is a row, the cursor is on a row and on
    /// a column of it or one past its end, and it is past the end (which on an
    /// empty row is column 0) only with `append`.
    pub open spec fn inv(self) -> bool {
        &&& 1 <= self.lines.len()
        &&& 0 <= self.y <= self.lines.len() - 1
        &&& 0 <= self.x <= self.row().len()
        &&& self.x == self.row().len() ==> self.append
    }

    /// There is a row, and every line number and column fits a cursor
    /// coordinate with room for one step more.
    pub open spec fn has_rows(self) -> bool {
        &&& 1 <= self.lines.len()
        &&& fits(self.lines)
    }

    /// The invariant of a buffer: the cursor is in the text, and the text is
    /// within the limit.
    pub open spec fn wf(self) -> bool {
        &&& self.inv()
        &&& fits(self.lines)
    }

    /// Well-formed, and `append` says exactly whether the cursor is past the
    /// end of its row.
    pub open spec fn settled(self) -> bool {
        &&& self.wf()
        &&& self.append ==> self.x == self.row().len()
    }

    /// The same buffer with the cursor put at column `x` of line `y`, which
    /// need not exist.
    pub open spec fn at(self, x: int, y: int) -> Self {
        BufferModel { x, y, ..self }
    }

    /// The same buffer with other rows.
    pub open spec fn with_lines(self, lines: Seq<Seq<char>>) -> Self {
        BufferModel { lines, ..self }
    }

    /// The cursor brought back into the text: the line is clamped first, then
    /// `append` is set on an empty row and cleared where the column is not the
    /// one past the end, then the column is clamped to what `append` allows.
    pub open spec fn validate(self) -> Self {
        let y = clamp(self.y, 0, self.lines.len() - 1);
        let n = self.lines[y].len() as int;
        let append = if n == 0 {
            true
        } else if self.x != n {
            false
        } else {
            self.append
        };
        let x = clamp(self.x, 0, if append { n } else { n - 1 });
        BufferModel { x, y, append, ..self }
    }

    pub open spec fn move_left(self) -> Self {
        self.at(self.x - 1, self.y).validate()
    }

    pub open spec fn move_right(self) -> Self {
        self.at(self.x + 1, self.y).validate()
    }

    pub open spec fn move_up(self) -> Self {
        self.at(self.x, self.y - 1).validate()
    }

    pub open spec fn move_down(self) -> Self {
        self.at(self.x, self.y + 1).validate()
    }

    pub open spec fn move_up_many(self, count: int) -> Self {
        self.at(self.x, self.y - count).validate()
    }

    pub open spec fn move_down_many(self, count: int) -> Self {
        self.at(self.x, self.y + count).validate()
    }

    pub open spec fn move_left_many(self, count: int) -> Self {
        self.at(self.x - count, self.y).validate()
    }

    pub open spec fn move_right_many(self, count: int) -> Self {
        self.at(self.x + count, self.y).validate()
    }

    pub open spec fn move_top(self) -> Self {
        self.at(self.x, 0).validate()
    }

    pub open spec fn move_bottom(self) -> Self {
        self.at(self.x, self.lines.len() - 1).validate()
    }

    pub open spec fn move_start_line(self) -> Self {
        self.at(0, self.y).validate()
    }

    /// Onto the last character of the row; on an empty row, column 0.
    pub open spec fn move_end_line(self) -> Self {
        self.at(self.row().len() - 1, self.y).validate()
    }

    /// One past the last character of the row, with `append` set.
    pub open spec fn move_append_end_line(self) -> Self {
        BufferModel { x: self.row().len() as int, append: true, ..self }
    }

    /// `text` spliced into the row at the cursor, which stays where it is.
    pub open spec fn insert_string(self, text: Seq<char>) -> Self {
        self.with_lines(self.lines.update(self.y, splice(self.row(), self.x, text)))
    }

    pub open spec fn insert_char(self, c: char) -> Self {
        self.insert_string(seq![c])
    }

    /// An empty row put in at the cursor's line; the row that was there moves
    /// down and the cursor is on the new one.
    pub open spec fn newline_above(self) -> Self {
        self.with_lines(self.lines.insert(self.y, Seq::empty())).validate()
    }

    /// An empty row put in below the cursor's line; the cursor stays.
    pub open spec fn newline_below(self) -> Self {
        self.with_lines(self.lines.insert(self.y + 1, Seq::empty()))
    }

    /// The rows after the cursor's row is cut in two at the cursor.
    pub open spec fn split_rows(self) -> Seq<Seq<char>> {
        self.lines.update(self.y, self.row().subrange(0, self.x)).insert(
            self.y + 1,
            self.row().subrange(self.x, self.row().len() as int),
        )
    }

    /// The row cut in two at the cursor, and the cursor moved to the start of
    /// the second half.
    pub open spec fn split_newline(self) -> Self {
        self.with_lines(self.split_rows()).move_start_line().move_down()
    }

    pub open spec fn clear_current_line(self) -> Self {
        self.with_lines(self.lines.update(self.y, Seq::empty())).validate()
    }

    /// The cursor's row taken out; the only row of a buffer is emptied
    /// instead.
    pub open spec fn delete_line(self) -> Self {
        if self.lines.len() == 1 {
            self.clear_current_line()
        } else {
            self.with_lines(self.lines.remove(self.y)).validate()
        }
    }

    /// The character under the cursor taken out; nothing where there is none
    /// (on an empty row, or one past the end).
    pub open spec fn delete_char(self) -> Self {
        if self.x < self.row().len() {
            self.with_lines(self.lines.update(self.y, self.row().remove(self.x))).validate()
        } else {
            self
        }
    }

    /// The buffer as it is first made: one empty row, the cursor on it.
    pub open spec fn fresh() -> Self {
        BufferModel {
            filename: None,
            lines: seq![Seq::empty()],
            x: 0,
            y: 0,
            append: true,
            search_query: "foo"@,
        }
    }

    /// A fresh buffer that holds `lines`, or one empty row where there are
    /// none, with the cursor at the start of the first.
    pub open spec fn loaded(lines: Seq<Seq<char>>) -> Self {
        Self::fresh().with_lines(
            if lines.len() == 0 {
                seq![Seq::empty()]
            } else {
                lines
            },
        ).validate()
    }

    /// Whether the buffer holds no text at all: one row, and that empty.
    pub open spec fn is_empty(self) -> bool {
        self.lines.len() == 1 && self.lines[0].len() == 0
    }
}

/// One position for each row in which `query` occurs, in the order of the
/// rows: the row's line number and the column of the first occurrence in it.
pub open spec fn hits(lines: Seq<Seq<char>>, query: Seq<char>) -> Seq<Cursor>
    decreases lines.len(),
{
    if lines.len() == 0 {
        Seq::empty()
    } else {
        let before = hits(lines.drop_last(), query);
        match find(lines.last(), query) {
            Some(x) => before.push(Cursor { x: x as isize, y: (lines.len() - 1) as isize }),
            None => before,
        }
    }
}

/// One editing operation on a buffer.
pub enum Op {
    InsertChar(char),
    InsertString(Seq<char>),
    NewlineAbove,
    NewlineBelow,
    SplitNewline,
    ClearCurrentLine,
    DeleteLine,
    DeleteChar,
    MoveLeft,
    MoveRight,
    MoveUp,
    MoveDown,
    MoveLeftMany(int),
    MoveRightMany(int),
    MoveUpMany(int),
    MoveDownMany(int),
    MoveTop,
    MoveBottom,
    MoveStartLine,
    MoveEndLine,
    MoveAppendEndLine,
}

impl BufferModel {
    /// The buffer after `op`.
    pub open spec fn apply(self, op: Op) -> Self {
        match op {
            Op::InsertChar(c) => self.insert_char(c),
            Op::InsertString(text) => self.insert_string(text),
            Op::NewlineAbove => self.newline_above(),
            Op::NewlineBelow => self.newline_below(),
            Op::SplitNewline => self.split_newline(),
            Op::ClearCurrentLine => self.clear_current_line(),
            Op::DeleteLine => self.delete_line(),
            Op::DeleteChar => self.delete_char(),
            Op::MoveLeft => self.move_left(),
            Op::MoveRight => self.move_right(),
            Op::MoveUp => self.move_up(),
            Op::MoveDown => self.move_down(),
            Op::MoveLeftMany(count) => self.move_left_many(count),
            Op::MoveRightMany(count) => self.move_right_many(count),
            Op::MoveUpMany(count) => self.move_up_many(count),
            Op::MoveDownMany(count) => self.move_down_many(count),
            Op::MoveTop => self.move_top(),
            Op::MoveBottom => self.move_bottom(),
            Op::MoveStartLine => self.move_start_line(),
            Op::MoveEndLine => self.move_end_line(),
            Op::MoveAppendEndLine => self.move_append_end_line(),
        }
    }

    /// The buffer after the operations `ops`, in their order.
    pub open spec fn apply_all(self, ops: Seq<Op>) -> Self
        decreases ops.len(),
    {
        if ops.len() == 0 {
            self
        } else {
            self.apply_all(ops.drop_last()).apply(ops.last())
        }
    }

    /// The buffer after `n` steps to the left.
    pub open spec fn left_by(self, n: nat) -> Self
        decreases n,
    {
        if n == 0 {
            self
        } else {
            self.move_left().left_by((n - 1) as nat)
        }
    }

    /// The rows with row `y` and the one below it joined into one.
    pub open spec fn join_rows_at(lines: Seq<Seq<char>>, y: int) -> Seq<Seq<char>> {
        lines.update(y, lines[y] + lines[y + 1]).remove(y + 1)
    }
}

/// Whatever the cursor and `append` were, `validate` puts the cursor in the
/// text, makes `append` say exactly whether it is past the end of its row,
/// and leaves the rest as it was.
pub proof fn lemma_validate_settles(m: BufferModel)
    requires
        m.lines.len() >= 1,
    ensures
        m.validate().inv(),
        m.validate().append ==> m.validate().x == m.validate().row().len(),
        m.validate().lines == m.lines,
        m.validate().filename == m.filename,
        m.validate().search_query == m.search_query,
{
}

/// On a buffer where `append` says exactly whether the cursor is past the end
/// of its row, `validate` changes nothing.
pub proof fn lemma_validate_idempotent(m: BufferModel)
    requires
        m.inv(),
        m.append ==> m.x == m.row().len(),
    ensures
        m.validate() == m,
{
}

/// Every operation keeps the cursor in the text: the buffer keeps at least
/// one row, and the cursor's line stays within `[0, lines.len() - 1]`.
pub proof fn lemma_op_keeps_inv(m: BufferModel, op: Op)
    requires
        m.inv(),
    ensures
        m.apply(op).inv(),
        m.apply(op).lines.len() >= 1,
        0 <= m.apply(op).y <= m.apply(op).lines.len() - 1,
{
    match op {
        Op::SplitNewline => {
            let cut = m.with_lines(m.split_rows());
            lemma_validate_settles(cut.at(0, cut.y));
            lemma_validate_settles(cut.move_start_line().at(cut.move_start_line().x, cut.move_start_line().y + 1));
        },
        _ => {},
    }
}

/// After every sequence of operations the cursor is in the text: the buffer
/// has at least one row, and the cursor's line is within
/// `[0, lines.len() - 1]`.
pub proof fn lemma_ops_keep_inv(m: BufferModel, ops: Seq<Op>)
    requires
        m.inv(),
    ensures
        m.apply_all(ops).inv(),
        m.apply_all(ops).lines.len() >= 1,
        0 <= m.apply_all(ops).y <= m.apply_all(ops).lines.len() - 1,
    decreases ops.len(),
{
    if ops.len() > 0 {
        lemma_ops_keep_inv(m, ops.drop_last());
        lemma_op_keeps_inv(m.apply_all(ops.drop_last()), ops.last());
    }
}

/// On a row that is not empty, `n` steps to the left take the cursor `n`
/// columns back, and no further than column 0.
pub proof fn lemma_left_by_column(m: BufferModel, n: nat)
    requires
        m.inv(),
        m.row().len() > 0,
        n >= 1,
    ensures
        m.left_by(n).x == clamp(m.x - n, 0, m.x),
        m.left_by(n).y == m.y,
        m.left_by(n).lines == m.lines,
    decreases n,
{
    let step = m.move_left();
    assert(m.left_by(n) == step.left_by((n - 1) as nat));
    if n > 1 {
        lemma_left_by_column(step, (n - 1) as nat);
    } else {
        assert(step.left_by(0) == step);
    }
}

/// A move to the left by `n` columns at once ends where `n` steps to the
/// left end.
pub proof fn lemma_left_many_is_left_by(m: BufferModel, n: nat)
    requires
        m.inv(),
        m.row().len() > 0,
        n >= 1,
    ensures
        m.move_left_many(n as int) == m.left_by(n),
    decreases n,
{
    let step = m.move_left();
    assert(m.left_by(n) == step.left_by((n - 1) as nat));
    if n > 1 {
        lemma_left_many_is_left_by(step, (n - 1) as nat);
        lemma_left_by_column(step, (n - 1) as nat);
    } else {
        assert(step.left_by(0) == step);
    }
}

/// Text inserted at column 0, then a move to the left by as many columns as
/// it has characters, at once or step by step: the cursor is at the column
/// where it was before. The same holds at any column of an insertion of no
/// text, with no step made.
///
/// An insertion leaves the cursor where it is, so from a later column the
/// move to the left ends before it: see [`lemma_left_by_column`].
pub proof fn lemma_insert_then_left(m: BufferModel, text: Seq<char>)
    requires
        m.inv(),
        m.x == 0 || text.len() == 0,
    ensures
        m.insert_string(text).left_by(text.len()).x == m.x,
        text.len() > 0 ==> m.insert_string(text).move_left_many(text.len() as int).x == m.x,
{
    if text.len() > 0 {
        lemma_left_by_column(m.insert_string(text), text.len());
        lemma_left_many_is_left_by(m.insert_string(text), text.len());
    }
}

/// `delete_line` on a buffer of one row empties that row; on any buffer it
/// leaves at least one row.
pub proof fn lemma_delete_line_keeps_a_row(m: BufferModel)
    requires
        m.inv(),
    ensures
        m.delete_line().lines.len() >= 1,
        m.lines.len() == 1 ==> m.delete_line().lines == seq![Seq::<char>::empty()],
        m.lines.len() > 1 ==> m.delete_line().lines == m.lines.remove(m.y),
{
    if m.lines.len() == 1 {
        assert(m.delete_line().lines =~= seq![Seq::<char>::empty()]);
    }
}

/// `split_newline` puts the cursor at column 0 of the row below, and joining
/// the two rows it made gives back the rows as they were, with the seam at
/// the column where the cursor was.
pub proof fn lemma_split_then_join(m: BufferModel)
    requires
        m.inv(),
    ensures
        m.split_newline().lines == m.split_rows(),
        m.split_newline().x == 0,
        m.split_newline().y == m.y + 1,
        m.split_rows()[m.y] + m.split_rows()[m.y + 1] == m.row(),
        m.split_rows()[m.y].len() == m.x,
        BufferModel::join_rows_at(m.split_newline().lines, m.y) == m.lines,
{
    let cut = m.with_lines(m.split_rows());
    lemma_validate_settles(cut.at(0, cut.y));
    assert(m.split_rows()[m.y] + m.split_rows()[m.y + 1] =~= m.row());
    assert(BufferModel::join_rows_at(m.split_rows(), m.y) =~= m.lines);
}

/// `move_append_end_line` leaves `append` set and the cursor one past the
/// last character of its row.
pub proof fn lemma_append_end(m: BufferModel)
    requires
        m.inv(),
    ensures
        m.move_append_end_line().append,
        m.move_append_end_line().x == m.move_append_end_line().row().len(),
        m.move_append_end_line().inv(),
{
}

} // verus!
