//! Text buffers.

use crate::edit::cursor::Cursor;
use crate::edit::model::{hits, BufferModel};
use crate::edit::table::entry_mut;
use crate::text::{find_in_row, fits, join_lines, join_rows, lemma_find_from_least,
    lemma_rows_insert, lemma_rows_remove, lemma_rows_update, lemma_split_lines_len, limit,
    remove_char, rows, splice_char, splice_row, split_lines, split_row, split_text};
use std::collections::BTreeMap;
use vstd::prelude::*;

verus! {

/// Each buffer has an identifier which is unique in one editor session.
pub type BufferID = usize;

/// Rows of text with a cursor in them.
///
/// The model of a buffer is its [`BufferModel`]; every method says what it
/// does in terms of the operation of the same name on the model.
#[derive(Debug, Clone)]
pub struct Buffer {
    filename: Option<String>,
    cursor: Cursor,
    lines: Vec<String>,
    search_query: String,
    /// Lets the cursor stand one column past the end of its row.
    append: bool,
}

impl View for Buffer {
    type V = BufferModel;

    closed spec fn view(&self) -> BufferModel {
        BufferModel {
            filename: match self.filename {
                Some(name) => Some(name@),
                None => None,
            },
            lines: rows(self.lines@),
            x: self.cursor.x as int,
            y: self.cursor.y as int,
            append: self.append,
            search_query: self.search_query@,
        }
    }
}

impl Buffer {
    /// The invariant of a buffer: that of its model.
    pub open spec fn wf(&self) -> bool {
        self@.wf()
    }

    /// An empty buffer, backed by no file.
    pub fn new() -> (b: Self)
        ensures
            b@ == BufferModel::fresh(),
            b.wf(),
    {
        let mut lines: Vec<String> = Vec::new();
        lines.push(String::new());
        let b = Buffer {
            search_query: String::from_str("foo"),
            filename: None,
            cursor: Cursor { x: 0, y: 0 },
            lines,
            append: true,
        };
        assert(b@.lines =~= BufferModel::fresh().lines);
        b
    }

    /// Moves the cursor to a valid position if it is out of bounds, and sets
    /// `append` to what the position asks for.
    fn check_cursor(&mut self)
        requires
            old(self)@.has_rows(),
        ensures
            final(self)@ == old(self)@.validate(),
    {
        // the line has to be settled before the column, which is measured on it
        let max_line: isize = (self.lines.len() - 1) as isize;
        if self.cursor.y < 0 {
            self.cursor.y = 0;
        } else if self.cursor.y > max_line {
            self.cursor.y = max_line;
        }
        let len: isize = self.lines[self.cursor.y as usize].as_str().unicode_len() as isize;
        if len == 0 {
            self.append = true;
        } else if self.cursor.x != len {
            self.append = false;
        }
        let max_char: isize = if self.append { len } else { len - 1 };
        if self.cursor.x < 0 {
            self.cursor.x = 0;
        } else if self.cursor.x > max_char {
            self.cursor.x = max_char;
        }
    }

    /// Puts the cursor at column `x` of line `y` and brings it back into the
    /// text.
    fn place(&mut self, x: isize, y: isize)
        requires
            old(self)@.has_rows(),
        ensures
            final(self)@ == old(self)@.at(x as int, y as int).validate(),
            final(self)@.settled(),
    {
        self.cursor.x = x;
        self.cursor.y = y;
        self.check_cursor();
    }

    //
    // Buffer management
    //

    /// Binds the buffer to the file of that name. The name is taken as it is.
    pub fn set_filename(&mut self, filename: String)
        ensures
            final(self)@ == (BufferModel { filename: Some(filename@), ..old(self)@ }),
    {
        self.filename = Some(filename);
    }

    /// Wipes the buffer and loads the given rows; with none given, one empty
    /// row. The buffer is then backed by no file.
    pub fn load_buffer(&mut self, buf: Vec<String>)
        requires
            fits(rows(buf@)),
        ensures
            final(self)@ == BufferModel::loaded(rows(buf@)),
            final(self)@.settled(),
    {
        let mut lines = buf;
        if lines.len() == 0 {
            lines.push(String::new());
            assert(rows(lines@) =~= seq![Seq::<char>::empty()]);
        }
        *self = Buffer::new();
        self.lines = lines;
        self.check_cursor();
    }

    /// Wipes the buffer, binds it to the file `path` and loads the lines of
    /// `contents`, the text read from that file; `None` stands for a file that
    /// does not exist, and gives an empty buffer.
    pub fn load_file(&mut self, path: String, contents: Option<&str>)
        requires
            contents matches Some(text) ==> text@.len() < limit(),
        ensures
            final(self)@ == (BufferModel {
                filename: Some(path@),
                ..BufferModel::loaded(
                    match contents {
                        Some(text) => split_lines(text@),
                        None => Seq::empty(),
                    },
                )
            }),
            final(self)@.settled(),
    {
        let lines = match contents {
            Some(text) => {
                proof {
                    lemma_split_lines_len(text@);
                }
                split_text(text)
            },
            None => Vec::new(),
        };
        assert(contents is None ==> rows(lines@) =~= Seq::<Seq<char>>::empty());
        self.load_buffer(lines);
        self.set_filename(path);
    }

    /// A buffer bound to the file `path`, holding the lines of `contents`;
    /// see [`Buffer::load_file`].
    pub fn with_file(path: String, contents: Option<&str>) -> (b: Self)
        requires
            contents matches Some(text) ==> text@.len() < limit(),
        ensures
            b@ == (BufferModel {
                filename: Some(path@),
                ..BufferModel::loaded(
                    match contents {
                        Some(text) => split_lines(text@),
                        None => Seq::empty(),
                    },
                )
            }),
            b@.settled(),
    {
        let mut b = Buffer::new();
        b.load_file(path, contents);
        b
    }

    /// The text to write when the buffer is saved: its rows joined by line
    /// feeds, with none at the end. `None` for an empty buffer, which is saved
    /// by writing nothing.
    pub fn save_to_file(&self) -> (r: Option<String>)
        requires
            self.wf(),
        ensures
            match r {
                Some(text) => !self@.is_empty() && text@ == join_lines(self@.lines),
                None => self@.is_empty(),
            },
    {
        if self.lines.len() == 1 && self.lines[0].as_str().unicode_len() == 0 {
            None
        } else {
            Some(join_rows(&self.lines))
        }
    }

    /// The name of the file that backs the buffer and the text to write to
    /// it, as [`Buffer::save_to_file`] gives it. `None` if the buffer is not
    /// backed by any file.
    pub fn save_to_loaded_file(&self) -> (r: Option<(String, Option<String>)>)
        requires
            self.wf(),
        ensures
            match r {
                Some((name, to_write)) => {
                    &&& self@.filename == Some(name@)
                    &&& match to_write {
                        Some(text) => !self@.is_empty() && text@ == join_lines(self@.lines),
                        None => self@.is_empty(),
                    }
                },
                None => self@.filename is None,
            },
    {
        match &self.filename {
            Some(name) => Some((name.clone(), self.save_to_file())),
            None => None,
        }
    }

    //
    // Getters
    //

    pub fn filename(&self) -> (r: Option<&str>)
        ensures
            match r {
                Some(name) => self@.filename == Some(name@),
                None => self@.filename is None,
            },
    {
        match &self.filename {
            Some(name) => Some(name.as_str()),
            None => None,
        }
    }

    pub fn cursor(&self) -> (c: Cursor)
        ensures
            c.x == self@.x,
            c.y == self@.y,
    {
        self.cursor
    }

    /// Whether the cursor may stand one column past the end of its row.
    pub fn append(&self) -> (r: bool)
        ensures
            r == self@.append,
    {
        self.append
    }

    pub fn search_query(&self) -> (r: &str)
        ensures
            r@ == self@.search_query,
    {
        self.search_query.as_str()
    }

    pub fn set_search_query(&mut self, query: String)
        ensures
            final(self)@ == (BufferModel { search_query: query@, ..old(self)@ }),
    {
        self.search_query = query;
    }

    pub fn getlines(&self) -> (r: &[String])
        ensures
            rows(r@) == self@.lines,
    {
        self.lines.as_slice()
    }

    /// The row that the cursor is on.
    pub fn getline(&self) -> (r: &str)
        requires
            self.wf(),
        ensures
            r@ == self@.row(),
    {
        self.lines[self.cursor.y as usize].as_str()
    }

    /// The character under the cursor; `None` where the cursor stands past
    /// the end of its row.
    pub fn getchar(&self) -> (r: Option<char>)
        requires
            self.wf(),
        ensures
            r == if self@.x < self@.row().len() {
                Some(self@.row()[self@.x])
            } else {
                None
            },
    {
        let row = self.lines[self.cursor.y as usize].as_str();
        let x = self.cursor.x as usize;
        if x < row.unicode_len() {
            Some(row.get_char(x))
        } else {
            None
        }
    }

    /// Whether the cursor's row can take `more` characters and stay within
    /// the limit.
    pub fn has_room_for(&self, more: usize) -> (r: bool)
        requires
            self.wf(),
        ensures
            r == (self@.row().len() + more < limit()),
    {
        let len = self.lines[self.cursor.y as usize].as_str().unicode_len();
        more < isize::MAX as usize - len
    }

    /// Whether the buffer can take one row more and stay within the limit.
    pub fn has_room_for_row(&self) -> (r: bool)
        ensures
            r == (self@.lines.len() + 1 < limit()),
    {
        self.lines.len() < isize::MAX as usize - 1
    }

    //
    // Insertion
    //

    pub fn newline_above(&mut self)
        requires
            old(self).wf(),
            old(self)@.lines.len() + 1 < limit(),
        ensures
            final(self)@ == old(self)@.newline_above(),
            final(self)@.settled(),
    {
        let blank = String::new();
        proof {
            lemma_rows_insert(self.lines@, self.cursor.y as int, blank);
        }
        self.lines.insert(self.cursor.y as usize, blank);
        // the cursor is now on the new row, and may be past its end
        self.check_cursor();
    }

    pub fn newline_below(&mut self)
        requires
            old(self).wf(),
            old(self)@.lines.len() + 1 < limit(),
        ensures
            final(self)@ == old(self)@.newline_below(),
            final(self).wf(),
    {
        let blank = String::new();
        proof {
            lemma_rows_insert(self.lines@, self.cursor.y + 1, blank);
        }
        self.lines.insert(self.cursor.y as usize + 1, blank);
    }

    pub fn insert_string(&mut self, text: &str)
        requires
            old(self).wf(),
            old(self)@.row().len() + text@.len() < limit(),
        ensures
            final(self)@ == old(self)@.insert_string(text@),
            final(self).wf(),
    {
        let y = self.cursor.y as usize;
        let row = splice_row(self.lines[y].as_str(), self.cursor.x as usize, text);
        proof {
            lemma_rows_update(self.lines@, y as int, row);
        }
        self.lines.set(y, row);
    }

    pub fn insert_char(&mut self, c: char)
        requires
            old(self).wf(),
            old(self)@.row().len() + 1 < limit(),
        ensures
            final(self)@ == old(self)@.insert_char(c),
            final(self).wf(),
    {
        let y = self.cursor.y as usize;
        let row = splice_char(self.lines[y].as_str(), self.cursor.x as usize, c);
        proof {
            lemma_rows_update(self.lines@, y as int, row);
        }
        self.lines.set(y, row);
    }

    /// Splits the row at the cursor into two rows and puts the cursor at the
    /// start of the second.
    pub fn split_newline(&mut self)
        requires
            old(self).wf(),
            old(self)@.lines.len() + 1 < limit(),
        ensures
            final(self)@ == old(self)@.split_newline(),
            final(self)@.settled(),
    {
        let y = self.cursor.y as usize;
        let (head, tail) = split_row(self.lines[y].as_str(), self.cursor.x as usize);
        proof {
            lemma_rows_update(self.lines@, y as int, head);
            lemma_rows_insert(self.lines@.update(y as int, head), y + 1, tail);
        }
        self.lines.set(y, head);
        self.lines.insert(y + 1, tail);
        self.place(0, self.cursor.y);
        self.place(self.cursor.x, self.cursor.y + 1);
    }

    //
    // Deletion
    //

    pub fn clear_current_line(&mut self)
        requires
            old(self).wf(),
        ensures
            final(self)@ == old(self)@.clear_current_line(),
            final(self)@.settled(),
    {
        let y = self.cursor.y as usize;
        let blank = String::new();
        proof {
            lemma_rows_update(self.lines@, y as int, blank);
        }
        self.lines.set(y, blank);
        self.check_cursor();
    }

    pub fn delete_line(&mut self)
        requires
            old(self).wf(),
        ensures
            final(self)@ == old(self)@.delete_line(),
            final(self)@.settled(),
    {
        if self.lines.len() == 1 {
            self.clear_current_line();
        } else {
            proof {
                lemma_rows_remove(self.lines@, self.cursor.y as int);
            }
            self.lines.remove(self.cursor.y as usize);
            self.check_cursor();
        }
    }

    /// Deletes the character under the cursor.
    pub fn delete_char(&mut self)
        requires
            old(self).wf(),
        ensures
            final(self)@ == old(self)@.delete_char(),
            final(self).wf(),
    {
        let y = self.cursor.y as usize;
        let x = self.cursor.x as usize;
        if x < self.lines[y].as_str().unicode_len() {
            let row = remove_char(self.lines[y].as_str(), x);
            proof {
                lemma_rows_update(self.lines@, y as int, row);
            }
            self.lines.set(y, row);
            self.check_cursor();
        }
    }

    //
    // Movement
    //

    pub fn move_down_many(&mut self, count: isize)
        requires
            old(self).wf(),
        ensures
            final(self)@ == old(self)@.move_down_many(count as int),
            final(self)@.settled(),
    {
        let max_line: isize = (self.lines.len() - 1) as isize;
        let y = self.cursor.y;
        let target: isize = if count > max_line - y { max_line } else { y + count };
        self.place(self.cursor.x, target);
    }

    pub fn move_up_many(&mut self, count: isize)
        requires
            old(self).wf(),
        ensures
            final(self)@ == old(self)@.move_up_many(count as int),
            final(self)@.settled(),
    {
        let max_line: isize = (self.lines.len() - 1) as isize;
        let y = self.cursor.y;
        let target: isize = if count < y - max_line { max_line } else { y - count };
        self.place(self.cursor.x, target);
    }

    pub fn move_right_many(&mut self, count: isize)
        requires
            old(self).wf(),
        ensures
            final(self)@ == old(self)@.move_right_many(count as int),
            final(self)@.settled(),
    {
        let x = self.cursor.x;
        // past the last column of any row there is nothing to tell apart
        let target: isize = if count > isize::MAX - x { isize::MAX } else { x + count };
        self.place(target, self.cursor.y);
    }

    pub fn move_left_many(&mut self, count: isize)
        requires
            old(self).wf(),
        ensures
            final(self)@ == old(self)@.move_left_many(count as int),
            final(self)@.settled(),
    {
        let x = self.cursor.x;
        let target: isize = if count < x - isize::MAX { isize::MAX } else { x - count };
        self.place(target, self.cursor.y);
    }

    pub fn move_down(&mut self)
        requires
            old(self).wf(),
        ensures
            final(self)@ == old(self)@.move_down(),
            final(self)@.settled(),
    {
        self.place(self.cursor.x, self.cursor.y + 1);
    }

    pub fn move_up(&mut self)
        requires
            old(self).wf(),
        ensures
            final(self)@ == old(self)@.move_up(),
            final(self)@.settled(),
    {
        self.place(self.cursor.x, self.cursor.y - 1);
    }

    pub fn move_right(&mut self)
        requires
            old(self).wf(),
        ensures
            final(self)@ == old(self)@.move_right(),
            final(self)@.settled(),
    {
        self.place(self.cursor.x + 1, self.cursor.y);
    }

    pub fn move_left(&mut self)
        requires
            old(self).wf(),
        ensures
            final(self)@ == old(self)@.move_left(),
            final(self)@.settled(),
    {
        self.place(self.cursor.x - 1, self.cursor.y);
    }

    pub fn move_top(&mut self)
        requires
            old(self).wf(),
        ensures
            final(self)@ == old(self)@.move_top(),
            final(self)@.settled(),
    {
        self.place(self.cursor.x, 0);
    }

    pub fn move_bottom(&mut self)
        requires
            old(self).wf(),
        ensures
            final(self)@ == old(self)@.move_bottom(),
            final(self)@.settled(),
    {
        let last: isize = (self.lines.len() - 1) as isize;
        self.place(self.cursor.x, last);
    }

    pub fn move_start_line(&mut self)
        requires
            old(self).wf(),
        ensures
            final(self)@ == old(self)@.move_start_line(),
            final(self)@.settled(),
    {
        // leaves append mode unless the row is empty
        self.place(0, self.cursor.y);
    }

    /// Moves to the end of the row, one column past its last character, and
    /// sets `append`.
    pub fn move_append_end_line(&mut self)
        requires
            old(self).wf(),
        ensures
            final(self)@ == old(self)@.move_append_end_line(),
            final(self)@.settled(),
            final(self)@.append,
            final(self)@.x == final(self)@.row().len(),
    {
        let len: isize = self.lines[self.cursor.y as usize].as_str().unicode_len() as isize;
        self.append = true;
        self.cursor.x = len;
    }

    /// Moves onto the last character of the row.
    pub fn move_end_line(&mut self)
        requires
            old(self).wf(),
        ensures
            final(self)@ == old(self)@.move_end_line(),
            final(self)@.settled(),
    {
        let len: isize = self.lines[self.cursor.y as usize].as_str().unicode_len() as isize;
        self.place(len - 1, self.cursor.y);
    }

    //
    // Miscellaneous
    //

    /// Searches every row for `query` and returns, for each row that holds
    /// it, the position of its first occurrence there.
    pub fn search(&self, query: &str) -> (r: Vec<Cursor>)
        requires
            self.wf(),
        ensures
            r@ == hits(self@.lines, query@),
    {
        let mut found: Vec<Cursor> = Vec::new();
        let mut idx: usize = 0;
        while idx < self.lines.len()
            invariant
                self.wf(),
                idx <= self.lines.len(),
                found@ == hits(self@.lines.subrange(0, idx as int), query@),
            decreases self.lines.len() - idx,
        {
            proof {
                let upto = self@.lines.subrange(0, idx + 1);
                assert(upto.drop_last() =~= self@.lines.subrange(0, idx as int));
                assert(upto.last() == self.lines@[idx as int]@);
                lemma_find_from_least(upto.last(), query@, 0);
            }
            match find_in_row(self.lines[idx].as_str(), query) {
                Some(at) => found.push(Cursor { x: at as isize, y: idx as isize }),
                None => {},
            }
            idx += 1;
        }
        assert(self@.lines.subrange(0, self.lines@.len() as int) =~= self@.lines);
        found
    }
}

/// What a table of buffers is: the buffers under their identifiers, and the
/// identifier that the next buffer will get.
pub struct BuffersModel {
    pub next_id: BufferID,
    pub buffers: Map<BufferID, Buffer>,
}

impl BuffersModel {
    /// Identifiers are given out in order and never again: the buffers are
    /// those numbered below `next_id`. Each of them is well-formed.
    pub open spec fn wf(self) -> bool {
        &&& forall|id: BufferID| self.buffers.contains_key(id) <==> id < self.next_id
        &&& forall|id: BufferID| self.buffers.contains_key(id) ==> (#[trigger] self.buffers[id]).wf()
    }

    /// The table with one buffer more, under `next_id`.
    pub open spec fn add(self, buf: Buffer) -> Self {
        BuffersModel {
            buffers: self.buffers.insert(self.next_id, buf),
            next_id: (self.next_id + 1) as BufferID,
        }
    }

    /// The table with `buf` in the place of the buffer under `id`.
    pub open spec fn with_buffer(self, id: BufferID, buf: Buffer) -> Self {
        BuffersModel { buffers: self.buffers.insert(id, buf), ..self }
    }
}

/// All the buffers of an editor, each under its identifier.
#[derive(Debug, Clone)]
pub struct Buffers {
    idcount: BufferID,
    /// Kept in the order of the identifiers.
    buffers: BTreeMap<BufferID, Buffer>,
}

impl View for Buffers {
    type V = BuffersModel;

    closed spec fn view(&self) -> BuffersModel {
        BuffersModel { next_id: self.idcount, buffers: self.buffers@ }
    }
}

impl Default for Buffers {
    fn default() -> (r: Self)
        ensures
            r@.next_id == 0,
            r@.buffers == Map::<BufferID, Buffer>::empty(),
            r.wf(),
    {
        Buffers { idcount: 0, buffers: BTreeMap::new() }
    }
}

impl Buffers {
    /// The invariant of the table: that of its model.
    pub open spec fn wf(&self) -> bool {
        self@.wf()
    }

    /// One buffer, numbered 0, bound to the file `path` and holding the lines
    /// of `contents`; see [`Buffer::load_file`].
    pub fn with_file(path: String, contents: Option<&str>) -> (r: Self)
        requires
            contents matches Some(text) ==> text@.len() < limit(),
        ensures
            r.wf(),
            r@.next_id == 1,
            r@.buffers.dom() == set![0usize],
            r@.buffers[0]@ == (BufferModel {
                filename: Some(path@),
                ..BufferModel::loaded(
                    match contents {
                        Some(text) => split_lines(text@),
                        None => Seq::empty(),
                    },
                )
            }),
    {
        let mut buffers = BTreeMap::new();
        buffers.insert(0, Buffer::with_file(path, contents));
        let r = Buffers { buffers, idcount: 1 };
        assert(r@.buffers.dom() =~= set![0usize]);
        r
    }

    pub fn get(&self, id: BufferID) -> (r: Option<&Buffer>)
        ensures
            match r {
                Some(buf) => self@.buffers.contains_key(id) && *buf == self@.buffers[id],
                None => !self@.buffers.contains_key(id),
            },
    {
        self.buffers.get(&id)
    }

    /// The buffer under `id`, to be changed in place. Nothing else changes,
    /// and the table stays well-formed if the buffer does.
    pub fn get_mut(&mut self, id: BufferID) -> (r: Option<&mut Buffer>)
        ensures
            match r {
                Some(buf) => {
                    &&& old(self)@.buffers.contains_key(id)
                    &&& *buf == old(self)@.buffers[id]
                    &&& final(self)@ == old(self)@.with_buffer(id, *final(buf))
                    &&& old(self).wf() && final(buf).wf() ==> final(self).wf()
                },
                None => !old(self)@.buffers.contains_key(id) && final(self)@ == old(self)@,
            },
    {
        entry_mut(&mut self.buffers, id)
    }

    /// The identifier that the next buffer will get.
    pub fn idcount(&self) -> (r: BufferID)
        ensures
            r == self@.next_id,
    {
        self.idcount
    }

    /// How many buffers there are.
    pub fn count(&self) -> (n: usize)
        ensures
            n == self@.buffers.len(),
    {
        self.buffers.len()
    }

    /// Adds an empty buffer and returns its identifier, which no buffer had
    /// before.
    pub fn add(&mut self) -> (id: BufferID)
        requires
            old(self).wf(),
            old(self)@.next_id < usize::MAX,
        ensures
            id == old(self)@.next_id,
            !old(self)@.buffers.contains_key(id),
            final(self)@.buffers.contains_key(id),
            final(self)@.buffers[id]@ == BufferModel::fresh(),
            final(self)@ == old(self)@.add(final(self)@.buffers[id]),
            final(self).wf(),
    {
        let id = self.idcount;
        assert(!self@.buffers.contains_key(id));
        self.idcount += 1;
        let ret = self.buffers.insert(id, Buffer::new());
        assert(ret is None);
        id
    }
}

} // verus!
