//! The editor and what it owns.

pub mod buffer;
pub mod command;
pub mod cursor;
pub mod event;
pub mod model;
pub mod table;
pub mod window;

use crate::edit::buffer::{Buffer, BufferID, Buffers, BuffersModel};
use crate::edit::event::EventData;
use crate::edit::model::BufferModel;
use crate::edit::window::{Window, WindowID, Windows, WindowsModel};
use crate::text::{copy_rows, fits, lemma_rows_push, limit, rows, split_lines};
use std::collections::VecDeque;
use vstd::prelude::*;

verus! {

/// What the keys mean at the moment.
#[derive(Debug, Clone, Copy, PartialEq, Eq, Structural, Hash)]
pub enum Mode {
    Normal,
    Insert,
}

impl Default for Mode {
    fn default() -> (m: Self)
        ensures
            m == Mode::Normal,
    {
        Mode::Normal
    }
}

impl Mode {
    /// The name of the mode, in lower case.
    pub fn to_string(&self) -> (s: String)
        ensures
            s@ == match self {
                Mode::Normal => "normal"@,
                Mode::Insert => "insert"@,
            },
    {
        match self {
            Mode::Normal => String::from_str("normal"),
            Mode::Insert => String::from_str("insert"),
        }
    }
}

/// The events that wait to be handled, oldest first.
#[derive(Debug, Clone)]
pub struct EditorContext {
    pub event_queue: VecDeque<EventData>,
}

impl View for EditorContext {
    type V = Seq<EventData>;

    open spec fn view(&self) -> Seq<EventData> {
        self.event_queue@
    }
}

impl EditorContext {
    pub fn new() -> (r: Self)
        ensures
            r@ == Seq::<EventData>::empty(),
    {
        Self { event_queue: VecDeque::new() }
    }

    /// Puts `ev` at the end of the queue.
    pub fn push(&mut self, ev: EventData)
        ensures
            final(self)@ == old(self)@.push(ev),
    {
        self.event_queue.push_back(ev);
    }

    /// Takes the oldest event out of the queue, if there is one.
    pub fn pop(&mut self) -> (r: Option<EventData>)
        ensures
            match r {
                Some(ev) => old(self)@.len() > 0 && ev == old(self)@[0] && final(self)@ == old(
                    self,
                )@.drop_first(),
                None => old(self)@.len() == 0 && final(self)@ == old(self)@,
            },
    {
        self.event_queue.pop_front()
    }
}

/// The three parts of a status line.
#[derive(Debug, Clone)]
pub struct Statusline {
    pub left: String,
    pub center: String,
    pub right: String,
}

impl Default for Statusline {
    fn default() -> (r: Self)
        ensures
            r.left@ == Seq::<char>::empty(),
            r.center@ == Seq::<char>::empty(),
            r.right@ == Seq::<char>::empty(),
    {
        Statusline { left: String::new(), center: String::new(), right: String::new() }
    }
}

impl Statusline {
    pub fn new(left: String, center: String, right: String) -> (r: Self)
        ensures
            r.left == left,
            r.center == center,
            r.right == right,
    {
        Self { left, center, right }
    }
}

pub type Message = String;

/// What an editor is: its messages, its buffers, its windows, its mode, and
/// the events that it has sent out and that nobody has taken yet.
pub struct EditorModel {
    pub messages: Seq<Seq<char>>,
    pub buffers: BuffersModel,
    pub mode: Mode,
    pub windows: WindowsModel,
    pub events: Seq<EventData>,
}

impl EditorModel {
    /// Both tables are well-formed.
    pub open spec fn wf(self) -> bool {
        self.buffers.wf() && self.windows.wf()
    }

    /// The identifier of the focused window; `None` if there is no window.
    pub open spec fn winid(self) -> Option<WindowID> {
        if self.windows.is_empty() {
            None
        } else {
            Some(self.windows.current)
        }
    }

    /// The identifier of the buffer that the focused window shows; `None` if
    /// there is no focused window or it shows nothing.
    pub open spec fn bufid(self) -> Option<BufferID> {
        if self.windows.windows.contains_key(self.windows.current) {
            self.windows.windows[self.windows.current]@
        } else {
            None
        }
    }

    /// The buffer that the focused window shows; `None` if there is no
    /// focused window, if it shows nothing, or if the buffer that it names is
    /// not there.
    pub open spec fn buf(self) -> Option<Buffer> {
        match self.bufid() {
            Some(id) if self.buffers.buffers.contains_key(id) => Some(self.buffers.buffers[id]),
            _ => None,
        }
    }

    /// The editor with `buf` in the place of the buffer under `id`.
    pub open spec fn with_buffer(self, id: BufferID, buf: Buffer) -> Self {
        EditorModel { buffers: self.buffers.with_buffer(id, buf), ..self }
    }

    /// The editor in mode `mode`, with the change sent out as an event.
    pub open spec fn set_mode(self, mode: Mode) -> Self {
        EditorModel { mode, events: self.events.push(EventData::ModeChanged(mode)), ..self }
    }
}

/// The editor: buffers, the windows that show them, and the mode.
#[derive(Debug, Clone)]
pub struct Editor {
    messages: Vec<Message>,
    buffers: Buffers,
    mode: Mode,
    windows: Windows,
    context: EditorContext,
}

impl View for Editor {
    type V = EditorModel;

    closed spec fn view(&self) -> EditorModel {
        EditorModel {
            messages: rows(self.messages@),
            buffers: self.buffers@,
            mode: self.mode,
            windows: self.windows@,
            events: self.context@,
        }
    }
}

impl Editor {
    /// The invariant of the editor: that of its model.
    pub open spec fn wf(&self) -> bool {
        self@.wf()
    }

    /// An editor without buffers or windows, in normal mode.
    pub fn new() -> (ed: Self)
        ensures
            ed.wf(),
            ed@.messages == Seq::<Seq<char>>::empty(),
            ed@.buffers.next_id == 0,
            ed@.buffers.buffers == Map::<BufferID, Buffer>::empty(),
            ed@.mode == Mode::Normal,
            ed@.windows.current == 0,
            ed@.windows.next_id == 0,
            ed@.windows.windows == Map::<WindowID, Window>::empty(),
            ed@.events == Seq::<EventData>::empty(),
    {
        let ed = Self {
            messages: Vec::new(),
            windows: Windows::default(),
            buffers: Buffers::default(),
            mode: Mode::default(),
            context: EditorContext::new(),
        };
        assert(ed@.messages =~= Seq::<Seq<char>>::empty());
        ed
    }

    /// An editor with one buffer, bound to the file `path` and holding the
    /// lines of `contents`, and one window that shows it; see
    /// [`Buffer::load_file`].
    pub fn with_file(path: String, contents: Option<&str>) -> (ed: Self)
        requires
            contents matches Some(text) ==> text@.len() < limit(),
        ensures
            ed.wf(),
            ed@.mode == Mode::Normal,
            ed@.messages == Seq::<Seq<char>>::empty(),
            ed@.events == Seq::<EventData>::empty(),
            ed@.winid() == Some(0usize),
            ed@.bufid() == Some(0usize),
            ed@.buffers.next_id == 1,
            ed@.buffers.buffers.dom() == set![0usize],
            ed@.windows.next_id == 1,
            ed@.windows.windows.dom() == set![0usize],
            ed@.buf() is Some,
            ed@.buf().unwrap()@ == (BufferModel {
                filename: Some(path@),
                ..BufferModel::loaded(
                    match contents {
                        Some(text) => split_lines(text@),
                        None => Seq::empty(),
                    },
                )
            }),
    {
        let ed = Self {
            buffers: Buffers::with_file(path, contents),
            windows: Windows::with_buffer(0),
            messages: Vec::new(),
            mode: Mode::default(),
            context: EditorContext::new(),
        };
        assert(ed@.messages =~= Seq::<Seq<char>>::empty());
        assert(ed@.windows.windows.contains_key(0));
        assert(ed@.buffers.buffers.contains_key(0));
        ed
    }

    /// Adds a message to the editor's messages.
    pub fn add_message(&mut self, msg: Message)
        ensures
            final(self)@ == (EditorModel {
                messages: old(self)@.messages.push(msg@),
                ..old(self)@
            }),
    {
        proof {
            lemma_rows_push(self.messages@, msg);
        }
        self.messages.push(msg);
    }

    /// The messages, oldest first.
    pub fn messages(&self) -> (r: &[Message])
        ensures
            rows(r@) == self@.messages,
    {
        self.messages.as_slice()
    }

    /// Puts all the messages, one to a row, into a new buffer, shown in a new
    /// window.
    pub fn show_messages(&mut self)
        requires
            old(self).wf(),
            old(self)@.buffers.next_id < usize::MAX,
            old(self)@.windows.next_id < usize::MAX,
            fits(old(self)@.messages),
        ensures
            final(self).wf(),
            final(self)@.messages == old(self)@.messages,
            final(self)@.mode == old(self)@.mode,
            final(self)@.events == old(self)@.events,
            final(self)@.buffers.buffers.contains_key(old(self)@.buffers.next_id),
            final(self)@.buffers == old(self)@.buffers.add(
                final(self)@.buffers.buffers[old(self)@.buffers.next_id],
            ),
            final(self)@.buffers.buffers[old(self)@.buffers.next_id]@ == BufferModel::loaded(
                old(self)@.messages,
            ),
            final(self)@.windows.windows.contains_key(old(self)@.windows.next_id),
            final(self)@.windows == old(self)@.windows.add(
                final(self)@.windows.windows[old(self)@.windows.next_id],
            ),
            final(self)@.windows.windows[old(self)@.windows.next_id]@ == Some(
                old(self)@.buffers.next_id,
            ),
    {
        let id = self.buffers.add();
        self.windows.add(Some(id));

        let messages = copy_rows(&self.messages);
        match self.buffers.get_mut(id) {
            Some(buf) => {
                buf.load_buffer(messages);
            },
            None => {},
        }
        assert(self@.buffers.buffers =~= old(self)@.buffers.add(self@.buffers.buffers[id]).buffers);
    }

    /// The identifier of the focused window; `None` if there is no window.
    pub fn winid(&self) -> (r: Option<WindowID>)
        ensures
            r == self@.winid(),
    {
        self.windows.winid()
    }

    /// The identifier of the buffer that the focused window shows.
    pub fn bufid(&self) -> (r: Option<BufferID>)
        ensures
            r == self@.bufid(),
    {
        match self.windows.winid() {
            Some(id) => match self.windows.get(id) {
                Some(win) => win.buf(),
                None => None,
            },
            None => None,
        }
    }

    /// The buffer that the focused window shows.
    pub fn buf(&self) -> (r: Option<&Buffer>)
        ensures
            match r {
                Some(buf) => self@.buf() == Some(*buf),
                None => self@.buf() is None,
            },
    {
        match self.bufid() {
            Some(id) => self.buffers.get(id),
            None => None,
        }
    }

    /// The buffer that the focused window shows, to be changed in place.
    /// Nothing else changes, and the editor stays well-formed if the buffer
    /// does.
    pub fn buf_mut(&mut self) -> (r: Option<&mut Buffer>)
        ensures
            match r {
                Some(buf) => {
                    &&& old(self)@.buf() == Some(*buf)
                    &&& final(self)@ == old(self)@.with_buffer(
                        old(self)@.bufid().unwrap(),
                        *final(buf),
                    )
                    &&& old(self).wf() && final(buf).wf() ==> final(self).wf()
                },
                None => old(self)@.buf() is None && final(self)@ == old(self)@,
            },
    {
        match self.bufid() {
            Some(id) => self.buffers.get_mut(id),
            None => None,
        }
    }

    pub fn windows(&self) -> (r: &Windows)
        ensures
            r@ == self@.windows,
    {
        &self.windows
    }

    /// The windows, to be changed in place. Nothing else changes.
    pub fn windows_mut(&mut self) -> (r: &mut Windows)
        ensures
            r@ == old(self)@.windows,
            final(self)@ == (EditorModel { windows: final(r)@, ..old(self)@ }),
    {
        &mut self.windows
    }

    pub fn buffers(&self) -> (r: &Buffers)
        ensures
            r@ == self@.buffers,
    {
        &self.buffers
    }

    /// The buffers, to be changed in place. Nothing else changes.
    pub fn buffers_mut(&mut self) -> (r: &mut Buffers)
        ensures
            r@ == old(self)@.buffers,
            final(self)@ == (EditorModel { buffers: final(r)@, ..old(self)@ }),
    {
        &mut self.buffers
    }

    /// Takes the oldest event out of the queue, if there is one.
    pub fn poll_event(&mut self) -> (r: Option<EventData>)
        ensures
            match r {
                Some(ev) => {
                    &&& old(self)@.events.len() > 0
                    &&& ev == old(self)@.events[0]
                    &&& final(self)@ == (EditorModel {
                        events: old(self)@.events.drop_first(),
                        ..old(self)@
                    })
                },
                None => old(self)@.events.len() == 0 && final(self)@ == old(self)@,
            },
    {
        self.context.pop()
    }

    /// The events that wait to be handled, oldest first.
    pub fn context(&self) -> (r: &EditorContext)
        ensures
            r@ == self@.events,
    {
        &self.context
    }

    /// Puts the typed character `c` into the focused buffer at the cursor
    /// and moves the cursor one column to the right. Returns whether there
    /// is a focused buffer; without one nothing changes.
    pub fn insert_typed(&mut self, c: char) -> (inserted: bool)
        requires
            old(self).wf(),
            old(self)@.buf() matches Some(buf) ==> buf@.row().len() + 1 < limit(),
        ensures
            final(self).wf(),
            match old(self)@.buf() {
                Some(buf) => {
                    &&& inserted
                    &&& final(self)@.buf() is Some
                    &&& final(self)@.buf().unwrap()@ == buf@.insert_char(c).move_right()
                    &&& final(self)@ == old(self)@.with_buffer(
                        old(self)@.bufid().unwrap(),
                        final(self)@.buf().unwrap(),
                    )
                },
                None => !inserted && final(self)@ == old(self)@,
            },
    {
        match self.buf_mut() {
            Some(buf) => {
                buf.insert_char(c);
                buf.move_right();
                true
            },
            None => false,
        }
    }

    pub fn mode(&self) -> (m: Mode)
        ensures
            m == self@.mode,
    {
        self.mode
    }

    /// Changes the mode, and queues the event that says so. Nothing else
    /// writes the mode.
    pub fn set_mode(&mut self, mode: Mode)
        ensures
            final(self)@ == old(self)@.set_mode(mode),
    {
        self.mode = mode;
        self.context.push(EventData::ModeChanged(mode));
    }
}

} // verus!
