//! Windows: the slots in which buffers are shown.

use crate::edit::buffer::BufferID;
use crate::edit::table::{entry_mut, find_below, find_from, key_below, key_from, lemma_key_below,
    lemma_key_from};
use std::collections::BTreeMap;
use vstd::prelude::*;

verus! {

/// Each window has an identifier which is unique among the windows of a table.
pub type WindowID = usize;

/// A window shows one buffer, or nothing. It names its buffer by identifier
/// and does not own it: the buffer may be gone while the window still names it.
#[derive(Debug, Clone, Copy)]
pub struct Window {
    buf: Option<BufferID>,
}

impl View for Window {
    type V = Option<BufferID>;

    closed spec fn view(&self) -> Option<BufferID> {
        self.buf
    }
}

impl Default for Window {
    fn default() -> (w: Self)
        ensures
            w@ is None,
    {
        Window { buf: None }
    }
}

impl Window {
    pub fn new(buf: BufferID) -> (w: Self)
        ensures
            w@ == Some(buf),
    {
        Self { buf: Some(buf) }
    }

    pub fn buf(&self) -> (r: Option<BufferID>)
        ensures
            r == self@,
    {
        self.buf
    }

    pub fn set_buf(&mut self, id: BufferID)
        ensures
            final(self)@ == Some(id),
    {
        self.buf = Some(id);
    }
}

/// What a table of windows is: the windows under their identifiers, the
/// identifier of the focused one, and the identifier that the next window
/// will get.
pub struct WindowsModel {
    pub current: WindowID,
    pub next_id: WindowID,
    pub windows: Map<WindowID, Window>,
}

impl WindowsModel {
    pub open spec fn ids(self) -> Set<WindowID> {
        self.windows.dom()
    }

    pub open spec fn is_empty(self) -> bool {
        forall|id: WindowID| !self.windows.contains_key(id)
    }

    /// Every identifier in use is below `next_id`. While there are windows,
    /// `current` is one of them; while there are none, it is the identifier
    /// that the next one will get.
    pub open spec fn wf(self) -> bool {
        &&& forall|id: WindowID| self.windows.contains_key(id) ==> id < self.next_id
        &&& self.windows.contains_key(self.current) || (self.is_empty() && self.current
            == self.next_id)
    }

    /// The least identifier in use.
    pub open spec fn first(self) -> Option<WindowID> {
        key_from(self.ids(), 0, self.next_id as int)
    }

    /// The greatest identifier in use.
    pub open spec fn last(self) -> Option<WindowID> {
        key_below(self.ids(), self.next_id as int)
    }

    /// The table with one window more, under `next_id`.
    pub open spec fn add(self, win: Window) -> Self {
        WindowsModel {
            windows: self.windows.insert(self.next_id, win),
            next_id: (self.next_id + 1) as WindowID,
            ..self
        }
    }

    /// The table without the focused window. The focus goes to the nearest
    /// window before it, or, if it was the first, to the one that is now
    /// first; `next_id` comes down to one past the greatest identifier still
    /// in use. With the last window gone, both are 0.
    pub open spec fn delete(self) -> Self {
        let rest = self.windows.remove(self.current);
        match key_below(rest.dom(), self.next_id as int) {
            None => WindowsModel { current: 0, next_id: 0, windows: rest },
            Some(top) => WindowsModel {
                current: match key_below(rest.dom(), self.current as int) {
                    Some(before) => before,
                    None => key_from(rest.dom(), 0, self.next_id as int).unwrap(),
                },
                next_id: (top + 1) as WindowID,
                windows: rest,
            },
        }
    }

    /// The focus moved to the next window in the order of the identifiers.
    /// From the last window it goes to the first if `wrap`, and stays
    /// otherwise.
    pub open spec fn next(self, wrap: bool) -> Self {
        match key_from(self.ids(), self.current + 1, self.next_id as int) {
            Some(after) => WindowsModel { current: after, ..self },
            None => match self.first() {
                Some(first) if wrap => WindowsModel { current: first, ..self },
                _ => self,
            },
        }
    }

    /// The focus moved to the window before in the order of the identifiers.
    /// From the first window it goes to the last if `wrap`, and stays
    /// otherwise.
    pub open spec fn prev(self, wrap: bool) -> Self {
        match key_below(self.ids(), self.current as int) {
            Some(before) => WindowsModel { current: before, ..self },
            None => match self.last() {
                Some(last) if wrap => WindowsModel { current: last, ..self },
                _ => self,
            },
        }
    }
}

/// Adding, deleting and cycling keep a table of windows well-formed: while
/// it has windows, the focused one is among them.
pub proof fn lemma_windows_stay_wf(m: WindowsModel, win: Window, wrap: bool)
    requires
        m.wf(),
    ensures
        m.next_id < usize::MAX ==> m.add(win).wf(),
        m.delete().wf(),
        m.next(wrap).wf(),
        m.prev(wrap).wf(),
{
    let rest = m.windows.remove(m.current);
    lemma_key_below(rest.dom(), m.next_id as int);
    lemma_key_below(rest.dom(), m.current as int);
    lemma_key_from(rest.dom(), 0, m.next_id as int);
    lemma_key_from(m.ids(), m.current + 1, m.next_id as int);
    lemma_key_from(m.ids(), 0, m.next_id as int);
    lemma_key_below(m.ids(), m.current as int);
    lemma_key_below(m.ids(), m.next_id as int);
}

/// All the windows of an editor, each under its identifier, and which of
/// them has the focus.
#[derive(Debug, Clone)]
pub struct Windows {
    current: WindowID,
    idcount: WindowID,
    /// Kept in the order of the identifiers.
    windows: BTreeMap<WindowID, Window>,
}

impl View for Windows {
    type V = WindowsModel;

    closed spec fn view(&self) -> WindowsModel {
        WindowsModel { current: self.current, next_id: self.idcount, windows: self.windows@ }
    }
}

impl Default for Windows {
    fn default() -> (r: Self)
        ensures
            r@.current == 0,
            r@.next_id == 0,
            r@.windows == Map::<WindowID, Window>::empty(),
            r.wf(),
    {
        Windows { current: 0, idcount: 0, windows: BTreeMap::new() }
    }
}

impl Windows {
    /// The invariant of the table: that of its model.
    pub open spec fn wf(&self) -> bool {
        self@.wf()
    }

    /// One window, numbered 0 and focused, which shows the buffer `id`.
    pub fn with_buffer(id: BufferID) -> (r: Self)
        ensures
            r@.current == 0,
            r@.next_id == 1,
            r@.windows.dom() == set![0usize],
            r@.windows[0]@ == Some(id),
            r.wf(),
    {
        let mut windows = BTreeMap::new();
        windows.insert(0, Window::new(id));
        let r = Windows { windows, idcount: 1, current: 0 };
        assert(r@.windows.dom() =~= set![0usize]);
        r
    }

    /// The identifier of the focused window; `None` if there is no window.
    pub fn winid(&self) -> (r: Option<WindowID>)
        ensures
            r == if self@.is_empty() {
                None
            } else {
                Some(self@.current)
            },
    {
        if self.windows.is_empty() {
            assert(self@.windows.dom() =~= Set::empty());
            None
        } else {
            assert(!self@.is_empty()) by {
                if self@.is_empty() {
                    assert(self@.windows.dom() =~= Set::empty());
                }
            }
            Some(self.current)
        }
    }

    /// The identifier of the focused window, whether or not there is one.
    pub fn current(&self) -> (r: WindowID)
        ensures
            r == self@.current,
    {
        self.current
    }

    /// The identifier that the next window will get.
    pub fn idcount(&self) -> (r: WindowID)
        ensures
            r == self@.next_id,
    {
        self.idcount
    }

    pub fn get(&self, id: WindowID) -> (r: Option<&Window>)
        ensures
            match r {
                Some(win) => self@.windows.contains_key(id) && *win == self@.windows[id],
                None => !self@.windows.contains_key(id),
            },
    {
        self.windows.get(&id)
    }

    /// The window under `id`, to be changed in place. Nothing else changes.
    pub fn get_mut(&mut self, id: WindowID) -> (r: Option<&mut Window>)
        ensures
            match r {
                Some(win) => {
                    &&& old(self)@.windows.contains_key(id)
                    &&& *win == old(self)@.windows[id]
                    &&& final(self)@ == (WindowsModel {
                        windows: old(self)@.windows.insert(id, *final(win)),
                        ..old(self)@
                    })
                    &&& old(self).wf() ==> final(self).wf()
                },
                None => !old(self)@.windows.contains_key(id) && final(self)@ == old(self)@,
            },
    {
        entry_mut(&mut self.windows, id)
    }

    /// Adds a window that shows the buffer `id`, or nothing, and returns its
    /// identifier, which no window of the table has. The focus stays where it
    /// is; the first window of a table has it.
    pub fn add(&mut self, id: Option<BufferID>) -> (r: WindowID)
        requires
            old(self).wf(),
            old(self)@.next_id < usize::MAX,
        ensures
            r == old(self)@.next_id,
            !old(self)@.windows.contains_key(r),
            final(self)@.windows.contains_key(r),
            final(self)@.windows[r]@ == id,
            final(self)@ == old(self)@.add(final(self)@.windows[r]),
            final(self).wf(),
    {
        let win = if let Some(id) = id {
            Window::new(id)
        } else {
            Window::default()
        };

        let id = self.idcount;
        assert(!self@.windows.contains_key(id));
        self.idcount += 1;
        let ret = self.windows.insert(id, win);
        assert(ret is None);
        id
    }

    /// Deletes the focused window.
    pub fn delete(&mut self)
        requires
            old(self).wf(),
        ensures
            final(self)@ == if old(self)@.is_empty() {
                old(self)@
            } else {
                old(self)@.delete()
            },
            final(self).wf(),
    {
        if self.windows.is_empty() {
            assert(self@.windows.dom() =~= Set::empty());
            return ;
        }
        proof {
            lemma_windows_stay_wf(self@, Window { buf: None }, false);
        }
        let bound = self.idcount;
        self.windows.remove(&self.current);
        match find_below(&self.windows, bound) {
            None => {
                self.current = 0;
                self.idcount = 0;
            },
            Some(top) => {
                proof {
                    lemma_key_below(self.windows@.dom(), self.current as int);
                    lemma_key_below(self.windows@.dom(), bound as int);
                    lemma_key_from(self.windows@.dom(), 0, bound as int);
                }
                self.idcount = top + 1;
                match find_below(&self.windows, self.current) {
                    Some(before) => {
                        self.current = before;
                    },
                    None => match find_from(&self.windows, 0, bound) {
                        Some(first) => {
                            self.current = first;
                        },
                        None => {},
                    },
                }
            },
        }
    }

    /// Cycles to the next window.
    pub fn next(&mut self, wrap: bool)
        requires
            old(self).wf(),
        ensures
            final(self)@ == old(self)@.next(wrap),
            final(self).wf(),
    {
        proof {
            lemma_windows_stay_wf(self@, Window { buf: None }, wrap);
        }
        if self.current < self.idcount {
            match find_from(&self.windows, self.current + 1, self.idcount) {
                Some(after) => {
                    self.current = after;
                    return ;
                },
                None => {},
            }
        }
        if wrap {
            match find_from(&self.windows, 0, self.idcount) {
                Some(first) => {
                    self.current = first;
                },
                None => {},
            }
        }
    }

    /// Cycles to the previous window.
    pub fn prev(&mut self, wrap: bool)
        requires
            old(self).wf(),
        ensures
            final(self)@ == old(self)@.prev(wrap),
            final(self).wf(),
    {
        proof {
            lemma_windows_stay_wf(self@, Window { buf: None }, wrap);
        }
        match find_below(&self.windows, self.current) {
            Some(before) => {
                self.current = before;
            },
            None => {
                if wrap {
                    match find_below(&self.windows, self.idcount) {
                        Some(last) => {
                            self.current = last;
                        },
                        None => {},
                    }
                }
            },
        }
    }

    /// The identifiers of the windows, in their order.
    pub fn ids(&self) -> (r: Vec<WindowID>)
        requires
            self.wf(),
        ensures
            forall|id: WindowID| r@.contains(id) <==> self@.windows.contains_key(id),
            forall|i: int, j: int| 0 <= i < j < r.len() ==> r[i] < r[j],
    {
        let mut out: Vec<WindowID> = Vec::new();
        let mut id: WindowID = 0;
        while id < self.idcount
            invariant
                id <= self.idcount,
                forall|k: WindowID| out@.contains(k) <==> self@.windows.contains_key(k) && k < id,
                forall|i: int| 0 <= i < out.len() ==> out[i] < id,
                forall|i: int, j: int| 0 <= i < j < out.len() ==> out[i] < out[j],
            decreases self.idcount - id,
        {
            if self.windows.contains_key(&id) {
                let ghost before = out@;
                out.push(id);
                assert forall|k: WindowID| out@.contains(k) <==> self@.windows.contains_key(k) && k
                    < id + 1 by {
                    if out@.contains(k) {
                        let at = choose|at: int| 0 <= at < out@.len() && out@[at] == k;
                        if at < before.len() {
                            assert(before.contains(k));
                        }
                    }
                    if self@.windows.contains_key(k) && k < id {
                        assert(before.contains(k));
                        let at = choose|at: int| 0 <= at < before.len() && before[at] == k;
                        assert(out@[at] == k);
                    }
                    if k == id {
                        assert(out@[before.len() as int] == k);
                    }
                }
            }
            id += 1;
        }
        out
    }

    /// How many windows there are.
    pub fn count(&self) -> (n: usize)
        ensures
            n == self@.windows.len(),
    {
        self.windows.len()
    }
}

} // verus!
