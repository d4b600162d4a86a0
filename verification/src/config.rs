//! What an editor is set up with: the actions bound to keys, the callbacks
//! subscribed to events, and the callback that makes the status line.
//!
//! The actions and callbacks are values of the caller's choice; this module
//! keeps them, finds them, and says which of them are due.

use crate::edit::event::{Event, EventData};
use crate::edit::{Editor, Mode};
use crate::input::Input;
use crate::keys::Keybind;
use vstd::prelude::*;

verus! {

/// The first place at or after `from` at which `key` stands in `entries`.
pub open spec fn position_from<K, V>(entries: Seq<(K, V)>, key: K, from: int) -> Option<int>
    decreases entries.len() - from,
{
    if from < 0 || from >= entries.len() {
        None
    } else if entries[from].0 == key {
        Some(from)
    } else {
        position_from(entries, key, from + 1)
    }
}

/// The first place at which `key` stands in `entries`.
pub open spec fn position<K, V>(entries: Seq<(K, V)>, key: K) -> Option<int> {
    position_from(entries, key, 0)
}

/// `entries` with `value` under `key`: in the place of what `key` had, or at
/// the end if it had nothing.
pub open spec fn registered<K, V>(entries: Seq<(K, V)>, key: K, value: V) -> Seq<(K, V)> {
    match position(entries, key) {
        Some(at) => entries.update(at, (key, value)),
        None => entries.push((key, value)),
    }
}

/// What `entries` has under `key`.
pub open spec fn lookup<K, V>(entries: Seq<(K, V)>, key: K) -> Option<V> {
    match position(entries, key) {
        Some(at) => Some(entries[at].1),
        None => None,
    }
}

/// No key stands twice in `entries`.
pub open spec fn distinct<K, V>(entries: Seq<(K, V)>) -> bool {
    forall|i: int, j: int|
        0 <= i < j < entries.len() ==> (#[trigger] entries[i]).0 != (#[trigger] entries[j]).0
}

/// `position_from` gives the first place of the key at or after `from`, and
/// `None` exactly when the key stands nowhere from there on.
pub proof fn lemma_position_from<K, V>(entries: Seq<(K, V)>, key: K, from: int)
    requires
        0 <= from,
    ensures
        match position_from(entries, key, from) {
            Some(at) => {
                &&& from <= at < entries.len()
                &&& entries[at].0 == key
                &&& forall|j: int| from <= j < at ==> (#[trigger] entries[j]).0 != key
            },
            None => forall|j: int| from <= j < entries.len() ==> (#[trigger] entries[j]).0 != key,
        },
    decreases entries.len() - from,
{
    if from < entries.len() && entries[from].0 != key {
        lemma_position_from(entries, key, from + 1);
    }
}

/// `position` gives the first place of the key, and `None` exactly when the
/// key stands nowhere.
pub proof fn lemma_position<K, V>(entries: Seq<(K, V)>, key: K)
    ensures
        match position(entries, key) {
            Some(at) => {
                &&& 0 <= at < entries.len()
                &&& entries[at].0 == key
                &&& forall|j: int| 0 <= j < at ==> (#[trigger] entries[j]).0 != key
            },
            None => forall|j: int| 0 <= j < entries.len() ==> (#[trigger] entries[j]).0 != key,
        },
{
    lemma_position_from(entries, key, 0);
}

/// Registering keeps the keys distinct, puts the value under the key, and
/// leaves what the other keys have.
pub proof fn lemma_registered<K, V>(entries: Seq<(K, V)>, key: K, value: V)
    requires
        distinct(entries),
    ensures
        distinct(registered(entries, key, value)),
        lookup(registered(entries, key, value), key) == Some(value),
        forall|other: K| other != key ==> lookup(registered(entries, key, value), other) == lookup(entries, other),
{
    let after = registered(entries, key, value);
    lemma_position(entries, key);
    lemma_position(after, key);
    assert(after.len() > 0);
    match position(entries, key) {
        Some(at) => {
            assert(after[at] == (key, value));
        },
        None => {
            assert(after[entries.len() as int] == (key, value));
        },
    }
    assert forall|other: K| other != key implies lookup(after, other) == lookup(entries, other) by {
        lemma_position(entries, other);
        lemma_position(after, other);
        match position(entries, other) {
            Some(at) => {
                assert(after[at] == entries[at]);
            },
            None => {},
        }
        match position(after, other) {
            Some(at) => {
                if at < entries.len() {
                    assert(after[at].0 == entries[at].0);
                }
            },
            None => {},
        }
    }
}

/// The first binding at or after place `from` that fires.
pub open spec fn first_active<A>(keybinds: Seq<(Keybind, A)>, from: int, mode: Mode, input: Input) -> Option<int>
    decreases keybinds.len() - from,
{
    if from < 0 || from >= keybinds.len() {
        None
    } else if keybinds[from].0.fires(mode, input) {
        Some(from)
    } else {
        first_active(keybinds, from + 1, mode, input)
    }
}

/// `first_active` gives a binding that fires, with none that fires between
/// `from` and it, and `None` exactly when none fires from `from` on.
pub proof fn lemma_first_active<A>(keybinds: Seq<(Keybind, A)>, from: int, mode: Mode, input: Input)
    requires
        0 <= from,
    ensures
        match first_active(keybinds, from, mode, input) {
            Some(at) => {
                &&& from <= at < keybinds.len()
                &&& keybinds[at].0.fires(mode, input)
                &&& forall|j: int| from <= j < at ==> !keybinds[j].0.fires(mode, input)
            },
            None => forall|j: int| from <= j < keybinds.len() ==> !keybinds[j].0.fires(mode, input),
        },
    decreases keybinds.len() - from,
{
    if from < keybinds.len() && !keybinds[from].0.fires(mode, input) {
        lemma_first_active(keybinds, from + 1, mode, input);
    }
}

/// The set-up of an editor. `A` is what a key is bound to, `C` what is
/// subscribed to an event, `S` what makes the status line.
#[derive(Debug, Clone)]
pub struct Config<A, C, S> {
    keybinds: Vec<(Keybind, A)>,
    autocmds: Vec<(Event, C)>,
    statusline: S,
}

/// What a set-up is: the bindings in the order in which their keys were first
/// bound, the subscriptions, and the maker of the status line.
pub struct ConfigModel<A, C, S> {
    pub keybinds: Seq<(Keybind, A)>,
    pub autocmds: Seq<(Event, C)>,
    pub statusline: S,
}

impl<A, C, S> ConfigModel<A, C, S> {
    /// No key is bound twice and no event subscribed to twice.
    pub open spec fn wf(self) -> bool {
        distinct(self.keybinds) && distinct(self.autocmds)
    }
}

impl<A, C, S> View for Config<A, C, S> {
    type V = ConfigModel<A, C, S>;

    closed spec fn view(&self) -> ConfigModel<A, C, S> {
        ConfigModel {
            keybinds: self.keybinds@,
            autocmds: self.autocmds@,
            statusline: self.statusline,
        }
    }
}

impl<A, C, S> Config<A, C, S> {
    /// The invariant of the set-up: that of its model.
    pub open spec fn wf(&self) -> bool {
        self@.wf()
    }

    /// A set-up with no binding and no subscription.
    pub fn new(statusline: S) -> (r: Self)
        ensures
            r.wf(),
            r@.keybinds == Seq::<(Keybind, A)>::empty(),
            r@.autocmds == Seq::<(Event, C)>::empty(),
            r@.statusline == statusline,
    {
        Self { keybinds: Vec::new(), autocmds: Vec::new(), statusline }
    }

    pub fn set_status(&mut self, action: S)
        ensures
            final(self)@ == (ConfigModel { statusline: action, ..old(self)@ }),
    {
        self.statusline = action;
    }

    /// Binds `keybind` to `action`. A key that was bound keeps its place
    /// among the bindings and loses its old action.
    pub fn keymap(&mut self, keybind: Keybind, action: A)
        ensures
            final(self)@ == (ConfigModel {
                keybinds: registered(old(self)@.keybinds, keybind, action),
                ..old(self)@
            }),
            old(self).wf() ==> final(self).wf(),
    {
        let mut i: usize = 0;
        while i < self.keybinds.len()
            invariant
                i <= self.keybinds.len(),
                *self == *old(self),
                forall|j: int| 0 <= j < i ==> (#[trigger] self.keybinds@[j]).0 != keybind,
            decreases self.keybinds.len() - i,
        {
            if self.keybinds[i].0 == keybind {
                proof {
                    lemma_position(self.keybinds@, keybind);
                    if distinct(self.keybinds@) {
                        lemma_registered(self.keybinds@, keybind, action);
                    }
                }
                self.keybinds.set(i, (keybind, action));
                return ;
            }
            i += 1;
        }
        proof {
            lemma_position(self.keybinds@, keybind);
            if distinct(self.keybinds@) {
                lemma_registered(self.keybinds@, keybind, action);
            }
        }
        self.keybinds.push((keybind, action));
    }

    /// Subscribes `action` to the events of kind `ev`, in the place of what
    /// was subscribed to them.
    pub fn autocmd(&mut self, ev: Event, action: C)
        ensures
            final(self)@ == (ConfigModel {
                autocmds: registered(old(self)@.autocmds, ev, action),
                ..old(self)@
            }),
            old(self).wf() ==> final(self).wf(),
    {
        let mut i: usize = 0;
        while i < self.autocmds.len()
            invariant
                i <= self.autocmds.len(),
                *self == *old(self),
                forall|j: int| 0 <= j < i ==> (#[trigger] self.autocmds@[j]).0 != ev,
            decreases self.autocmds.len() - i,
        {
            if self.autocmds[i].0 == ev {
                proof {
                    lemma_position(self.autocmds@, ev);
                    if distinct(self.autocmds@) {
                        lemma_registered(self.autocmds@, ev, action);
                    }
                }
                self.autocmds.set(i, (ev, action));
                return ;
            }
            i += 1;
        }
        proof {
            lemma_position(self.autocmds@, ev);
            if distinct(self.autocmds@) {
                lemma_registered(self.autocmds@, ev, action);
            }
        }
        self.autocmds.push((ev, action));
    }

    pub fn autocmds(&self) -> (r: &Vec<(Event, C)>)
        ensures
            r@ == self@.autocmds,
    {
        &self.autocmds
    }

    pub fn statusline(&self) -> (r: &S)
        ensures
            *r == self@.statusline,
    {
        &self.statusline
    }

    pub fn keybinds(&self) -> (r: &Vec<(Keybind, A)>)
        ensures
            r@ == self@.keybinds,
    {
        &self.keybinds
    }

    /// What is subscribed to the events of kind `ev`.
    pub fn find_autocmd(&self, ev: Event) -> (r: Option<&C>)
        ensures
            match r {
                Some(action) => lookup(self@.autocmds, ev) == Some(*action),
                None => lookup(self@.autocmds, ev) is None,
            },
    {
        let mut i: usize = 0;
        while i < self.autocmds.len()
            invariant
                i <= self.autocmds.len(),
                forall|j: int| 0 <= j < i ==> (#[trigger] self.autocmds@[j]).0 != ev,
            decreases self.autocmds.len() - i,
        {
            if self.autocmds[i].0 == ev {
                proof {
                    lemma_position(self.autocmds@, ev);
                }
                return Some(&self.autocmds[i].1);
            }
            i += 1;
        }
        proof {
            lemma_position(self.autocmds@, ev);
        }
        None
    }

    /// The place of the first binding at or after `from` that fires in mode
    /// `mode` under `input`. Asked again from one past what it gave, until it
    /// gives `None`, it goes through every binding that fires, in the order of
    /// the bindings.
    pub fn next_active(&self, from: usize, mode: Mode, input: &Input) -> (r: Option<usize>)
        ensures
            match r {
                Some(at) => first_active(self@.keybinds, from as int, mode, *input) == Some(at as int),
                None => first_active(self@.keybinds, from as int, mode, *input) is None,
            },
    {
        let mut i: usize = from;
        while i < self.keybinds.len()
            invariant
                from <= i,
                first_active(self@.keybinds, from as int, mode, *input) == first_active(
                    self@.keybinds,
                    i as int,
                    mode,
                    *input,
                ),
            decreases self.keybinds.len() - i,
        {
            if self.keybinds[i].0.is_active(mode, input) {
                return Some(i);
            }
            i += 1;
        }
        None
    }

    /// Takes the oldest event out of the editor's queue, if there is one, and
    /// returns it with what is subscribed to its kind, if anything is. At most
    /// one event leaves the queue, whether or not anything is subscribed.
    pub fn handle_events(&self, ed: &mut Editor) -> (r: Option<(&C, EventData)>)
        ensures
            final(ed)@ == (crate::edit::EditorModel {
                events: if old(ed)@.events.len() > 0 {
                    old(ed)@.events.drop_first()
                } else {
                    old(ed)@.events
                },
                ..old(ed)@
            }),
            match r {
                Some((action, ev)) => {
                    &&& old(ed)@.events.len() > 0
                    &&& ev == old(ed)@.events[0]
                    &&& lookup(self@.autocmds, ev.kind()) == Some(*action)
                },
                None => old(ed)@.events.len() > 0 ==> lookup(
                    self@.autocmds,
                    old(ed)@.events[0].kind(),
                ) is None,
            },
    {
        match ed.poll_event() {
            Some(ev) => match self.find_autocmd(ev.base()) {
                Some(action) => Some((action, ev)),
                None => None,
            },
            None => None,
        }
    }
}

} // verus!
