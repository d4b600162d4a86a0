//! What the keyboard says in one tick, and how long keys have been held.

use crate::edit::Mode;
use crate::keys::{KeyCode, Modifiers};
use std::collections::HashMap;
use vstd::prelude::*;

verus! {

/// A key that is held repeats once it has been down for this many ticks.
pub const KEY_REPEAT_DELAY: u64 = 5;

/// For how many ticks in a row each key has been seen down.
#[derive(Debug, Clone)]
pub struct KeyTimes {
    held: HashMap<u16, u64>,
}

impl View for KeyTimes {
    type V = Map<u16, u64>;

    closed spec fn view(&self) -> Map<u16, u64> {
        self.held@
    }
}

impl KeyTimes {
    /// For how many ticks the key has been seen down; 0 for a key never
    /// asked about.
    pub open spec fn ticks(&self, key_code: KeyCode) -> u64 {
        if self@.contains_key(key_code.0) {
            self@[key_code.0]
        } else {
            0
        }
    }

    pub fn new() -> (r: Self)
        ensures
            forall|key_code: KeyCode| r.ticks(key_code) == 0,
    {
        Self { held: HashMap::new() }
    }
}

/// The count of a key after one more tick: one more while the key is down,
/// as far as the counter goes, and 0 as soon as it is not.
pub open spec fn ticks_after(ticks: u64, down: bool) -> u64 {
    if !down {
        0
    } else if ticks < u64::MAX {
        (ticks + 1) as u64
    } else {
        ticks
    }
}

/// Counts this tick for the key, which is down or not, and says whether the
/// key now repeats: whether it has been down for `KEY_REPEAT_DELAY` ticks in
/// a row. The counts of the other keys stay.
pub fn is_key_repeated(times: &mut KeyTimes, key_code: KeyCode, down: bool) -> (r: bool)
    ensures
        final(times).ticks(key_code) == ticks_after(old(times).ticks(key_code), down),
        forall|other: KeyCode| other != key_code ==> final(times).ticks(other) == old(times).ticks(other),
        r == (final(times).ticks(key_code) >= KEY_REPEAT_DELAY),
{
    let before: u64 = match times.held.get(&key_code.0) {
        Some(ticks) => *ticks,
        None => 0,
    };
    let after: u64 = if !down {
        0
    } else if before < u64::MAX {
        before + 1
    } else {
        before
    };
    times.held.insert(key_code.0, after);
    assert forall|other: KeyCode| other != key_code implies times.ticks(other) == old(times).ticks(
        other,
    ) by {
        assert(other.0 != key_code.0);
    }
    after >= KEY_REPEAT_DELAY
}

/// Whether a key counts as active in this tick: it was pressed just now, or
/// it is held and repeats. A key pressed just now is not counted as held.
pub fn is_key_active(times: &mut KeyTimes, key_code: KeyCode, pressed: bool, down: bool) -> (r: bool)
    ensures
        pressed ==> r && final(times)@ == old(times)@,
        !pressed ==> {
            &&& final(times).ticks(key_code) == ticks_after(old(times).ticks(key_code), down)
            &&& forall|other: KeyCode| other != key_code ==> final(times).ticks(other) == old(times).ticks(other)
            &&& r == (final(times).ticks(key_code) >= KEY_REPEAT_DELAY)
        },
{
    pressed || is_key_repeated(times, key_code, down)
}

/// The set of the modifiers that are down, each of which has a left and a
/// right key.
pub fn modifiers_down(shift: (bool, bool), ctrl: (bool, bool), meta: (bool, bool), super_key: (bool, bool)) -> (m: Modifiers)
    ensures
        m == (Modifiers {
            shift: shift.0 || shift.1,
            ctrl: ctrl.0 || ctrl.1,
            meta: meta.0 || meta.1,
            super_key: super_key.0 || super_key.1,
        }),
{
    Modifiers {
        shift: shift.0 || shift.1,
        ctrl: ctrl.0 || ctrl.1,
        meta: meta.0 || meta.1,
        super_key: super_key.0 || super_key.1,
    }
}

/// What the keyboard says in one tick: the modifiers that are down, and the
/// keys that are active.
#[derive(Debug, Clone)]
pub struct Input {
    pub mods: Modifiers,
    pub active: Vec<KeyCode>,
}

impl Input {
    /// An input with the modifiers `mods` down and no key active.
    pub fn new(mods: Modifiers) -> (r: Self)
        ensures
            r.mods == mods,
            r.active@ == Seq::<KeyCode>::empty(),
    {
        Self { mods, active: Vec::new() }
    }

    /// Notes that the key is active.
    pub fn press(&mut self, key_code: KeyCode)
        ensures
            final(self).mods == old(self).mods,
            final(self).active@ == old(self).active@.push(key_code),
    {
        self.active.push(key_code);
    }

    pub fn is_key_active(&self, key_code: KeyCode) -> (r: bool)
        ensures
            r == self.active@.contains(key_code),
    {
        let mut i: usize = 0;
        while i < self.active.len()
            invariant
                i <= self.active.len(),
                forall|j: int| 0 <= j < i ==> self.active@[j] != key_code,
            decreases self.active.len() - i,
        {
            if self.active[i] == key_code {
                return true;
            }
            i += 1;
        }
        false
    }
}

/// Whether a character that was typed in this tick is text for the buffer:
/// it is in insert mode and when no binding fired. Otherwise what was typed
/// is to be thrown away.
pub fn takes_text(mode: Mode, found_bind: bool) -> (r: bool)
    ensures
        r == (mode == Mode::Insert && !found_bind),
{
    mode == Mode::Insert && !found_bind
}

} // verus!
