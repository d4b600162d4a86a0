//! Keys, modifier keys, and the bindings of keys to modes.

use crate::edit::Mode;
use crate::input::Input;
use vstd::prelude::*;

verus! {

/// A key of the keyboard, by the number that the input layer gives it.
#[derive(Debug, Clone, Copy, PartialEq, Eq, Structural, Hash)]
pub struct KeyCode(pub u16);

/// A set of modifier keys.
#[derive(Debug, Clone, Copy, PartialEq, Eq, Structural, Hash)]
pub struct Modifiers {
    pub shift: bool,
    pub ctrl: bool,
    pub meta: bool,
    pub super_key: bool,
}

impl Modifiers {
    /// The set of no modifiers, in the model.
    pub open spec fn none() -> Modifiers {
        Modifiers { shift: false, ctrl: false, meta: false, super_key: false }
    }

    /// The set of no modifiers.
    pub fn nomod() -> (m: Modifiers)
        ensures
            m == Modifiers::none(),
    {
        Modifiers { shift: false, ctrl: false, meta: false, super_key: false }
    }

    /// The set of shift alone.
    pub fn shift() -> (m: Modifiers)
        ensures
            m == (Modifiers { shift: true, ..Modifiers::none() }),
    {
        Modifiers { shift: true, ctrl: false, meta: false, super_key: false }
    }

    /// The set of control alone.
    pub fn ctrl() -> (m: Modifiers)
        ensures
            m == (Modifiers { ctrl: true, ..Modifiers::none() }),
    {
        Modifiers { shift: false, ctrl: true, meta: false, super_key: false }
    }

    /// The set of meta alone.
    pub fn meta() -> (m: Modifiers)
        ensures
            m == (Modifiers { meta: true, ..Modifiers::none() }),
    {
        Modifiers { shift: false, ctrl: false, meta: true, super_key: false }
    }

    /// The set of super alone.
    pub fn super_key() -> (m: Modifiers)
        ensures
            m == (Modifiers { super_key: true, ..Modifiers::none() }),
    {
        Modifiers { shift: false, ctrl: false, meta: false, super_key: true }
    }

    /// The set as bits: 1 for shift, 2 for control, 4 for meta, 8 for super.
    pub open spec fn spec_bits(self) -> int {
        (if self.shift { 1int } else { 0 }) + (if self.ctrl { 2int } else { 0 }) + (if self.meta {
            4int
        } else {
            0
        }) + (if self.super_key { 8int } else { 0 })
    }

    /// How many modifiers the set holds.
    pub open spec fn spec_count(self) -> int {
        (if self.shift { 1int } else { 0 }) + (if self.ctrl { 1int } else { 0 }) + (if self.meta {
            1int
        } else {
            0
        }) + (if self.super_key { 1int } else { 0 })
    }

    /// The modifiers of both sets.
    pub open spec fn spec_union(self, other: Modifiers) -> Modifiers {
        Modifiers {
            shift: self.shift || other.shift,
            ctrl: self.ctrl || other.ctrl,
            meta: self.meta || other.meta,
            super_key: self.super_key || other.super_key,
        }
    }

    /// The modifiers that are in both sets.
    pub open spec fn spec_intersection(self, other: Modifiers) -> Modifiers {
        Modifiers {
            shift: self.shift && other.shift,
            ctrl: self.ctrl && other.ctrl,
            meta: self.meta && other.meta,
            super_key: self.super_key && other.super_key,
        }
    }

    pub fn bits(&self) -> (b: u8)
        ensures
            b == self.spec_bits(),
    {
        let mut b: u8 = 0;
        if self.shift {
            b += 1;
        }
        if self.ctrl {
            b += 2;
        }
        if self.meta {
            b += 4;
        }
        if self.super_key {
            b += 8;
        }
        b
    }

    /// The set that the four low bits of `bits` stand for; the other bits
    /// are dropped.
    pub fn from_bits_truncate(bits: u8) -> (m: Self)
        ensures
            m.spec_bits() == bits % 16,
    {
        Modifiers {
            shift: bits % 2 == 1,
            ctrl: (bits / 2) % 2 == 1,
            meta: (bits / 4) % 2 == 1,
            super_key: (bits / 8) % 2 == 1,
        }
    }

    pub fn is_empty(&self) -> (r: bool)
        ensures
            r == (*self == Modifiers::none()),
    {
        !(self.shift || self.ctrl || self.meta || self.super_key)
    }

    /// Whether every modifier of `other` is in this set.
    pub fn contains(&self, other: Modifiers) -> (r: bool)
        ensures
            r == (self.spec_intersection(other) == other),
    {
        (!other.shift || self.shift) && (!other.ctrl || self.ctrl) && (!other.meta || self.meta)
            && (!other.super_key || self.super_key)
    }

    /// Whether some modifier is in both sets.
    pub fn intersects(&self, other: Modifiers) -> (r: bool)
        ensures
            r == (self.spec_intersection(other) != Modifiers::none()),
    {
        (self.shift && other.shift) || (self.ctrl && other.ctrl) || (self.meta && other.meta) || (
        self.super_key && other.super_key)
    }

    pub fn union(self, other: Modifiers) -> (m: Modifiers)
        ensures
            m == self.spec_union(other),
    {
        Modifiers {
            shift: self.shift || other.shift,
            ctrl: self.ctrl || other.ctrl,
            meta: self.meta || other.meta,
            super_key: self.super_key || other.super_key,
        }
    }

    /// Whether the modifiers that a binding asks for are down, `down` being
    /// the modifiers that are: the two sets have to be the same. A binding
    /// that asks for none does not fire while one is down, and one that asks
    /// for shift does not fire while control is down too.
    pub fn are_down(&self, down: Modifiers) -> (r: bool)
        ensures
            r == (*self == down),
    {
        *self == down
    }

    /// How many modifiers the set holds.
    pub fn count(&self) -> (n: usize)
        ensures
            n == self.spec_count(),
    {
        let mut n: usize = 0;
        if self.shift {
            n += 1;
        }
        if self.ctrl {
            n += 1;
        }
        if self.meta {
            n += 1;
        }
        if self.super_key {
            n += 1;
        }
        n
    }
}

impl core::ops::BitOr for Modifiers {
    type Output = Modifiers;

    fn bitor(self, rhs: Modifiers) -> (m: Modifiers) {
        self.union(rhs)
    }
}

impl vstd::std_specs::ops::BitOrSpecImpl for Modifiers {
    open spec fn obeys_bitor_spec() -> bool {
        true
    }

    open spec fn bitor_req(self, rhs: Modifiers) -> bool {
        true
    }

    open spec fn bitor_spec(self, rhs: Modifiers) -> Modifiers {
        self.spec_union(rhs)
    }
}

/// A key together with the modifiers that have to be down with it.
#[derive(Debug, Clone, Copy, PartialEq, Eq, Structural, Hash)]
pub struct Key {
    pub key_code: KeyCode,
    pub mods: Modifiers,
}

impl Key {
    pub fn new(key_code: KeyCode, mods: Modifiers) -> (k: Self)
        ensures
            k == (Key { key_code, mods }),
    {
        Self { key_code, mods }
    }

    /// Whether `input` asserts this key: its code is among the active keys,
    /// and the modifiers that are down are exactly its own.
    pub open spec fn asserted_by(self, input: Input) -> bool {
        input.active@.contains(self.key_code) && self.mods == input.mods
    }

    pub fn is_active(&self, input: &Input) -> (r: bool)
        ensures
            r == self.asserted_by(*input),
    {
        input.is_key_active(self.key_code) && self.mods.are_down(input.mods)
    }
}

/// A key bound in one mode.
#[derive(Debug, Clone, Copy, Hash, PartialEq, Eq, Structural)]
pub struct Keybind {
    pub mode: Mode,
    pub key: Key,
}

impl Keybind {
    pub fn new(key: Key, mode: Mode) -> (b: Self)
        ensures
            b == (Keybind { key, mode }),
    {
        Self { key, mode }
    }

    /// Whether the binding fires: the editor is in its mode and the input
    /// asserts its key.
    pub open spec fn fires(self, mode: Mode, input: Input) -> bool {
        self.mode == mode && self.key.asserted_by(input)
    }

    pub fn is_active(&self, mode: Mode, input: &Input) -> (r: bool)
        ensures
            r == self.fires(mode, *input),
    {
        self.mode == mode && self.key.is_active(input)
    }
}

} // verus!
