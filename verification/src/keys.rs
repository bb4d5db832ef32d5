//! Logical keys, key states and the set of held modifier keys.

use vstd::prelude::*;

verus! {

/// A logical key. The keys that the embedding layer gives a meaning of its
/// own have a variant each; every other key travels through as the code the
/// engine knows it by.
#[derive(Clone, Copy, Debug, PartialEq, Eq, Structural)]
pub enum Key {
    PageUp,
    PageDown,
    Home,
    End,
    Up,
    Down,
    Left,
    Right,
    Other(u32),
}

/// What happened to a key.
#[derive(Clone, Copy, Debug, PartialEq, Eq, Structural)]
pub enum KeyState {
    Pressed,
    Released,
    Repeated,
}

/// One of the four modifier keys that are tracked.
#[derive(Clone, Copy, Debug, PartialEq, Eq, Structural)]
pub enum Modifier {
    Control,
    Shift,
    Alt,
    Super,
}

/// The set of modifier keys that are held down: one independent bit for
/// each of control, shift, alt and super.
#[derive(Clone, Copy, Debug, PartialEq, Eq, Structural)]
pub struct KeyModifiers {
    pub control: bool,
    pub shift: bool,
    pub alt: bool,
    pub logo: bool,
}

impl KeyModifiers {
    /// The set that holds no modifier.
    pub open spec fn none() -> KeyModifiers {
        KeyModifiers { control: false, shift: false, alt: false, logo: false }
    }

    /// Whether `modifier` is in the set.
    pub open spec fn has(self, modifier: Modifier) -> bool {
        match modifier {
            Modifier::Control => self.control,
            Modifier::Shift => self.shift,
            Modifier::Alt => self.alt,
            Modifier::Super => self.logo,
        }
    }

    /// The set with `modifier` put in if `pressed`, taken out if not, and
    /// the other three untouched.
    pub open spec fn set(self, modifier: Modifier, pressed: bool) -> KeyModifiers {
        match modifier {
            Modifier::Control => KeyModifiers { control: pressed, ..self },
            Modifier::Shift => KeyModifiers { shift: pressed, ..self },
            Modifier::Alt => KeyModifiers { alt: pressed, ..self },
            Modifier::Super => KeyModifiers { logo: pressed, ..self },
        }
    }

    /// The set that holds `modifier` and nothing else.
    pub open spec fn only(modifier: Modifier) -> KeyModifiers {
        Self::none().set(modifier, true)
    }

    /// Builds the empty set.
    pub fn empty() -> (mods: KeyModifiers)
        ensures
            mods == Self::none(),
    {
        KeyModifiers { control: false, shift: false, alt: false, logo: false }
    }

    /// Builds the set that holds `modifier` alone.
    pub fn single(modifier: Modifier) -> (mods: KeyModifiers)
        ensures
            mods == Self::only(modifier),
    {
        let mut mods = Self::empty();
        mods.toggle(modifier, true);
        mods
    }

    /// Tells whether `modifier` is in the set.
    pub fn contains(&self, modifier: Modifier) -> (held: bool)
        ensures
            held == self.has(modifier),
    {
        match modifier {
            Modifier::Control => self.control,
            Modifier::Shift => self.shift,
            Modifier::Alt => self.alt,
            Modifier::Super => self.logo,
        }
    }

    /// Puts `modifier` into the set or takes it out.
    pub fn toggle(&mut self, modifier: Modifier, pressed: bool)
        ensures
            *final(self) == old(self).set(modifier, pressed),
    {
        match modifier {
            Modifier::Control => {
                self.control = pressed;
            },
            Modifier::Shift => {
                self.shift = pressed;
            },
            Modifier::Alt => {
                self.alt = pressed;
            },
            Modifier::Super => {
                self.logo = pressed;
            },
        }
    }

    /// Returns the set with `modifier` added.
    pub fn with(self, modifier: Modifier) -> (mods: KeyModifiers)
        ensures
            mods == self.set(modifier, true),
    {
        let mut mods = self;
        mods.toggle(modifier, true);
        mods
    }

    /// Returns the set with `modifier` removed.
    pub fn without(self, modifier: Modifier) -> (mods: KeyModifiers)
        ensures
            mods == self.set(modifier, false),
    {
        let mut mods = self;
        mods.toggle(modifier, false);
        mods
    }

    /// Tells whether two sets hold the same modifiers.
    pub fn same(&self, other: &KeyModifiers) -> (equal: bool)
        ensures
            equal == (*self == *other),
    {
        self.control == other.control && self.shift == other.shift && self.alt == other.alt
            && self.logo == other.logo
    }
}

/// Changing one modifier leaves the other three as they were, and the
/// changed one reads back as it was set.
pub proof fn law_modifiers_are_independent(
    mods: KeyModifiers,
    changed: Modifier,
    pressed: bool,
    other: Modifier,
)
    ensures
        mods.set(changed, pressed).has(changed) == pressed,
        other != changed ==> mods.set(changed, pressed).has(other) == mods.has(other),
{
}

} // verus!
