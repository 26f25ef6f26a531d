//! The per-frame snapshot of the buttons, as the entities read it.

use vstd::prelude::*;

verus! {

/// The buttons an entity can ask about.
#[allow(clippy::upper_case_acronyms)]
#[derive(Clone, Copy, PartialEq, Eq, Debug, Structural)]
pub enum Button {
    UP,
    DOWN,
    LEFT,
    RIGHT,
    A,
    B,
}

/// One flag per button.
#[derive(Clone, Copy, PartialEq, Eq, Debug, Structural)]
pub struct ButtonSet {
    pub up: bool,
    pub down: bool,
    pub left: bool,
    pub right: bool,
    pub a: bool,
    pub b: bool,
}

impl ButtonSet {
    /// The set with no button in it.
    pub open spec fn empty() -> ButtonSet {
        ButtonSet { up: false, down: false, left: false, right: false, a: false, b: false }
    }

    /// Whether `button` is in the set.
    pub open spec fn has(self, button: Button) -> bool {
        match button {
            Button::UP => self.up,
            Button::DOWN => self.down,
            Button::LEFT => self.left,
            Button::RIGHT => self.right,
            Button::A => self.a,
            Button::B => self.b,
        }
    }

    /// Whether `button` is in the set.
    pub fn contains(&self, button: Button) -> (r: bool)
        ensures
            r == self.has(button),
    {
        match button {
            Button::UP => self.up,
            Button::DOWN => self.down,
            Button::LEFT => self.left,
            Button::RIGHT => self.right,
            Button::A => self.a,
            Button::B => self.b,
        }
    }
}

/// What the buttons did this frame: which are held down now, and which
/// went down since the frame before.
#[derive(Clone, Copy, PartialEq, Eq, Debug, Structural)]
pub struct InputSnapshot {
    pub held: ButtonSet,
    pub just_pressed: ButtonSet,
}

impl InputSnapshot {
    /// The snapshot of an untouched pad.
    pub open spec fn idle() -> InputSnapshot {
        InputSnapshot { held: ButtonSet::empty(), just_pressed: ButtonSet::empty() }
    }

    /// A snapshot with nothing held and nothing pressed.
    pub fn new() -> (s: InputSnapshot)
        ensures
            s == InputSnapshot::idle(),
    {
        let none = ButtonSet {
            up: false,
            down: false,
            left: false,
            right: false,
            a: false,
            b: false,
        };
        InputSnapshot { held: none, just_pressed: none }
    }

    /// Whether `button` is held down in this frame.
    pub fn is_pressed(&self, button: Button) -> (r: bool)
        ensures
            r == self.held.has(button),
    {
        self.held.contains(button)
    }

    /// Whether `button` went down in this frame.
    pub fn is_just_pressed(&self, button: Button) -> (r: bool)
        ensures
            r == self.just_pressed.has(button),
    {
        self.just_pressed.contains(button)
    }
}

} // verus!
