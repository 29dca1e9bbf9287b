//! The local state of a table between events.
use vstd::prelude::*;

verus! {

/// The keyboard modifiers that are held down.
#[derive(Debug, Clone, Copy, PartialEq, Eq, Structural)]
pub struct Modifiers {
    /// The shift key.
    pub shift: bool,
    /// The control key.
    pub control: bool,
    /// The alt key.
    pub alt: bool,
    /// The "windows", "command" or "super" key.
    pub logo: bool,
}

impl Modifiers {
    /// No modifier held.
    pub open spec fn none() -> Modifiers {
        Modifiers { shift: false, control: false, alt: false, logo: false }
    }
}

/// The local state of a table.
#[derive(Debug, Clone, Copy)]
pub struct State {
    keyboard_modifiers: Modifiers,
}

impl View for State {
    type V = Modifiers;

    /// The modifiers held when the last event arrived.
    closed spec fn view(&self) -> Modifiers {
        self.keyboard_modifiers
    }
}

impl State {
    /// Creates a state with no modifier held.
    pub fn new() -> (r: State)
        ensures
            r@ == Modifiers::none(),
    {
        State {
            keyboard_modifiers: Modifiers { shift: false, control: false, alt: false, logo: false },
        }
    }

    /// The modifiers held when the last event arrived.
    pub fn keyboard_modifiers(&self) -> (r: Modifiers)
        ensures
            r == self@,
    {
        self.keyboard_modifiers
    }
}

impl Default for State {
    fn default() -> (r: State)
        ensures
            r@ == Modifiers::none(),
    {
        State::new()
    }
}

} // verus!
