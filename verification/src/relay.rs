//! The lamp relay's logic. The relay's trigger input is a level, not a
//! pulse: GPIO high energises the outlet the lamp is on, GPIO low releases
//! it. The pin driver lives in the application; this keeps what the pin
//! was last driven to, so the pin is only written when the lamp changes.

use vstd::prelude::*;

verus! {

/// The level to drive the trigger pin to, from the lamp state `state`, for
/// the lamp to be `on`; None when nothing needs writing.
pub open spec fn drive(state: bool, on: bool) -> Option<bool> {
    if state == on {
        None
    } else {
        Some(on)
    }
}

#[derive(Debug)]
pub struct Relay {
    on: bool,
}

impl View for Relay {
    type V = bool;

    /// Whether the lamp's outlet is energised.
    closed spec fn view(&self) -> bool {
        self.on
    }
}

impl Relay {
    /// A relay whose trigger pin has just been driven low: lamp off.
    pub fn new() -> (r: Self)
        ensures
            r@ == false,
    {
        Relay { on: false }
    }

    pub fn is_on(&self) -> (r: bool)
        ensures
            r == self@,
    {
        self.on
    }

    /// The level to drive the trigger pin to for the lamp to be `on`, or
    /// None when it already is.
    pub fn drive_for(&self, on: bool) -> (r: Option<bool>)
        ensures
            r == drive(self@, on),
    {
        if self.on == on {
            None
        } else {
            Some(on)
        }
    }

    /// Records that the trigger pin now holds `level`.
    pub fn driven(&mut self, level: bool)
        ensures
            final(self)@ == level,
    {
        self.on = level;
    }
}

/// Switching is idempotent: the pin is driven to the level asked for, and
/// once it holds it, asking for the same lamp state again writes nothing.
pub proof fn lemma_switch_once(state: bool, on: bool)
    ensures
        drive(state, on) matches Some(level) ==> level == on && drive(level, on) is None,
        drive(on, on) is None,
{
}

} // verus!
