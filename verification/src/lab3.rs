//! Lab 3: the switch of the orbit of the scene objects around the centre.
//! The placement of the objects and their geometry are computed in floating
//! point by the application.

use vstd::prelude::*;

use crate::input::{just_pressed, Key};

verus! {

/// Whether the objects orbit the centre of the scene. Off at start, so that
/// the first picture matches the one of the assignment.
pub struct Orbit {
    pub enabled: bool,
}

impl Default for Orbit {
    fn default() -> (o: Orbit)
        ensures
            !o.enabled,
    {
        Orbit { enabled: false }
    }
}

/// The keyboard step of lab 3: R switches the orbit on and off. Returns
/// whether it did.
pub fn keyboard_system(pressed: &[Key], orbit: &mut Orbit) -> (toggled: bool)
    ensures
        toggled == pressed@.contains(Key::KeyR),
        final(orbit).enabled == (old(orbit).enabled != toggled),
{
    let toggled = just_pressed(pressed, Key::KeyR);
    if toggled {
        orbit.enabled = !orbit.enabled;
    }
    toggled
}

} // verus!
