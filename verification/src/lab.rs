//! The three labs of the program, the order in which Tab walks through them,
//! their window titles, the start lab given on the command line and the
//! choice of the next lab from the keys of a frame.

use vstd::prelude::*;

use crate::input::{just_pressed, Key};
use crate::text::{trim, trimmed_chars};

verus! {

/// The lab that is shown. Each lab builds its own scene when it is entered.
#[derive(Clone, Copy, Debug, PartialEq, Eq, Structural)]
pub enum Lab {
    Lab1,
    Lab2,
    Lab3,
}

/// The lab that a (trimmed) command-line argument names: `1`, `2` or `3`.
pub open spec fn lab_named(s: Seq<char>) -> Option<Lab> {
    if s == seq!['1'] {
        Some(Lab::Lab1)
    } else if s == seq!['2'] {
        Some(Lab::Lab2)
    } else if s == seq!['3'] {
        Some(Lab::Lab3)
    } else {
        None
    }
}

/// The lab after `lab` in the round 1, 2, 3, 1, ...
pub open spec fn lab_after(lab: Lab) -> Lab {
    match lab {
        Lab::Lab1 => Lab::Lab2,
        Lab::Lab2 => Lab::Lab3,
        Lab::Lab3 => Lab::Lab1,
    }
}

/// The window title of each lab: its name and its controls.
pub open spec fn lab_title(lab: Lab) -> Seq<char> {
    match lab {
        Lab::Lab1 => "Лаба 1: цвет и вращение тора | Пробел, 1-5, A: авто | F1 F2 F3 / Tab: выбор лабы"@,
        Lab::Lab2 => "Лаба 2: авто-смена цвета, glam и Vec | Пробел, 1-5, L: плавно | F1 F2 F3 / Tab"@,
        Lab::Lab3 => "Лаба 3: четыре объекта носиками к центру | R: вращение | F1 F2 F3 / Tab"@,
    }
}

/// The lab that the keys of one frame ask for: F1, F2 and F3 name a lab
/// directly (in that priority), Tab asks for the next one in the round.
pub open spec fn requested_lab(pressed: Seq<Key>, current: Lab) -> Option<Lab> {
    if pressed.contains(Key::F1) {
        Some(Lab::Lab1)
    } else if pressed.contains(Key::F2) {
        Some(Lab::Lab2)
    } else if pressed.contains(Key::F3) {
        Some(Lab::Lab3)
    } else if pressed.contains(Key::Tab) {
        Some(lab_after(current))
    } else {
        None
    }
}

/// The lab to switch to: the requested one, unless it is already shown.
pub open spec fn lab_switch(pressed: Seq<Key>, current: Lab) -> Option<Lab> {
    match requested_lab(pressed, current) {
        Some(lab) => if lab != current { Some(lab) } else { None },
        None => None,
    }
}

impl Lab {
    /// The lab named by a command-line argument; whitespace around the
    /// number is ignored.
    pub fn from_arg(arg: &str) -> (r: Option<Lab>)
        ensures
            r == lab_named(trim(arg@)),
    {
        let chars = trimmed_chars(arg);
        if chars.len() != 1 {
            return None;
        }
        let c = chars[0];
        if c == '1' {
            assert(chars@ =~= seq!['1']);
            Some(Lab::Lab1)
        } else if c == '2' {
            assert(chars@ =~= seq!['2']);
            Some(Lab::Lab2)
        } else if c == '3' {
            assert(chars@ =~= seq!['3']);
            Some(Lab::Lab3)
        } else {
            assert(chars@ != seq!['1'] && chars@ != seq!['2'] && chars@ != seq!['3']) by {
                assert(seq!['1'][0] == '1');
                assert(seq!['2'][0] == '2');
                assert(seq!['3'][0] == '3');
            }
            None
        }
    }

    /// The next lab in the round 1, 2, 3, 1, ...
    pub fn next(self) -> (r: Lab)
        ensures
            r == lab_after(self),
    {
        match self {
            Lab::Lab1 => Lab::Lab2,
            Lab::Lab2 => Lab::Lab3,
            Lab::Lab3 => Lab::Lab1,
        }
    }

    /// The window title: the name of the lab and its controls.
    pub fn title(self) -> (r: &'static str)
        ensures
            r@ == lab_title(self),
    {
        match self {
            Lab::Lab1 => "Лаба 1: цвет и вращение тора | Пробел, 1-5, A: авто | F1 F2 F3 / Tab: выбор лабы",
            Lab::Lab2 => "Лаба 2: авто-смена цвета, glam и Vec | Пробел, 1-5, L: плавно | F1 F2 F3 / Tab",
            Lab::Lab3 => "Лаба 3: четыре объекта носиками к центру | R: вращение | F1 F2 F3 / Tab",
        }
    }
}

/// The lab the program opens with: the one named by the first command-line
/// argument, and lab 3 when there is none or it names no lab.
pub fn start_lab(arg: Option<&str>) -> (r: Lab)
    ensures
        r == (match arg {
            Some(a) => match lab_named(trim(a@)) {
                Some(lab) => lab,
                None => Lab::Lab3,
            },
            None => Lab::Lab3,
        }),
{
    match arg {
        Some(a) => match Lab::from_arg(a) {
            Some(lab) => lab,
            None => Lab::Lab3,
        },
        None => Lab::Lab3,
    }
}

/// The decision of the lab switch: from the keys pressed this frame and the
/// lab shown, the lab to switch to, if any. F1, F2 and F3 choose a lab
/// directly, Tab the next one in the round; the lab shown is never chosen.
pub fn switch_lab_system(pressed: &[Key], current: Lab) -> (r: Option<Lab>)
    ensures
        r == lab_switch(pressed@, current),
        pressed@.contains(Key::F1) && current != Lab::Lab1 ==> r == Some(Lab::Lab1),
        !pressed@.contains(Key::F1) && pressed@.contains(Key::F2) && current != Lab::Lab2 ==> r
            == Some(Lab::Lab2),
        !pressed@.contains(Key::F1) && !pressed@.contains(Key::F2) && pressed@.contains(Key::F3)
            && current != Lab::Lab3 ==> r == Some(Lab::Lab3),
{
    let target = if just_pressed(pressed, Key::F1) {
        Some(Lab::Lab1)
    } else if just_pressed(pressed, Key::F2) {
        Some(Lab::Lab2)
    } else if just_pressed(pressed, Key::F3) {
        Some(Lab::Lab3)
    } else if just_pressed(pressed, Key::Tab) {
        Some(current.next())
    } else {
        None
    };
    match target {
        Some(lab) => if lab != current { Some(lab) } else { None },
        None => None,
    }
}

/// Tab walks through all three labs and comes back: the round has no fixed
/// point and returns to its start after three steps.
pub proof fn lemma_tab_round(lab: Lab)
    ensures
        lab_after(lab) != lab,
        lab_after(lab_after(lab)) != lab,
        lab_after(lab_after(lab_after(lab))) == lab,
{
}

/// A switch never chooses the lab that is already shown, and Tab alone (or
/// together with keys other than F1, F2 and F3) always moves to the next lab.
pub proof fn lemma_switch_changes_lab(pressed: Seq<Key>, current: Lab)
    ensures
        lab_switch(pressed, current) != Some(current),
        (pressed.contains(Key::Tab) && !pressed.contains(Key::F1) && !pressed.contains(Key::F2)
            && !pressed.contains(Key::F3)) ==> lab_switch(pressed, current) == Some(
            lab_after(current),
        ),
{
}

/// F1, F2 and F3 name their lab directly, whatever lab is shown: F1 goes to
/// lab 1; F2, without F1, to lab 2; F3, without F1 and F2, to lab 3; in each
/// case nothing happens when that lab is already shown. Tab alone goes one
/// step along the round 1, 2, 3, 1.
pub proof fn lemma_function_keys_name_their_lab(pressed: Seq<Key>, current: Lab)
    ensures
        pressed.contains(Key::F1) ==> lab_switch(pressed, current) == (if current == Lab::Lab1 {
            None
        } else {
            Some(Lab::Lab1)
        }),
        !pressed.contains(Key::F1) && pressed.contains(Key::F2) ==> lab_switch(pressed, current)
            == (if current == Lab::Lab2 {
            None
        } else {
            Some(Lab::Lab2)
        }),
        !pressed.contains(Key::F1) && !pressed.contains(Key::F2) && pressed.contains(Key::F3)
            ==> lab_switch(pressed, current) == (if current == Lab::Lab3 {
            None
        } else {
            Some(Lab::Lab3)
        }),
        !pressed.contains(Key::F1) && !pressed.contains(Key::F2) && !pressed.contains(Key::F3)
            && pressed.contains(Key::Tab) ==> lab_switch(pressed, current) == Some(
            match current {
                Lab::Lab1 => Lab::Lab2,
                Lab::Lab2 => Lab::Lab3,
                Lab::Lab3 => Lab::Lab1,
            },
        ),
        !pressed.contains(Key::F1) && !pressed.contains(Key::F2) && !pressed.contains(Key::F3)
            && !pressed.contains(Key::Tab) ==> lab_switch(pressed, current) is None,
{
}

} // verus!
