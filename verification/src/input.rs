//! Keys that the labs react to, and the set of keys pressed in one frame.

use vstd::prelude::*;

verus! {

/// A key that one of the labs reacts to.
#[derive(Clone, Copy, Debug, PartialEq, Eq, Structural)]
pub enum Key {
    Digit1,
    Digit2,
    Digit3,
    Digit4,
    Digit5,
    Space,
    KeyA,
    KeyL,
    KeyR,
    F1,
    F2,
    F3,
    Tab,
}

/// The key that selects palette colour `i` directly (`1` selects colour 0).
pub open spec fn color_key(i: int) -> Key {
    if i == 0 {
        Key::Digit1
    } else if i == 1 {
        Key::Digit2
    } else if i == 2 {
        Key::Digit3
    } else if i == 3 {
        Key::Digit4
    } else {
        Key::Digit5
    }
}

/// Number of keys that select a colour directly.
pub const COLOR_KEY_COUNT: usize = 5;

/// The position of the first colour key, searching from colour `i` on, among
/// the keys pressed this frame.
pub open spec fn first_color_key_from(pressed: Seq<Key>, i: int) -> Option<int>
    decreases 5 - i,
{
    if i < 0 || i >= 5 {
        None
    } else if pressed.contains(color_key(i)) {
        Some(i)
    } else {
        first_color_key_from(pressed, i + 1)
    }
}

/// The position of the first colour key (in the order `1` to `5`) among the
/// keys pressed this frame, if any.
pub open spec fn first_color_key(pressed: Seq<Key>) -> Option<int> {
    first_color_key_from(pressed, 0)
}

/// Whether `key` was pressed this frame.
pub fn just_pressed(pressed: &[Key], key: Key) -> (r: bool)
    ensures
        r == pressed@.contains(key),
{
    let mut i: usize = 0;
    while i < pressed.len()
        invariant
            i <= pressed@.len(),
            forall|j: int| 0 <= j < i ==> pressed@[j] != key,
        decreases pressed@.len() - i,
    {
        if pressed[i] == key {
            return true;
        }
        i = i + 1;
    }
    false
}

/// The key that selects colour `i`.
pub fn color_key_at(i: usize) -> (k: Key)
    requires
        i < COLOR_KEY_COUNT,
    ensures
        k == color_key(i as int),
{
    if i == 0 {
        Key::Digit1
    } else if i == 1 {
        Key::Digit2
    } else if i == 2 {
        Key::Digit3
    } else if i == 3 {
        Key::Digit4
    } else {
        Key::Digit5
    }
}

/// The position of the first colour key pressed this frame: the same choice
/// as a search of the keys `1` to `5` in order.
pub fn pressed_color_key(pressed: &[Key]) -> (r: Option<usize>)
    ensures
        match r {
            Some(i) => i < COLOR_KEY_COUNT && first_color_key(pressed@) == Some(i as int),
            None => first_color_key(pressed@) is None,
        },
{
    let mut i: usize = 0;
    while i < COLOR_KEY_COUNT
        invariant
            i <= 5,
            first_color_key(pressed@) == first_color_key_from(pressed@, i as int),
        decreases 5 - i,
    {
        if just_pressed(pressed, color_key_at(i)) {
            return Some(i);
        }
        i = i + 1;
    }
    None
}

/// A frame without key presses selects no colour.
pub proof fn lemma_no_color_key()
    ensures
        first_color_key(seq![]) is None,
{
    let none: Seq<Key> = seq![];
    assert(!none.contains(color_key(4)));
    assert(first_color_key_from(none, 5) is None);
    assert(first_color_key_from(none, 4) is None);
    assert(first_color_key_from(none, 3) is None);
    assert(first_color_key_from(none, 2) is None);
    assert(first_color_key_from(none, 1) is None);
}

/// The colour key found from position `i` on is a position from `i` to 4.
pub proof fn lemma_color_key_bounds(pressed: Seq<Key>, i: int)
    requires
        0 <= i,
    ensures
        first_color_key_from(pressed, i) matches Some(k) ==> i <= k < 5,
    decreases 5 - i,
{
    if i < 5 && !pressed.contains(color_key(i)) {
        lemma_color_key_bounds(pressed, i + 1);
    }
}

} // verus!
