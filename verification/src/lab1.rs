//! Lab 1: a torus whose colour is chosen from a palette with Space and the
//! digit keys, and changed once a second while the automatic mode (key A)
//! is on. The palette holds colours of any type; the application fills it
//! with renderer colours.

use vstd::prelude::*;

use crate::input::{
    first_color_key, just_pressed, lemma_color_key_bounds, lemma_no_color_key, pressed_color_key, Key,
};
use crate::timer::{
    lemma_ticks_count_whole_durations, lemma_total_bounds_each, repeating_elapsed,
    repeating_finishes, run_ticks, total, RepeatingTimer, NANOS_PER_SEC,
};

verus! {

/// Number of colours in the palette of lab 1 (one per colour key).
pub const COLOR_COUNT: usize = 5;

/// The palette of lab 1 and the index of the colour shown.
pub struct ColorPalette<C> {
    colors: Vec<C>,
    current_index: usize,
}

impl<C: Copy> ColorPalette<C> {
    /// The colours, in order.
    pub closed spec fn colors(&self) -> Seq<C> {
        self.colors@
    }

    /// The index of the colour shown.
    pub closed spec fn index(&self) -> int {
        self.current_index as int
    }

    /// Five colours, and an index among them.
    pub closed spec fn wf(&self) -> bool {
        self.colors@.len() == COLOR_COUNT && self.current_index < COLOR_COUNT
    }

    /// The palette of the given five colours, showing the first.
    pub fn new(colors: Vec<C>) -> (p: ColorPalette<C>)
        requires
            colors@.len() == COLOR_COUNT,
        ensures
            p.wf(),
            p.colors() == colors@,
            p.index() == 0,
    {
        ColorPalette { colors, current_index: 0 }
    }

    /// Moves to the next colour; after the last comes the first again.
    pub fn next(&mut self)
        requires
            old(self).wf(),
        ensures
            final(self).wf(),
            final(self).colors() == old(self).colors(),
            final(self).index() == (old(self).index() + 1) % (COLOR_COUNT as int),
    {
        self.current_index = (self.current_index + 1) % self.colors.len();
    }

    /// The colour shown.
    pub fn current(&self) -> (c: C)
        requires
            self.wf(),
        ensures
            c == self.colors()[self.index()],
    {
        self.colors[self.current_index]
    }

    /// The index of the colour shown.
    pub fn current_index(&self) -> (r: usize)
        ensures
            r == self.index(),
    {
        self.current_index
    }
}

/// Automatic colour change: a sub-state of lab 1 that starts `Off` each time
/// the lab is entered.
#[derive(Clone, Copy, Debug, PartialEq, Eq, Structural)]
pub enum AutoColorState {
    Off,
    On,
}

impl Default for AutoColorState {
    fn default() -> (s: AutoColorState)
        ensures
            s == AutoColorState::Off,
    {
        AutoColorState::Off
    }
}

/// The other automatic mode.
pub open spec fn toggled(state: AutoColorState) -> AutoColorState {
    match state {
        AutoColorState::Off => AutoColorState::On,
        AutoColorState::On => AutoColorState::Off,
    }
}

/// The one-second timer of the automatic mode, and whether the automatic
/// step is skipped this frame because of a manual action.
pub struct AutoColorTimer {
    pub timer: RepeatingTimer,
    pub skip_tick: bool,
}

impl AutoColorTimer {
    /// A well-formed one-second timer.
    pub open spec fn wf(&self) -> bool {
        self.timer.wf() && self.timer.duration() == NANOS_PER_SEC
    }

    /// A one-second timer that has just started, with no skip pending.
    pub fn new() -> (t: AutoColorTimer)
        ensures
            t.wf(),
            t.timer.elapsed() == 0,
            !t.skip_tick,
    {
        AutoColorTimer { timer: RepeatingTimer::from_seconds(1), skip_tick: false }
    }
}

/// Whether the keys of a frame contain a manual colour action: a colour key
/// or Space.
pub open spec fn color_action(pressed: Seq<Key>) -> bool {
    first_color_key(pressed) is Some || pressed.contains(Key::Space)
}

/// Whether the keys of a frame contain any manual action: a colour action or
/// the automatic-mode key A.
pub open spec fn manual_action(pressed: Seq<Key>) -> bool {
    color_action(pressed) || pressed.contains(Key::KeyA)
}

/// The palette index after the keys of a frame: a colour key wins over
/// Space, Space moves to the next colour.
pub open spec fn index_after_keys(index: int, pressed: Seq<Key>) -> int {
    match first_color_key(pressed) {
        Some(i) => i,
        None => if pressed.contains(Key::Space) {
            (index + 1) % (COLOR_COUNT as int)
        } else {
            index
        },
    }
}

/// What the keyboard step asks of the rest of the frame.
pub struct KeyboardEffect {
    /// The automatic mode to enter from the next frame on, if it changes.
    pub next_state: Option<AutoColorState>,
    /// Whether the palette was written (a colour key or Space).
    pub palette_touched: bool,
}

/// The keyboard step of lab 1. A colour key selects its colour (it wins over
/// Space), Space moves to the next colour, A toggles the automatic mode.
/// After any of these the timer starts over, so that the new colour stays a
/// full second, and the automatic step of this frame is skipped.
pub fn keyboard_input_system<C: Copy>(
    pressed: &[Key],
    palette: &mut ColorPalette<C>,
    timer: &mut AutoColorTimer,
    state: AutoColorState,
) -> (e: KeyboardEffect)
    requires
        old(palette).wf(),
        old(timer).wf(),
    ensures
        final(palette).wf(),
        final(palette).colors() == old(palette).colors(),
        final(palette).index() == index_after_keys(old(palette).index(), pressed@),
        e.palette_touched == color_action(pressed@),
        e.next_state == (if pressed@.contains(Key::KeyA) {
            Some(toggled(state))
        } else {
            None
        }),
        final(timer).wf(),
        final(timer).skip_tick == manual_action(pressed@),
        final(timer).timer.elapsed() == (if manual_action(pressed@) {
            0
        } else {
            old(timer).timer.elapsed()
        }),
        pressed@.contains(Key::KeyA) ==> final(timer).skip_tick && final(timer).timer.elapsed()
            == 0,
        pressed@.contains(Key::Space) ==> final(timer).skip_tick && final(timer).timer.elapsed()
            == 0,
        first_color_key(pressed@) matches Some(i) ==> final(palette).index() == i
            && final(timer).skip_tick && final(timer).timer.elapsed() == 0,
        first_color_key(pressed@) is None && pressed@.contains(Key::Space) ==> final(palette).index() == (old(palette).index() + 1) % (COLOR_COUNT as int),
        first_color_key(pressed@) is None && !pressed@.contains(Key::Space) ==> final(palette).index() == old(palette).index(),
{
    timer.skip_tick = false;
    let mut touched = false;
    match pressed_color_key(pressed) {
        Some(index) => {
            palette.current_index = index;
            timer.skip_tick = true;
            touched = true;
        },
        None => {
            if just_pressed(pressed, Key::Space) {
                palette.next();
                timer.skip_tick = true;
                touched = true;
            }
        },
    }
    let mut next_state = None;
    if just_pressed(pressed, Key::KeyA) {
        next_state = Some(
            match state {
                AutoColorState::Off => AutoColorState::On,
                AutoColorState::On => AutoColorState::Off,
            },
        );
        timer.skip_tick = true;
    }
    if timer.skip_tick {
        timer.timer.reset();
    }
    KeyboardEffect { next_state, palette_touched: touched }
}

/// The automatic step of lab 1: unless a manual action happened this frame,
/// the timer advances by the frame time, and when it finishes the palette
/// moves to the next colour. Returns whether it did.
pub fn auto_color_system<C: Copy>(
    delta_nanos: u64,
    timer: &mut AutoColorTimer,
    palette: &mut ColorPalette<C>,
) -> (advanced: bool)
    requires
        old(palette).wf(),
        old(timer).wf(),
    ensures
        final(palette).wf(),
        final(palette).colors() == old(palette).colors(),
        final(timer).wf(),
        final(timer).skip_tick == old(timer).skip_tick,
        old(timer).skip_tick ==> !advanced && final(timer).timer.elapsed() == old(
            timer,
        ).timer.elapsed(),
        !old(timer).skip_tick ==> final(timer).timer.elapsed() == repeating_elapsed(
            NANOS_PER_SEC as nat,
            old(timer).timer.elapsed(),
            delta_nanos as nat,
        ) && advanced == (repeating_finishes(
            NANOS_PER_SEC as nat,
            old(timer).timer.elapsed(),
            delta_nanos as nat,
        ) > 0),
        final(palette).index() == (if advanced {
            (old(palette).index() + 1) % (COLOR_COUNT as int)
        } else {
            old(palette).index()
        }),
{
    if timer.skip_tick {
        return false;
    }
    let finished = timer.timer.tick(delta_nanos);
    if finished {
        palette.next();
    }
    finished
}

/// The colour step of lab 1: when the palette was written this frame, the
/// material of the torus takes the colour shown.
pub fn apply_color_system<C: Copy>(palette: &ColorPalette<C>, material: &mut C, palette_changed: bool)
    requires
        palette.wf(),
    ensures
        *final(material) == (if palette_changed {
            palette.colors()[palette.index()]
        } else {
            *old(material)
        }),
{
    if palette_changed {
        *material = palette.current();
    }
}

/// The state of a running lab 1 that the frames change: the colour shown,
/// the timer, the automatic mode in effect and the one queued for the next
/// frame, and whether this frame's automatic step was skipped.
pub struct Lab1State {
    pub index: int,
    pub elapsed: nat,
    pub mode: AutoColorState,
    pub queued: Option<AutoColorState>,
    pub skip_tick: bool,
}

/// One frame of lab 1, with the keys pressed in it and the time it took:
/// a queued automatic mode takes effect first, then the keyboard step, then
/// (in automatic mode) the automatic step; a mode asked for with A is queued
/// for the next frame.
pub open spec fn lab1_step(s: Lab1State, pressed: Seq<Key>, delta: nat) -> Lab1State {
    let mode = match s.queued {
        Some(q) => q,
        None => s.mode,
    };
    let manual = manual_action(pressed);
    let index = index_after_keys(s.index, pressed);
    let elapsed = if manual {
        0
    } else {
        s.elapsed
    };
    let auto_runs = mode == AutoColorState::On && !manual;
    let advanced = auto_runs && repeating_finishes(NANOS_PER_SEC as nat, elapsed, delta) > 0;
    Lab1State {
        index: if advanced {
            (index + 1) % (COLOR_COUNT as int)
        } else {
            index
        },
        elapsed: if auto_runs {
            repeating_elapsed(NANOS_PER_SEC as nat, elapsed, delta)
        } else {
            elapsed
        },
        mode,
        queued: if pressed.contains(Key::KeyA) {
            Some(toggled(mode))
        } else {
            None
        },
        skip_tick: manual,
    }
}

/// The state of lab 1 when it is entered, before its first frame.
pub open spec fn lab1_initial() -> Lab1State {
    Lab1State { index: 0, elapsed: 0, mode: AutoColorState::Off, queued: None, skip_tick: false }
}

/// A running lab 1: palette, timer, automatic mode, the material colour of
/// the torus, and the time each frame takes.
pub struct Lab1App<C> {
    pub palette: ColorPalette<C>,
    pub timer: AutoColorTimer,
    pub mode: AutoColorState,
    pub queued_mode: Option<AutoColorState>,
    pub material: C,
    pub frame_nanos: u64,
}

impl<C: Copy> View for Lab1App<C> {
    type V = Lab1State;

    open spec fn view(&self) -> Lab1State {
        Lab1State {
            index: self.palette.index(),
            elapsed: self.timer.timer.elapsed(),
            mode: self.mode,
            queued: self.queued_mode,
            skip_tick: self.timer.skip_tick,
        }
    }
}

impl<C: Copy> Lab1App<C> {
    /// Well-formed parts, and the torus shows the colour of the palette.
    pub open spec fn wf(&self) -> bool {
        &&& self.palette.wf()
        &&& self.timer.wf()
        &&& self.material == self.palette.colors()[self.palette.index()]
    }

    /// Enters lab 1 with the given palette and frame time, and runs its
    /// first frame, in which no time has passed yet.
    pub fn new(colors: Vec<C>, frame_nanos: u64) -> (app: Lab1App<C>)
        requires
            colors@.len() == COLOR_COUNT,
        ensures
            app.wf(),
            app.palette.colors() == colors@,
            app.frame_nanos == frame_nanos,
            app@ == lab1_step(lab1_initial(), seq![], 0),
    {
        let palette = ColorPalette::new(colors);
        let material = palette.current();
        let mut app = Lab1App {
            palette,
            timer: AutoColorTimer::new(),
            mode: AutoColorState::Off,
            queued_mode: None,
            material,
            frame_nanos,
        };
        let none: Vec<Key> = Vec::new();
        app.run_frame(none.as_slice(), 0);
        app
    }

    /// Runs one frame with the given keys pressed, taking `delta_nanos`.
    pub fn run_frame(&mut self, pressed: &[Key], delta_nanos: u64)
        requires
            old(self).wf(),
        ensures
            final(self).wf(),
            final(self).palette.colors() == old(self).palette.colors(),
            final(self).frame_nanos == old(self).frame_nanos,
            final(self)@ == lab1_step(old(self)@, pressed@, delta_nanos as nat),
    {
        if let Some(mode) = self.queued_mode {
            self.mode = mode;
            self.queued_mode = None;
        }
        let effect = keyboard_input_system(pressed, &mut self.palette, &mut self.timer, self.mode);
        let advanced = if self.mode == AutoColorState::On {
            auto_color_system(delta_nanos, &mut self.timer, &mut self.palette)
        } else {
            false
        };
        apply_color_system(&self.palette, &mut self.material, effect.palette_touched || advanced);
        self.queued_mode = effect.next_state;
    }

    /// Runs one frame in which no key is pressed.
    pub fn update(&mut self)
        requires
            old(self).wf(),
        ensures
            final(self).wf(),
            final(self).palette.colors() == old(self).palette.colors(),
            final(self).frame_nanos == old(self).frame_nanos,
            final(self)@ == lab1_step(old(self)@, seq![], old(self).frame_nanos as nat),
    {
        let none: Vec<Key> = Vec::new();
        proof {
            assert(none@ =~= seq![]);
        }
        let frame = self.frame_nanos;
        self.run_frame(none.as_slice(), frame);
    }
}

/// Presses the given keys for one frame of the running lab 1.
pub fn press<C: Copy>(app: &mut Lab1App<C>, keys: &[Key])
    requires
        old(app).wf(),
    ensures
        final(app).wf(),
        final(app).palette.colors() == old(app).palette.colors(),
        final(app).frame_nanos == old(app).frame_nanos,
        final(app)@ == lab1_step(old(app)@, keys@, old(app).frame_nanos as nat),
{
    let frame = app.frame_nanos;
    app.run_frame(keys, frame);
}

/// The index of the colour that lab 1 shows.
pub fn index<C: Copy>(app: &Lab1App<C>) -> (r: usize)
    ensures
        r == app@.index,
{
    app.palette.current_index()
}

/// The material colour of the torus of lab 1.
pub fn material_color<C: Copy>(app: &Lab1App<C>) -> (c: C)
    requires
        app.wf(),
    ensures
        c == app.palette.colors()[app@.index],
{
    app.material
}

/// The automatic mode in effect in the next frame: the queued one, if any.
pub open spec fn mode_in_effect(s: Lab1State) -> AutoColorState {
    match s.queued {
        Some(q) => q,
        None => s.mode,
    }
}

/// Lab 1 run through frames without key presses, with the given frame times.
pub open spec fn lab1_idle_run(s: Lab1State, deltas: Seq<nat>) -> Lab1State
    decreases deltas.len(),
{
    if deltas.len() == 0 {
        s
    } else {
        lab1_step(lab1_idle_run(s, deltas.drop_last()), seq![], deltas.last())
    }
}

/// With the automatic mode off, frames without key presses keep the colour
/// and the mode.
pub proof fn lemma_off_mode_keeps_color(s: Lab1State, deltas: Seq<nat>)
    requires
        mode_in_effect(s) == AutoColorState::Off,
    ensures
        lab1_idle_run(s, deltas).index == s.index,
        mode_in_effect(lab1_idle_run(s, deltas)) == AutoColorState::Off,
    decreases deltas.len(),
{
    lemma_no_color_key();
    if deltas.len() > 0 {
        lemma_off_mode_keeps_color(s, deltas.drop_last());
    }
}

/// Idle frames of lab 1 in automatic mode follow the timer: the colour moves
/// on once in each frame where the timer finishes.
proof fn lemma_auto_run_follows_timer(s: Lab1State, deltas: Seq<nat>)
    requires
        mode_in_effect(s) == AutoColorState::On,
        0 <= s.index < COLOR_COUNT,
    ensures
        mode_in_effect(lab1_idle_run(s, deltas)) == AutoColorState::On,
        lab1_idle_run(s, deltas).elapsed == run_ticks(NANOS_PER_SEC as nat, s.elapsed, deltas).0,
        lab1_idle_run(s, deltas).index == (s.index + run_ticks(
            NANOS_PER_SEC as nat,
            s.elapsed,
            deltas,
        ).1) % (COLOR_COUNT as int),
    decreases deltas.len(),
{
    lemma_no_color_key();
    if deltas.len() == 0 {
        vstd::arithmetic::div_mod::lemma_small_mod(s.index as nat, COLOR_COUNT as nat);
    } else {
        let init = deltas.drop_last();
        lemma_auto_run_follows_timer(s, init);
        let k = run_ticks(NANOS_PER_SEC as nat, s.elapsed, init).1;
        vstd::arithmetic::div_mod::lemma_add_mod_noop_right(1, s.index + k, COLOR_COUNT as int);
    }
}

/// In automatic mode the colour of lab 1 changes once per second whatever
/// the frame rate: in frames without key presses, each at most a second
/// long, the palette moves on by the number of whole seconds in the time
/// that has passed (counting the time already on the timer).
pub proof fn lemma_auto_mode_changes_once_per_second(s: Lab1State, deltas: Seq<nat>)
    requires
        mode_in_effect(s) == AutoColorState::On,
        0 <= s.index < COLOR_COUNT,
        s.elapsed < NANOS_PER_SEC,
        forall|i: int| 0 <= i < deltas.len() ==> #[trigger] deltas[i] <= NANOS_PER_SEC,
    ensures
        lab1_idle_run(s, deltas).index == (s.index + (s.elapsed + total(deltas)) / (
        NANOS_PER_SEC as nat)) % (COLOR_COUNT as int),
        lab1_idle_run(s, deltas).elapsed == (s.elapsed + total(deltas)) % (NANOS_PER_SEC as nat),
{
    lemma_auto_run_follows_timer(s, deltas);
    lemma_ticks_count_whole_durations(NANOS_PER_SEC as nat, s.elapsed, deltas);
}

/// A manual action holds the colour for a full second: after a frame with a
/// colour key or Space, frames without key presses that together take less
/// than a second keep the chosen colour, in either automatic mode.
pub proof fn lemma_manual_choice_holds_a_second(
    s: Lab1State,
    pressed: Seq<Key>,
    delta: nat,
    deltas: Seq<nat>,
)
    requires
        0 <= s.index < COLOR_COUNT,
        color_action(pressed),
        total(deltas) < NANOS_PER_SEC,
    ensures
        lab1_idle_run(lab1_step(s, pressed, delta), deltas).index == index_after_keys(
            s.index,
            pressed,
        ),
{
    let s1 = lab1_step(s, pressed, delta);
    assert(0 <= s1.index < COLOR_COUNT) by {
        match first_color_key(pressed) {
            Some(i) => {
                lemma_color_key_bounds(pressed, 0);
            },
            None => {},
        }
    }
    if mode_in_effect(s1) == AutoColorState::Off {
        lemma_off_mode_keeps_color(s1, deltas);
    } else {
        assert forall|i: int| 0 <= i < deltas.len() implies #[trigger] deltas[i]
            <= NANOS_PER_SEC by {
            lemma_total_bounds_each(deltas, i);
        }
        lemma_auto_mode_changes_once_per_second(s1, deltas);
        vstd::arithmetic::div_mod::lemma_small_mod(total(deltas), NANOS_PER_SEC as nat);
        vstd::arithmetic::div_mod::lemma_fundamental_div_mod_converse(
            total(deltas) as int,
            NANOS_PER_SEC as int,
            0,
            total(deltas) as int,
        );
        vstd::arithmetic::div_mod::lemma_small_mod(s1.index as nat, COLOR_COUNT as nat);
    }
}

/// Every key of lab 1 (a colour key, Space or A) restarts the one-second
/// timer and skips the automatic step of its frame: after such a frame the
/// timer is at zero and the colour is the one the keys chose (a colour key
/// picks its colour, otherwise Space moves one on, otherwise it stays), in
/// either automatic mode. A queues the other mode for the next frame.
pub proof fn lemma_keys_restart_timer(s: Lab1State, pressed: Seq<Key>, delta: nat)
    requires
        pressed.contains(Key::KeyA) || pressed.contains(Key::Space) || first_color_key(pressed) is Some,
    ensures
        lab1_step(s, pressed, delta).elapsed == 0,
        lab1_step(s, pressed, delta).skip_tick,
        first_color_key(pressed) matches Some(i) ==> lab1_step(s, pressed, delta).index == i,
        first_color_key(pressed) is None && pressed.contains(Key::Space) ==> lab1_step(
            s,
            pressed,
            delta,
        ).index == (s.index + 1) % 5,
        first_color_key(pressed) is None && !pressed.contains(Key::Space) ==> lab1_step(
            s,
            pressed,
            delta,
        ).index == s.index,
        pressed.contains(Key::KeyA) ==> lab1_step(s, pressed, delta).queued == Some(
            if mode_in_effect(s) == AutoColorState::On {
                AutoColorState::Off
            } else {
                AutoColorState::On
            },
        ),
{
}

/// Switching the automatic mode with A holds the colour for a full second:
/// after a frame with A, frames without key presses that together take less
/// than a second keep the colour of that frame, whichever mode A chose.
pub proof fn lemma_mode_switch_holds_a_second(
    s: Lab1State,
    pressed: Seq<Key>,
    delta: nat,
    deltas: Seq<nat>,
)
    requires
        0 <= s.index < COLOR_COUNT,
        pressed.contains(Key::KeyA),
        total(deltas) < NANOS_PER_SEC,
    ensures
        lab1_idle_run(lab1_step(s, pressed, delta), deltas).index == lab1_step(
            s,
            pressed,
            delta,
        ).index,
{
    let s1 = lab1_step(s, pressed, delta);
    lemma_keys_restart_timer(s, pressed, delta);
    assert(0 <= s1.index < COLOR_COUNT) by {
        match first_color_key(pressed) {
            Some(i) => {
                lemma_color_key_bounds(pressed, 0);
            },
            None => {},
        }
    }
    if mode_in_effect(s1) == AutoColorState::Off {
        lemma_off_mode_keeps_color(s1, deltas);
    } else {
        assert forall|i: int| 0 <= i < deltas.len() implies #[trigger] deltas[i]
            <= NANOS_PER_SEC by {
            lemma_total_bounds_each(deltas, i);
        }
        lemma_auto_mode_changes_once_per_second(s1, deltas);
        vstd::arithmetic::div_mod::lemma_small_mod(total(deltas), NANOS_PER_SEC as nat);
        vstd::arithmetic::div_mod::lemma_fundamental_div_mod_converse(
            total(deltas) as int,
            NANOS_PER_SEC as int,
            0,
            total(deltas) as int,
        );
        vstd::arithmetic::div_mod::lemma_small_mod(s1.index as nat, COLOR_COUNT as nat);
    }
}

} // verus!
