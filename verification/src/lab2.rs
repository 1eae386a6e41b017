//! Lab 2: the palette as a vector of colours with the index of the colour
//! shown and of the one before it; a simulation step that moves to the next
//! colour once a second; a visual step that shows the colour, either at once
//! or through a short transition from the previous one.

use vstd::prelude::*;

use crate::input::{
    first_color_key, just_pressed, lemma_color_key_bounds, lemma_no_color_key, pressed_color_key, Key,
};
use crate::timer::{
    lemma_ticks_count_whole_durations, lemma_total_bounds_each, repeating_elapsed,
    repeating_finishes, run_ticks, total,
    RepeatingTimer,
};

verus! {

/// Interval of the automatic colour change, in nanoseconds (one second).
pub const COLOR_INTERVAL_NANOS: u64 = 1_000_000_000;

/// Length of the smooth transition between two colours, in nanoseconds.
pub const TRANSITION_NANOS: u64 = 400_000_000;

/// The first elapsed time, in nanoseconds, at which a transition counts as
/// over. A transition runs while `elapsed.as_secs_f32() / 0.4 < 1.0` in `f32`
/// (the time on the timer as seconds, divided by the transition length in
/// seconds); that holds exactly for elapsed times below this one, because
/// 399 999 984 ns is the first time that `f32` rounds up to 0.4 s.
pub const TRANSITION_WINDOW_NANOS: u64 = 399_999_984;

/// The palette of lab 2: the colours, the index of the colour shown, and the
/// index of the colour shown before it (where a transition starts).
pub struct ColorPalette<C> {
    pub colors: Vec<C>,
    pub current_index: usize,
    pub previous_index: usize,
}

impl<C: Copy> ColorPalette<C> {
    /// The index of the colour shown lies within the colours.
    pub open spec fn shows_a_color(&self) -> bool {
        self.current_index < self.colors@.len()
    }

    /// The palette can move to its next colour: it is not empty and the
    /// index of the colour shown can be increased.
    pub open spec fn can_advance(&self) -> bool {
        self.colors@.len() > 0 && self.current_index < usize::MAX
    }

    /// Both indices lie within the colours.
    pub open spec fn wf(&self) -> bool {
        &&& self.current_index < self.colors@.len()
        &&& self.previous_index < self.colors@.len()
    }

    /// A palette of the given colours that shows the first one.
    pub fn new(colors: Vec<C>) -> (p: ColorPalette<C>)
        ensures
            p.colors@ == colors@,
            p.current_index == 0,
            p.previous_index == 0,
            colors@.len() > 0 ==> p.wf(),
    {
        ColorPalette { colors, current_index: 0, previous_index: 0 }
    }

    /// The colour shown.
    pub fn current_rgb(&self) -> (c: C)
        requires
            self.current_index < self.colors@.len(),
        ensures
            c == self.colors@[self.current_index as int],
    {
        self.colors[self.current_index]
    }

    /// The colour shown before the current one.
    pub fn previous_rgb(&self) -> (c: C)
        requires
            self.previous_index < self.colors@.len(),
        ensures
            c == self.colors@[self.previous_index as int],
    {
        self.colors[self.previous_index]
    }

    /// Moves to the next colour of the vector, and after the last to the
    /// first again; the length is the vector's own, so added colours join
    /// the round. Returns the new colour.
    pub fn next_color(&mut self) -> (c: C)
        requires
            old(self).can_advance(),
        ensures
            final(self).shows_a_color(),
            old(self).shows_a_color() ==> final(self).wf(),
            final(self).colors@ == old(self).colors@,
            final(self).current_index == (old(self).current_index + 1) % (old(
                self,
            ).colors@.len() as int),
            final(self).previous_index == old(self).current_index,
            c == final(self).colors@[final(self).current_index as int],
    {
        let len = self.colors.len();
        let next = (self.current_index + 1) % len;
        let selected = self.select(next);
        self.current_rgb()
    }

    /// Selects the colour at `index`; an index outside the vector changes
    /// nothing and gives `false`.
    pub fn select(&mut self, index: usize) -> (selected: bool)
        ensures
            selected == (index < old(self).colors@.len()),
            final(self).colors@ == old(self).colors@,
            selected ==> final(self).current_index == index && final(self).previous_index == old(
                self,
            ).current_index,
            !selected ==> final(self).current_index == old(self).current_index
                && final(self).previous_index == old(self).previous_index,
    {
        if index >= self.colors.len() {
            return false;
        }
        self.previous_index = self.current_index;
        self.current_index = index;
        true
    }
}

/// The one-second timer of the automatic colour change.
pub struct AutoColorTimer(pub RepeatingTimer);

impl AutoColorTimer {
    /// A well-formed timer of the colour interval.
    pub open spec fn wf(&self) -> bool {
        self.0.wf() && self.0.duration() == COLOR_INTERVAL_NANOS
    }

    /// A timer of the colour interval that has just started.
    pub fn new() -> (t: AutoColorTimer)
        ensures
            t.wf(),
            t.0.elapsed() == 0,
    {
        AutoColorTimer(RepeatingTimer::new(COLOR_INTERVAL_NANOS))
    }
}

/// How colours are shown: at once, or through a smooth transition.
pub struct VisualSettings {
    pub smooth: bool,
}

impl Default for VisualSettings {
    fn default() -> (s: VisualSettings)
        ensures
            !s.smooth,
    {
        VisualSettings { smooth: false }
    }
}

/// The palette after the keys of a frame: a colour key selects its colour
/// (if the palette has that many), otherwise Space moves to the next colour.
pub open spec fn keys_select(
    current: int,
    previous: int,
    len: int,
    pressed: Seq<Key>,
) -> (int, int) {
    match first_color_key(pressed) {
        Some(i) => if i < len {
            (i, current)
        } else {
            (current, previous)
        },
        None => if pressed.contains(Key::Space) {
            ((current + 1) % len, current)
        } else {
            (current, previous)
        },
    }
}

/// Whether the keys of a frame make a manual colour choice: a colour key
/// within the palette, or Space when no colour key is pressed.
pub open spec fn manual_choice(len: int, pressed: Seq<Key>) -> bool {
    match first_color_key(pressed) {
        Some(i) => i < len,
        None => pressed.contains(Key::Space),
    }
}

/// Whether the keys of a frame write the palette (a colour key, even one
/// outside it, or Space).
pub open spec fn palette_written(pressed: Seq<Key>) -> bool {
    first_color_key(pressed) is Some || pressed.contains(Key::Space)
}

/// What the keyboard step of lab 2 did.
pub struct KeyboardEffect {
    /// A colour was chosen by hand (the interval starts over).
    pub manual: bool,
    /// The palette was written.
    pub palette_touched: bool,
    /// The smooth mode was switched (key L).
    pub smooth_toggled: bool,
}

/// The keyboard step of lab 2. A colour key selects its colour, Space moves
/// to the next one; a manual choice starts the interval over so that the
/// colour stays a full second, without leaving the automatic mode. L
/// switches the smooth transition on and off.
pub fn keyboard_system<C: Copy>(
    pressed: &[Key],
    palette: &mut ColorPalette<C>,
    timer: &mut AutoColorTimer,
    settings: &mut VisualSettings,
) -> (e: KeyboardEffect)
    requires
        first_color_key(pressed@) is None && pressed@.contains(Key::Space) ==> old(
            palette,
        ).can_advance(),
        old(timer).wf(),
    ensures
        old(palette).shows_a_color() ==> final(palette).shows_a_color(),
        old(palette).wf() ==> final(palette).wf(),
        final(palette).colors@ == old(palette).colors@,
        (final(palette).current_index as int, final(palette).previous_index as int) == keys_select(
            old(palette).current_index as int,
            old(palette).previous_index as int,
            old(palette).colors@.len() as int,
            pressed@,
        ),
        e.manual == manual_choice(old(palette).colors@.len() as int, pressed@),
        e.palette_touched == palette_written(pressed@),
        e.smooth_toggled == pressed@.contains(Key::KeyL),
        final(timer).wf(),
        final(timer).0.elapsed() == (if e.manual {
            0
        } else {
            old(timer).0.elapsed()
        }),
        final(settings).smooth == (old(settings).smooth != pressed@.contains(Key::KeyL)),
        first_color_key(pressed@) matches Some(i) ==> i < old(palette).colors@.len()
            ==> final(palette).current_index == i && final(palette).previous_index == old(
            palette,
        ).current_index && final(timer).0.elapsed() == 0 && e.manual,
        first_color_key(pressed@) matches Some(i) ==> i >= old(palette).colors@.len()
            ==> final(palette).current_index == old(palette).current_index 
            && final(palette).previous_index == old(palette).previous_index && final(timer).0.elapsed() == old(
            timer,
        ).0.elapsed() && !e.manual,
        first_color_key(pressed@) is None && pressed@.contains(Key::Space)
            ==> final(palette).current_index == (old(palette).current_index + 1) % (old(
            palette,
        ).colors@.len() as int) && final(palette).previous_index == old(palette).current_index
            && final(timer).0.elapsed() == 0 && e.manual,
        first_color_key(pressed@) is None && !pressed@.contains(Key::Space) ==> *final(palette)
            == *old(palette) && final(timer).0.elapsed() == old(timer).0.elapsed() && !e.manual,
{
    let selected = pressed_color_key(pressed);
    let mut touched = false;
    let manual = match selected {
        Some(index) => {
            touched = true;
            palette.select(index)
        },
        None => {
            if just_pressed(pressed, Key::Space) {
                touched = true;
                let _ = palette.next_color();
                true
            } else {
                false
            }
        },
    };
    if manual {
        timer.0.reset();
    }
    let toggle = just_pressed(pressed, Key::KeyL);
    if toggle {
        settings.smooth = !settings.smooth;
    }
    KeyboardEffect { manual, palette_touched: touched, smooth_toggled: toggle }
}

/// The simulation step of lab 2: the timer advances by the frame time, and
/// in the frame where a full interval has passed the palette moves to the
/// next colour. Returns whether it did.
pub fn simulation_system<C: Copy>(
    delta_nanos: u64,
    timer: &mut AutoColorTimer,
    palette: &mut ColorPalette<C>,
) -> (advanced: bool)
    requires
        repeating_finishes(
            COLOR_INTERVAL_NANOS as nat,
            old(timer).0.elapsed(),
            delta_nanos as nat,
        ) > 0 ==> old(palette).can_advance(),
        old(timer).wf(),
    ensures
        old(palette).shows_a_color() ==> final(palette).shows_a_color(),
        old(palette).wf() ==> final(palette).wf(),
        final(timer).wf(),
        final(timer).0.elapsed() == repeating_elapsed(
            COLOR_INTERVAL_NANOS as nat,
            old(timer).0.elapsed(),
            delta_nanos as nat,
        ),
        advanced == (repeating_finishes(
            COLOR_INTERVAL_NANOS as nat,
            old(timer).0.elapsed(),
            delta_nanos as nat,
        ) > 0),
        advanced ==> final(palette).colors@ == old(palette).colors@ && final(palette).current_index
            == (old(palette).current_index + 1) % (old(palette).colors@.len() as int)
            && final(palette).previous_index == old(palette).current_index,
        !advanced ==> *final(palette) == *old(palette),
{
    let finished = timer.0.tick(delta_nanos);
    if finished {
        let _ = palette.next_color();
    }
    finished
}

/// What the visual step writes into the material.
#[derive(Clone, Copy, Debug, PartialEq, Eq, Structural)]
pub enum VisualUpdate {
    /// Nothing to write this frame.
    Skip,
    /// The colour shown, exactly.
    Current,
    /// A colour between the previous and the current one, by the time the
    /// interval has run.
    Blend,
}

/// Whether a transition is running: the smooth mode is on and, measured in
/// `f32` seconds, less than the transition time has passed since the
/// interval started (see `TRANSITION_WINDOW_NANOS`).
pub open spec fn in_transition(smooth: bool, elapsed: nat) -> bool {
    smooth && elapsed < TRANSITION_WINDOW_NANOS
}

/// The decision of the visual step of lab 2. At once: the colour is written
/// when the palette or the settings changed. Smooth: during a transition a
/// blend is written every frame, and in the frame after it ends the exact
/// colour once more.
pub fn update_visual_system(
    timer: &AutoColorTimer,
    settings: &VisualSettings,
    was_transition: &mut bool,
    palette_changed: bool,
    settings_changed: bool,
) -> (u: VisualUpdate)
    ensures
        ({
            let transition = in_transition(settings.smooth, timer.0.elapsed());
            if !(transition || *old(was_transition) || palette_changed || settings_changed) {
                u == VisualUpdate::Skip && *final(was_transition) == *old(was_transition)
            } else {
                &&& *final(was_transition) == transition
                &&& u == (if transition {
                    VisualUpdate::Blend
                } else {
                    VisualUpdate::Current
                })
            }
        }),
{
    let transition = settings.smooth && timer.0.elapsed_nanos() < TRANSITION_WINDOW_NANOS;
    if !(transition || *was_transition || palette_changed || settings_changed) {
        return VisualUpdate::Skip;
    }
    *was_transition = transition;
    if transition {
        VisualUpdate::Blend
    } else {
        VisualUpdate::Current
    }
}

/// The colour of the torus material of lab 2: a palette colour, or a blend
/// between two palette colours at the given point of the transition.
#[derive(Clone, Copy, Debug, PartialEq, Eq, Structural)]
pub enum Shade<C> {
    Solid(C),
    Blend { from: C, to: C, elapsed_nanos: u64 },
}

/// The state of a running lab 2 that the frames change.
pub struct Lab2State {
    pub index: int,
    pub previous: int,
    pub elapsed: nat,
    pub smooth: bool,
    pub was_transition: bool,
}

/// One frame of lab 2 with a palette of `len` colours, the keys pressed in
/// it and the time it took: keyboard, then simulation, then the visual step.
/// `fresh` marks the first frame, in which everything counts as changed.
pub open spec fn lab2_step(
    s: Lab2State,
    len: int,
    pressed: Seq<Key>,
    delta: nat,
    fresh: bool,
) -> Lab2State {
    let chosen = keys_select(s.index, s.previous, len, pressed);
    let elapsed = if manual_choice(len, pressed) {
        0
    } else {
        s.elapsed
    };
    let advanced = repeating_finishes(COLOR_INTERVAL_NANOS as nat, elapsed, delta) > 0;
    let shown = if advanced {
        ((chosen.0 + 1) % len, chosen.0)
    } else {
        chosen
    };
    let elapsed_after = repeating_elapsed(COLOR_INTERVAL_NANOS as nat, elapsed, delta);
    let smooth = s.smooth != pressed.contains(Key::KeyL);
    let transition = in_transition(smooth, elapsed_after);
    let written = transition || s.was_transition || fresh || palette_written(pressed) || advanced
        || pressed.contains(Key::KeyL);
    Lab2State {
        index: shown.0,
        previous: shown.1,
        elapsed: elapsed_after,
        smooth,
        was_transition: if written {
            transition
        } else {
            s.was_transition
        },
    }
}

/// The state of lab 2 when it is entered, before its first frame.
pub open spec fn lab2_initial() -> Lab2State {
    Lab2State { index: 0, previous: 0, elapsed: 0, smooth: false, was_transition: false }
}

/// A running lab 2: palette, timer, settings, the material of the torus and
/// the time each frame takes.
pub struct Lab2App<C> {
    pub palette: ColorPalette<C>,
    pub timer: AutoColorTimer,
    pub settings: VisualSettings,
    pub was_transition: bool,
    pub material: Shade<C>,
    pub frame_nanos: u64,
}

impl<C: Copy> View for Lab2App<C> {
    type V = Lab2State;

    open spec fn view(&self) -> Lab2State {
        Lab2State {
            index: self.palette.current_index as int,
            previous: self.palette.previous_index as int,
            elapsed: self.timer.0.elapsed(),
            smooth: self.settings.smooth,
            was_transition: self.was_transition,
        }
    }
}

impl<C: Copy> Lab2App<C> {
    /// Well-formed parts; outside a transition the torus shows the colour of
    /// the palette exactly, during one it shows the blend from the previous
    /// colour to the current one at the timer's point.
    pub open spec fn wf(&self) -> bool {
        &&& self.palette.wf()
        &&& self.timer.wf()
        &&& !self.was_transition ==> self.material == Shade::Solid(
            self.palette.colors@[self.palette.current_index as int],
        )
        &&& self.was_transition ==> self.material == (Shade::Blend {
            from: self.palette.colors@[self.palette.previous_index as int],
            to: self.palette.colors@[self.palette.current_index as int],
            elapsed_nanos: self.timer.0.elapsed() as u64,
        })
    }

    /// Enters lab 2 with the given palette and frame time, and runs its
    /// first frame, in which no time has passed yet.
    pub fn new(colors: Vec<C>, frame_nanos: u64) -> (app: Lab2App<C>)
        requires
            colors@.len() > 0,
        ensures
            app.wf(),
            app.palette.colors@ == colors@,
            app.frame_nanos == frame_nanos,
            app@ == lab2_step(lab2_initial(), colors@.len() as int, seq![], 0, true),
    {
        let palette = ColorPalette::new(colors);
        let material = Shade::Solid(palette.current_rgb());
        let mut app = Lab2App {
            palette,
            timer: AutoColorTimer::new(),
            settings: VisualSettings { smooth: false },
            was_transition: false,
            material,
            frame_nanos,
        };
        let none: Vec<Key> = Vec::new();
        app.frame(none.as_slice(), 0, true);
        app
    }

    fn frame(&mut self, pressed: &[Key], delta_nanos: u64, fresh: bool)
        requires
            old(self).wf(),
        ensures
            final(self).wf(),
            final(self).palette.colors@ == old(self).palette.colors@,
            final(self).frame_nanos == old(self).frame_nanos,
            final(self)@ == lab2_step(
                old(self)@,
                old(self).palette.colors@.len() as int,
                pressed@,
                delta_nanos as nat,
                fresh,
            ),
    {
        // Reading the length bounds the colour index below `usize::MAX`.
        let _ = self.palette.colors.len();
        let effect = keyboard_system(pressed, &mut self.palette, &mut self.timer, &mut self.settings);
        let advanced = simulation_system(delta_nanos, &mut self.timer, &mut self.palette);
        let update = update_visual_system(
            &self.timer,
            &self.settings,
            &mut self.was_transition,
            fresh || effect.palette_touched || advanced,
            fresh || effect.smooth_toggled,
        );
        match update {
            VisualUpdate::Skip => {},
            VisualUpdate::Current => {
                self.material = Shade::Solid(self.palette.current_rgb());
            },
            VisualUpdate::Blend => {
                self.material = Shade::Blend {
                    from: self.palette.previous_rgb(),
                    to: self.palette.current_rgb(),
                    elapsed_nanos: self.timer.0.elapsed_nanos(),
                };
            },
        }
    }

    /// Runs one frame with the given keys pressed, taking `delta_nanos`.
    pub fn run_frame(&mut self, pressed: &[Key], delta_nanos: u64)
        requires
            old(self).wf(),
        ensures
            final(self).wf(),
            final(self).palette.colors@ == old(self).palette.colors@,
            final(self).frame_nanos == old(self).frame_nanos,
            final(self)@ == lab2_step(
                old(self)@,
                old(self).palette.colors@.len() as int,
                pressed@,
                delta_nanos as nat,
                false,
            ),
    {
        self.frame(pressed, delta_nanos, false);
    }

    /// Runs one frame in which no key is pressed.
    pub fn update(&mut self)
        requires
            old(self).wf(),
        ensures
            final(self).wf(),
            final(self).palette.colors@ == old(self).palette.colors@,
            final(self).frame_nanos == old(self).frame_nanos,
            final(self)@ == lab2_step(
                old(self)@,
                old(self).palette.colors@.len() as int,
                seq![],
                old(self).frame_nanos as nat,
                false,
            ),
    {
        let none: Vec<Key> = Vec::new();
        proof {
            assert(none@ =~= seq![]);
        }
        let frame = self.frame_nanos;
        self.frame(none.as_slice(), frame, false);
    }
}

/// Presses the given keys for one frame of the running lab 2.
pub fn press<C: Copy>(app: &mut Lab2App<C>, keys: &[Key])
    requires
        old(app).wf(),
    ensures
        final(app).wf(),
        final(app).palette.colors@ == old(app).palette.colors@,
        final(app).frame_nanos == old(app).frame_nanos,
        final(app)@ == lab2_step(
            old(app)@,
            old(app).palette.colors@.len() as int,
            keys@,
            old(app).frame_nanos as nat,
            false,
        ),
{
    let frame = app.frame_nanos;
    app.run_frame(keys, frame);
}

/// The index of the colour that lab 2 shows.
pub fn index<C: Copy>(app: &Lab2App<C>) -> (r: usize)
    ensures
        r == app@.index,
{
    app.palette.current_index
}

/// The material colour of the torus of lab 2.
pub fn material_shade<C: Copy>(app: &Lab2App<C>) -> (s: Shade<C>)
    ensures
        s == app.material,
{
    app.material
}

/// Lab 2 run through frames without key presses, with the given frame times.
pub open spec fn lab2_idle_run(s: Lab2State, len: int, deltas: Seq<nat>) -> Lab2State
    decreases deltas.len(),
{
    if deltas.len() == 0 {
        s
    } else {
        lab2_step(lab2_idle_run(s, len, deltas.drop_last()), len, seq![], deltas.last(), false)
    }
}

/// Idle frames of lab 2 follow the timer: the colour moves on once in each
/// frame where the timer finishes.
proof fn lemma_idle_run_follows_timer(s: Lab2State, len: int, deltas: Seq<nat>)
    requires
        len > 0,
        0 <= s.index < len,
    ensures
        lab2_idle_run(s, len, deltas).elapsed == run_ticks(
            COLOR_INTERVAL_NANOS as nat,
            s.elapsed,
            deltas,
        ).0,
        lab2_idle_run(s, len, deltas).index == (s.index + run_ticks(
            COLOR_INTERVAL_NANOS as nat,
            s.elapsed,
            deltas,
        ).1) % len,
    decreases deltas.len(),
{
    lemma_no_color_key();
    if deltas.len() == 0 {
        vstd::arithmetic::div_mod::lemma_small_mod(s.index as nat, len as nat);
    } else {
        let init = deltas.drop_last();
        lemma_idle_run_follows_timer(s, len, init);
        let k = run_ticks(COLOR_INTERVAL_NANOS as nat, s.elapsed, init).1;
        vstd::arithmetic::div_mod::lemma_add_mod_noop_right(1, s.index + k, len);
    }
}

/// The colour of lab 2 changes once per second whatever the frame rate: in
/// frames without key presses, each no longer than the interval, the palette
/// moves on by the number of whole intervals in the time that has passed
/// (counting the time already on the timer), and the timer keeps the rest.
pub proof fn lemma_color_changes_once_per_interval(s: Lab2State, len: int, deltas: Seq<nat>)
    requires
        len > 0,
        0 <= s.index < len,
        s.elapsed < COLOR_INTERVAL_NANOS,
        forall|i: int| 0 <= i < deltas.len() ==> #[trigger] deltas[i] <= COLOR_INTERVAL_NANOS,
    ensures
        lab2_idle_run(s, len, deltas).index == (s.index + (s.elapsed + total(deltas))
            / (COLOR_INTERVAL_NANOS as nat)) % len,
        lab2_idle_run(s, len, deltas).elapsed == (s.elapsed + total(deltas)) % (
        COLOR_INTERVAL_NANOS as nat),
{
    lemma_idle_run_follows_timer(s, len, deltas);
    lemma_ticks_count_whole_durations(COLOR_INTERVAL_NANOS as nat, s.elapsed, deltas);
}

/// A manual colour choice holds for a full interval: after a frame with a
/// manual choice, frames without key presses that together take less than
/// the interval keep the colour.
pub proof fn lemma_manual_choice_holds_an_interval(
    s: Lab2State,
    len: int,
    pressed: Seq<Key>,
    delta: nat,
    deltas: Seq<nat>,
)
    requires
        len > 0,
        0 <= s.index < len,
        0 <= s.previous < len,
        manual_choice(len, pressed),
        delta + total(deltas) < COLOR_INTERVAL_NANOS,
    ensures
        lab2_idle_run(lab2_step(s, len, pressed, delta, false), len, deltas).index == keys_select(
            s.index,
            s.previous,
            len,
            pressed,
        ).0,
{
    let s1 = lab2_step(s, len, pressed, delta, false);
    let chosen = keys_select(s.index, s.previous, len, pressed);
    assert(0 <= chosen.0 < len) by {
        match first_color_key(pressed) {
            Some(i) => {
                assert(0 <= i) by {
                    lemma_color_key_bounds(pressed, 0);
                }
            },
            None => {},
        }
    }
    assert(s1.index == chosen.0 && s1.elapsed == delta);
    assert forall|i: int| 0 <= i < deltas.len() implies #[trigger] deltas[i]
        <= COLOR_INTERVAL_NANOS by {
        lemma_total_bounds_each(deltas, i);
    }
    lemma_color_changes_once_per_interval(s1, len, deltas);
    vstd::arithmetic::div_mod::lemma_small_mod(
        (delta + total(deltas)) as nat,
        COLOR_INTERVAL_NANOS as nat,
    );
    vstd::arithmetic::div_mod::lemma_fundamental_div_mod_converse(
        (delta + total(deltas)) as int,
        COLOR_INTERVAL_NANOS as int,
        0,
        (delta + total(deltas)) as int,
    );
    vstd::arithmetic::div_mod::lemma_small_mod(chosen.0 as nat, len as nat);
}

/// After a transition has run its time, the torus shows the colour exactly:
/// a frame that ends with at least the transition time on the timer ends
/// outside a transition.
pub proof fn lemma_transition_settles(
    s: Lab2State,
    len: int,
    pressed: Seq<Key>,
    delta: nat,
    fresh: bool,
)
    requires
        lab2_step(s, len, pressed, delta, fresh).elapsed >= TRANSITION_WINDOW_NANOS,
    ensures
        !lab2_step(s, len, pressed, delta, fresh).was_transition,
{
}

/// A manual choice in lab 2 restarts the interval and remembers the colour
/// that was shown, whatever the state before: a colour key inside the palette
/// shows its colour, Space (without a colour key) the next one; either way
/// the colour shown before becomes the start of the next transition, and the
/// timer holds only the time of this frame afterwards. A colour key outside
/// the palette chooses nothing and leaves the interval running.
pub proof fn lemma_choice_restarts_interval(
    s: Lab2State,
    len: int,
    pressed: Seq<Key>,
    delta: nat,
    fresh: bool,
)
    requires
        len > 0,
        0 <= s.index < len,
        delta < COLOR_INTERVAL_NANOS,
    ensures
        first_color_key(pressed) matches Some(i) ==> i < len ==> lab2_step(
            s,
            len,
            pressed,
            delta,
            fresh,
        ).index == i && lab2_step(s, len, pressed, delta, fresh).previous == s.index
            && lab2_step(s, len, pressed, delta, fresh).elapsed == delta,
        first_color_key(pressed) is None && pressed.contains(Key::Space) ==> lab2_step(
            s,
            len,
            pressed,
            delta,
            fresh,
        ).index == (s.index + 1) % len && lab2_step(s, len, pressed, delta, fresh).previous
            == s.index && lab2_step(s, len, pressed, delta, fresh).elapsed == delta,
        first_color_key(pressed) matches Some(i) ==> i >= len ==> lab2_step(
            s,
            len,
            pressed,
            delta,
            fresh,
        ).elapsed == repeating_elapsed(COLOR_INTERVAL_NANOS as nat, s.elapsed, delta),
{
}

/// A colour chosen with a colour key holds for a full interval: after a
/// frame in which a colour key inside the palette is pressed, frames without
/// key presses that together (with that frame) take less than the interval
/// keep that colour.
pub proof fn lemma_digit_choice_holds_an_interval(
    s: Lab2State,
    len: int,
    pressed: Seq<Key>,
    delta: nat,
    deltas: Seq<nat>,
    i: int,
)
    requires
        len > 0,
        0 <= s.index < len,
        0 <= s.previous < len,
        first_color_key(pressed) == Some(i),
        i < len,
        delta + total(deltas) < COLOR_INTERVAL_NANOS,
    ensures
        lab2_idle_run(lab2_step(s, len, pressed, delta, false), len, deltas).index == i,
{
    lemma_choice_restarts_interval(s, len, pressed, delta, false);
    lemma_color_key_bounds(pressed, 0);
    let s1 = lab2_step(s, len, pressed, delta, false);
    assert forall|k: int| 0 <= k < deltas.len() implies #[trigger] deltas[k]
        <= COLOR_INTERVAL_NANOS by {
        lemma_total_bounds_each(deltas, k);
    }
    lemma_color_changes_once_per_interval(s1, len, deltas);
    vstd::arithmetic::div_mod::lemma_small_mod(
        (delta + total(deltas)) as nat,
        COLOR_INTERVAL_NANOS as nat,
    );
    vstd::arithmetic::div_mod::lemma_fundamental_div_mod_converse(
        (delta + total(deltas)) as int,
        COLOR_INTERVAL_NANOS as int,
        0,
        (delta + total(deltas)) as int,
    );
    vstd::arithmetic::div_mod::lemma_small_mod(i as nat, len as nat);
}

/// A transition that a manual choice starts in smooth mode runs from the
/// colour that was shown before the frame to the colour chosen: on a running
/// lab 2 with the smooth mode on, a frame with a colour key inside the
/// palette or with Space (and shorter than the transition) ends with the
/// torus showing the blend from the colour shown before it.
pub proof fn lemma_manual_transition_starts_from_shown_color<C: Copy>(
    before: Lab2App<C>,
    after: Lab2App<C>,
    pressed: Seq<Key>,
    delta: nat,
)
    requires
        before.wf(),
        after.wf(),
        after.palette.colors@ == before.palette.colors@,
        after@ == lab2_step(before@, before.palette.colors@.len() as int, pressed, delta, false),
        before.settings.smooth,
        !pressed.contains(Key::KeyL),
        delta < TRANSITION_WINDOW_NANOS,
        (first_color_key(pressed) matches Some(i) && i < before.palette.colors@.len()) || (
        first_color_key(pressed) is None && pressed.contains(Key::Space)),
    ensures
        after.material == (Shade::Blend {
            from: before.palette.colors@[before.palette.current_index as int],
            to: after.palette.colors@[after.palette.current_index as int],
            elapsed_nanos: delta as u64,
        }),
{
    let len = before.palette.colors@.len() as int;
    lemma_choice_restarts_interval(before@, len, pressed, delta, false);
}

} // verus!
