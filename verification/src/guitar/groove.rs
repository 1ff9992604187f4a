//! Smart Strumming & Groove Pattern sequencing.
//!
//! Provides the step tables of the tempo-synced strumming rhythm patterns
//! (folk strum, fingerstyle arpeggio, funk chops, palm-muted rock chug) and the
//! sample-counting sequencer that walks through them. Velocities and palm-mute
//! amounts are given in percent of full scale.
use vstd::prelude::*;
use crate::guitar::noise::{Xorshift64, xorshift64_step};
use crate::guitar::strummer::StrumDirection;

verus! {

/// Fewest samples between two groove steps.
pub const MIN_STEP_SAMPLES: usize = 100;

/// Seed of the humanizing timing generator.
pub const GROOVE_SEED: u64 = 0x9371_8462_0192_8374;

#[derive(Debug, Clone, Copy, PartialEq, Eq, Structural)]
pub enum GroovePattern {
    Off,
    FolkStrum44,
    BalladArp68,
    Funk16th,
    RockChug8th,
}

#[derive(Debug, Clone, Copy, PartialEq, Eq, Structural)]
pub enum GrooveAction {
    /// No note on this step (a rest)
    Rest,
    Strum {
        direction: StrumDirection,
        /// Stroke velocity, percent of full scale
        velocity_percent: u8,
        /// Palm-mute depth forced for this stroke, percent
        palm_mute_percent: Option<u8>,
    },
    PluckString {
        /// 0 = lowest held, 1 = second lowest, etc.
        string_rel_index: usize,
        /// Pluck velocity, percent of full scale
        velocity_percent: u8,
    },
}

pub open spec fn strum(direction: StrumDirection, velocity_percent: u8, palm_mute_percent: Option<u8>) -> GrooveAction {
    GrooveAction::Strum { direction, velocity_percent, palm_mute_percent }
}

pub open spec fn pluck(string_rel_index: usize, velocity_percent: u8) -> GrooveAction {
    GrooveAction::PluckString { string_rel_index, velocity_percent }
}

impl GroovePattern {
    pub open spec fn spec_from_index(idx: i32) -> GroovePattern {
        if idx == 1 {
            GroovePattern::FolkStrum44
        } else if idx == 2 {
            GroovePattern::BalladArp68
        } else if idx == 3 {
            GroovePattern::Funk16th
        } else if idx == 4 {
            GroovePattern::RockChug8th
        } else {
            GroovePattern::Off
        }
    }

    pub fn from_index(idx: i32) -> (r: Self)
        ensures
            r == Self::spec_from_index(idx),
    {
        match idx {
            1 => GroovePattern::FolkStrum44,
            2 => GroovePattern::BalladArp68,
            3 => GroovePattern::Funk16th,
            4 => GroovePattern::RockChug8th,
            _ => GroovePattern::Off,
        }
    }

    pub open spec fn spec_subdivisions_per_beat(self) -> u32 {
        match self {
            GroovePattern::Off => 4,
            GroovePattern::FolkStrum44 => 4,
            GroovePattern::BalladArp68 => 3,
            GroovePattern::Funk16th => 4,
            GroovePattern::RockChug8th => 2,
        }
    }

    /// Steps per beat: 16th notes for folk and funk, 8th-note triplets for the
    /// 6/8 ballad, 8th notes for the rock chug.
    pub fn subdivisions_per_beat(self) -> (r: u32)
        ensures
            r == self.spec_subdivisions_per_beat(),
    {
        match self {
            GroovePattern::Off => 4,
            GroovePattern::FolkStrum44 => 4,  // 16th notes (4 per beat)
            GroovePattern::BalladArp68 => 3,  // 8th note triplets in 6/8
            GroovePattern::Funk16th => 4,  // 16th notes
            GroovePattern::RockChug8th => 2,  // 8th notes (2 per beat)
        }
    }

    pub open spec fn spec_steps_per_bar(self) -> usize {
        match self {
            GroovePattern::Off => 1,
            GroovePattern::FolkStrum44 => 16,
            GroovePattern::BalladArp68 => 6,
            GroovePattern::Funk16th => 16,
            GroovePattern::RockChug8th => 8,
        }
    }

    /// Length of one bar of the pattern, in steps (1 for `Off`, which never steps).
    pub fn steps_per_bar(self) -> (r: usize)
        ensures
            r == self.spec_steps_per_bar(),
    {
        match self {
            GroovePattern::Off => 1,
            GroovePattern::FolkStrum44 => 16,
            GroovePattern::BalladArp68 => 6,
            GroovePattern::Funk16th => 16,
            GroovePattern::RockChug8th => 8,
        }
    }

    pub open spec fn spec_action_at(self, step: usize) -> GrooveAction {
        match self {
            GroovePattern::Off => GrooveAction::Rest,
            // D . D . D . . U . U D . D . U .
            GroovePattern::FolkStrum44 => {
                if step == 0 {
                    strum(StrumDirection::Down, 95, Option::None)
                } else if step == 2 {
                    strum(StrumDirection::Down, 70, Option::None)
                } else if step == 4 {
                    strum(StrumDirection::Down, 88, Option::None)
                } else if step == 7 {
                    strum(StrumDirection::Up, 75, Option::None)
                } else if step == 9 {
                    strum(StrumDirection::Up, 78, Option::None)
                } else if step == 10 {
                    strum(StrumDirection::Down, 85, Option::None)
                } else if step == 12 {
                    strum(StrumDirection::Down, 82, Option::None)
                } else if step == 14 {
                    strum(StrumDirection::Up, 72, Option::None)
                } else {
                    GrooveAction::Rest
                }
            },
            // Bass -> 3 -> 2 -> 1 -> 2 -> 3
            GroovePattern::BalladArp68 => {
                if step == 0 {
                    pluck(0, 95)
                } else if step == 1 {
                    pluck(1, 70)
                } else if step == 2 {
                    pluck(2, 75)
                } else if step == 3 {
                    pluck(3, 85)
                } else if step == 4 {
                    pluck(2, 68)
                } else if step == 5 {
                    pluck(1, 68)
                } else {
                    GrooveAction::Rest
                }
            },
            GroovePattern::Funk16th => {
                if step == 0 {
                    strum(StrumDirection::Down, 95, Option::None)
                } else if step == 2 {
                    strum(StrumDirection::Up, 55, Option::Some(85))
                } else if step == 4 {
                    strum(StrumDirection::Down, 82, Option::None)
                } else if step == 6 {
                    strum(StrumDirection::Up, 70, Option::None)
                } else if step == 7 {
                    strum(StrumDirection::Down, 50, Option::Some(90))
                } else if step == 10 {
                    strum(StrumDirection::Down, 88, Option::None)
                } else if step == 12 {
                    strum(StrumDirection::Up, 55, Option::Some(85))
                } else if step == 14 {
                    strum(StrumDirection::Up, 76, Option::None)
                } else {
                    GrooveAction::Rest
                }
            },
            GroovePattern::RockChug8th => {
                let vel: u8 = if step == 0 {
                    98
                } else if step == 2 {
                    85
                } else if step == 4 {
                    92
                } else if step == 6 {
                    85
                } else {
                    72
                };
                strum(StrumDirection::Down, vel, Option::Some(70))
            },
        }
    }

    /// The action the pattern plays at a step of its bar.
    pub fn action_at(self, step: usize) -> (r: GrooveAction)
        ensures
            r == self.spec_action_at(step),
    {
        match self {
            GroovePattern::Off => GrooveAction::Rest,
            GroovePattern::FolkStrum44 => {
                // 16-step bar: D . D . D . . U . U D . D . U .
                // Classic folk syncopated acoustic rhythm
                match step {
                    0 => GrooveAction::Strum { direction: StrumDirection::Down, velocity_percent: 95, palm_mute_percent: None },
                    2 => GrooveAction::Strum { direction: StrumDirection::Down, velocity_percent: 70, palm_mute_percent: None },
                    4 => GrooveAction::Strum { direction: StrumDirection::Down, velocity_percent: 88, palm_mute_percent: None },
                    7 => GrooveAction::Strum { direction: StrumDirection::Up, velocity_percent: 75, palm_mute_percent: None },
                    9 => GrooveAction::Strum { direction: StrumDirection::Up, velocity_percent: 78, palm_mute_percent: None },
                    10 => GrooveAction::Strum { direction: StrumDirection::Down, velocity_percent: 85, palm_mute_percent: None },
                    12 => GrooveAction::Strum { direction: StrumDirection::Down, velocity_percent: 82, palm_mute_percent: None },
                    14 => GrooveAction::Strum { direction: StrumDirection::Up, velocity_percent: 72, palm_mute_percent: None },
                    _ => GrooveAction::Rest,
                }
            },
            GroovePattern::BalladArp68 => {
                // 6-step arpeggio pattern: Bass -> 3 -> 2 -> 1 -> 2 -> 3
                match step {
                    0 => GrooveAction::PluckString { string_rel_index: 0, velocity_percent: 95 },  // Bass note
                    1 => GrooveAction::PluckString { string_rel_index: 1, velocity_percent: 70 },
                    2 => GrooveAction::PluckString { string_rel_index: 2, velocity_percent: 75 },
                    3 => GrooveAction::PluckString { string_rel_index: 3, velocity_percent: 85 },  // Treble climax
                    4 => GrooveAction::PluckString { string_rel_index: 2, velocity_percent: 68 },
                    5 => GrooveAction::PluckString { string_rel_index: 1, velocity_percent: 68 },
                    _ => GrooveAction::Rest,
                }
            },
            GroovePattern::Funk16th => {
                // 16-step funk rhythm with percussive muted chops
                match step {
                    0 => GrooveAction::Strum { direction: StrumDirection::Down, velocity_percent: 95, palm_mute_percent: None },
                    2 => GrooveAction::Strum { direction: StrumDirection::Up, velocity_percent: 55, palm_mute_percent: Some(85) },  // muted chick
                    4 => GrooveAction::Strum { direction: StrumDirection::Down, velocity_percent: 82, palm_mute_percent: None },
                    6 => GrooveAction::Strum { direction: StrumDirection::Up, velocity_percent: 70, palm_mute_percent: None },
                    7 => GrooveAction::Strum { direction: StrumDirection::Down, velocity_percent: 50, palm_mute_percent: Some(90) },  // muted chick
                    10 => GrooveAction::Strum { direction: StrumDirection::Down, velocity_percent: 88, palm_mute_percent: None },
                    12 => GrooveAction::Strum { direction: StrumDirection::Up, velocity_percent: 55, palm_mute_percent: Some(85) },  // muted chick
                    14 => GrooveAction::Strum { direction: StrumDirection::Up, velocity_percent: 76, palm_mute_percent: None },
                    _ => GrooveAction::Rest,
                }
            },
            GroovePattern::RockChug8th => {
                // 8-step hard rock heavy palm-muted 8th chug with accented downbeats
                let vel: u8 = match step {
                    0 => 98,
                    2 => 85,
                    4 => 92,
                    6 => 85,
                    _ => 72,
                };
                GrooveAction::Strum { direction: StrumDirection::Down, velocity_percent: vel, palm_mute_percent: Some(70) }
            },
        }
    }
}

/// Sample-counting step sequencer of a groove pattern.
///
/// The sequencer counts audio samples; when the count reaches the current step
/// interval a step is due. The caller then draws a humanizing jitter from the
/// sequencer's generator, turns it into the next interval, and fires the step,
/// which yields the pattern's action and advances to the next step of the bar.
#[derive(Debug, Clone)]
pub struct GrooveSequencer {
    pattern: GroovePattern,
    sample_counter: usize,
    samples_per_subdivision: usize,
    step_index: usize,
    next_step_samples: usize,
    rng: Xorshift64,
}

impl GrooveSequencer {
    pub closed spec fn spec_pattern(self) -> GroovePattern {
        self.pattern
    }

    pub closed spec fn spec_sample_counter(self) -> usize {
        self.sample_counter
    }

    pub closed spec fn spec_samples_per_subdivision(self) -> usize {
        self.samples_per_subdivision
    }

    pub closed spec fn spec_step_index(self) -> usize {
        self.step_index
    }

    pub closed spec fn spec_next_step_samples(self) -> usize {
        self.next_step_samples
    }

    pub closed spec fn spec_rng_state(self) -> u64 {
        self.rng.spec_state()
    }

    /// The step stays inside the bar and the sample counter can always advance.
    pub open spec fn wf(self) -> bool {
        &&& self.spec_step_index() < self.spec_pattern().spec_steps_per_bar()
        &&& self.spec_sample_counter() < usize::MAX
    }

    /// A sequencer with the pattern off and the given step interval (at least
    /// 100 samples).
    pub fn new(nominal_samples: usize) -> (r: Self)
        ensures
            r.wf(),
            r.spec_pattern() == GroovePattern::Off,
            r.spec_sample_counter() == 0,
            r.spec_step_index() == 0,
            r.spec_samples_per_subdivision() == max_usize(nominal_samples, MIN_STEP_SAMPLES),
            r.spec_next_step_samples() == max_usize(nominal_samples, MIN_STEP_SAMPLES),
            r.spec_rng_state() == GROOVE_SEED,
    {
        let mut s = GrooveSequencer {
            pattern: GroovePattern::Off,
            sample_counter: 0,
            samples_per_subdivision: MIN_STEP_SAMPLES,
            step_index: 0,
            next_step_samples: 0,
            rng: Xorshift64::new(GROOVE_SEED),
        };
        s.set_subdivision(nominal_samples);
        s
    }

    pub fn pattern(&self) -> (r: GroovePattern)
        ensures
            r == self.spec_pattern(),
    {
        self.pattern
    }

    pub fn step_index(&self) -> (r: usize)
        ensures
            r == self.spec_step_index(),
    {
        self.step_index
    }

    pub fn samples_per_subdivision(&self) -> (r: usize)
        ensures
            r == self.spec_samples_per_subdivision(),
    {
        self.samples_per_subdivision
    }

    pub fn next_step_samples(&self) -> (r: usize)
        ensures
            r == self.spec_next_step_samples(),
    {
        self.next_step_samples
    }

    /// Sets the step interval from its nominal length in samples (raised to at
    /// least 100); the next step is due one full interval from the last one.
    pub fn set_subdivision(&mut self, nominal_samples: usize)
        requires
            old(self).wf(),
        ensures
            final(self).wf(),
            final(self).spec_samples_per_subdivision() == max_usize(nominal_samples, MIN_STEP_SAMPLES),
            final(self).spec_next_step_samples() == max_usize(nominal_samples, MIN_STEP_SAMPLES),
            final(self).spec_pattern() == old(self).spec_pattern(),
            final(self).spec_step_index() == old(self).spec_step_index(),
            final(self).spec_sample_counter() == old(self).spec_sample_counter(),
            final(self).spec_rng_state() == old(self).spec_rng_state(),
    {
        let n = if nominal_samples > MIN_STEP_SAMPLES { nominal_samples } else { MIN_STEP_SAMPLES };
        self.samples_per_subdivision = n;
        self.next_step_samples = n;
    }

    /// Switches pattern. A different pattern starts from its first step with
    /// the sample count cleared; returns whether the pattern changed (the step
    /// interval then has to be recomputed for the new subdivision).
    pub fn set_pattern(&mut self, pattern: GroovePattern) -> (changed: bool)
        requires
            old(self).wf(),
        ensures
            final(self).wf(),
            changed == (pattern != old(self).spec_pattern()),
            final(self).spec_pattern() == pattern,
            changed ==> final(self).spec_step_index() == 0 && final(self).spec_sample_counter() == 0,
            final(self).spec_rng_state() == old(self).spec_rng_state(),
            final(self).spec_samples_per_subdivision() == old(self).spec_samples_per_subdivision(),
            final(self).spec_next_step_samples() == old(self).spec_next_step_samples(),
            !changed ==> *final(self) == *old(self),
    {
        if self.pattern != pattern {
            self.pattern = pattern;
            self.step_index = 0;
            self.sample_counter = 0;
            true
        } else {
            false
        }
    }

    /// Back to the first step of the bar with the sample count cleared.
    pub fn reset(&mut self)
        requires
            old(self).wf(),
        ensures
            final(self).wf(),
            final(self).spec_step_index() == 0,
            final(self).spec_sample_counter() == 0,
            final(self).spec_pattern() == old(self).spec_pattern(),
            final(self).spec_samples_per_subdivision() == old(self).spec_samples_per_subdivision(),
            final(self).spec_next_step_samples() == old(self).spec_next_step_samples(),
            final(self).spec_rng_state() == old(self).spec_rng_state(),
    {
        self.step_index = 0;
        self.sample_counter = 0;
    }

    pub open spec fn spec_tick_due(self) -> bool {
        self.spec_pattern() != GroovePattern::Off && self.spec_sample_counter() + 1 >= self.spec_next_step_samples()
    }

    /// Advances one audio sample; returns whether a groove step is due now.
    /// With the pattern off nothing moves.
    pub fn tick(&mut self) -> (due: bool)
        requires
            old(self).wf(),
        ensures
            final(self).wf(),
            due == old(self).spec_tick_due(),
            final(self).spec_sample_counter() == if old(self).spec_pattern() == GroovePattern::Off {
                old(self).spec_sample_counter() as int
            } else if due {
                0
            } else {
                old(self).spec_sample_counter() + 1
            },
            final(self).spec_pattern() == old(self).spec_pattern(),
            final(self).spec_step_index() == old(self).spec_step_index(),
            final(self).spec_samples_per_subdivision() == old(self).spec_samples_per_subdivision(),
            final(self).spec_next_step_samples() == old(self).spec_next_step_samples(),
            final(self).spec_rng_state() == old(self).spec_rng_state(),
    {
        if self.pattern == GroovePattern::Off {
            return false;
        }
        self.sample_counter = self.sample_counter + 1;
        if self.sample_counter < self.next_step_samples {
            return false;
        }
        self.sample_counter = 0;
        true
    }

    /// Draws the next value of the humanizing timing generator.
    pub fn next_random(&mut self) -> (r: u64)
        requires
            old(self).wf(),
        ensures
            final(self).wf(),
            r == xorshift64_step(old(self).spec_rng_state()),
            final(self).spec_rng_state() == r,
            final(self).spec_pattern() == old(self).spec_pattern(),
            final(self).spec_sample_counter() == old(self).spec_sample_counter(),
            final(self).spec_step_index() == old(self).spec_step_index(),
            final(self).spec_samples_per_subdivision() == old(self).spec_samples_per_subdivision(),
            final(self).spec_next_step_samples() == old(self).spec_next_step_samples(),
    {
        self.rng.next_u64()
    }

    /// Fires the due step: the next step comes `interval` samples later (at
    /// least 100), the current step's action is returned, and the bar moves on
    /// by one step.
    pub fn fire(&mut self, interval: isize) -> (action: GrooveAction)
        requires
            old(self).wf(),
        ensures
            final(self).wf(),
            action == old(self).spec_pattern().spec_action_at(old(self).spec_step_index()),
            final(self).spec_next_step_samples() == if interval > MIN_STEP_SAMPLES as isize {
                interval as usize
            } else {
                MIN_STEP_SAMPLES
            },
            final(self).spec_step_index() == if old(self).spec_pattern() == GroovePattern::Off {
                old(self).spec_step_index() as int
            } else {
                (old(self).spec_step_index() + 1) % (old(self).spec_pattern().spec_steps_per_bar() as int)
            },
            final(self).spec_pattern() == old(self).spec_pattern(),
            final(self).spec_sample_counter() == old(self).spec_sample_counter(),
            final(self).spec_samples_per_subdivision() == old(self).spec_samples_per_subdivision(),
            final(self).spec_rng_state() == old(self).spec_rng_state(),
    {
        let next: isize = if interval > MIN_STEP_SAMPLES as isize { interval } else { MIN_STEP_SAMPLES as isize };
        self.next_step_samples = next as usize;
        let current_step = self.step_index;
        let action = self.pattern.action_at(current_step);
        if self.pattern != GroovePattern::Off {
            self.step_index = (self.step_index + 1) % self.pattern.steps_per_bar();
        }
        action
    }
}

pub open spec fn max_usize(a: usize, b: usize) -> usize {
    if a > b { a } else { b }
}

/// Every step of the rock chug is a palm-muted (70 %) down-strum.
pub proof fn lemma_rock_chug_always_muted_downstroke(step: usize)
    requires
        step < GroovePattern::RockChug8th.spec_steps_per_bar(),
    ensures
        GroovePattern::RockChug8th.spec_action_at(step) matches GrooveAction::Strum { direction, palm_mute_percent, .. }
            && direction == StrumDirection::Down && palm_mute_percent == Option::Some(70u8),
{
}

/// The ballad arpeggio plucks one string on every step of its bar, and only
/// the four lowest held strings (relative indices 0..=3).
pub proof fn lemma_ballad_plucks_every_step(step: usize)
    requires
        step < GroovePattern::BalladArp68.spec_steps_per_bar(),
    ensures
        GroovePattern::BalladArp68.spec_action_at(step) matches GrooveAction::PluckString { string_rel_index, .. }
            && string_rel_index <= 3,
{
}

/// Bar lengths and step grids of the patterns: folk and funk are 16
/// sixteenth-note steps (4 per beat), the 6/8 ballad 6 triplet eighths (3 per
/// beat), the rock chug 8 eighth notes (2 per beat).
pub proof fn lemma_pattern_grids()
    ensures
        GroovePattern::FolkStrum44.spec_steps_per_bar() == 16 && GroovePattern::FolkStrum44.spec_subdivisions_per_beat() == 4,
        GroovePattern::BalladArp68.spec_steps_per_bar() == 6 && GroovePattern::BalladArp68.spec_subdivisions_per_beat() == 3,
        GroovePattern::Funk16th.spec_steps_per_bar() == 16 && GroovePattern::Funk16th.spec_subdivisions_per_beat() == 4,
        GroovePattern::RockChug8th.spec_steps_per_bar() == 8 && GroovePattern::RockChug8th.spec_subdivisions_per_beat() == 2,
        GroovePattern::Off.spec_steps_per_bar() == 1,
        forall|p: GroovePattern| p != GroovePattern::Off ==> (#[trigger] p.spec_steps_per_bar() as int) % (p.spec_subdivisions_per_beat() as int) == 0,
{
    assert forall|p: GroovePattern| p != GroovePattern::Off implies (#[trigger] p.spec_steps_per_bar() as int) % (p.spec_subdivisions_per_beat() as int) == 0 by {
        match p {
            GroovePattern::FolkStrum44 => { assert(16int % 4int == 0); },
            GroovePattern::BalladArp68 => { assert(6int % 3int == 0); },
            GroovePattern::Funk16th => { assert(16int % 4int == 0); },
            GroovePattern::RockChug8th => { assert(8int % 2int == 0); },
            GroovePattern::Off => {},
        }
    }
}

/// The selector numbers patterns 1 to 4 in menu order; every other number
/// turns the groove off.
pub proof fn lemma_pattern_selector(idx: i32)
    ensures
        idx == 1 <==> GroovePattern::spec_from_index(idx) == GroovePattern::FolkStrum44,
        idx == 2 <==> GroovePattern::spec_from_index(idx) == GroovePattern::BalladArp68,
        idx == 3 <==> GroovePattern::spec_from_index(idx) == GroovePattern::Funk16th,
        idx == 4 <==> GroovePattern::spec_from_index(idx) == GroovePattern::RockChug8th,
        !(1 <= idx <= 4) <==> GroovePattern::spec_from_index(idx) == GroovePattern::Off,
{
}

/// The folk 4/4 bar is `D . D . D . . U . U D . D . U .`: down-strums on
/// steps 0, 2, 4, 10 and 12, up-strums on 7, 9 and 14, rests elsewhere, never
/// palm-muted; accents 95, 70, 88, 75, 78, 85, 82, 72 in that order.
pub proof fn lemma_folk_bar(s: usize)
    requires
        s < 16,
    ensures
        ({
            let a = GroovePattern::FolkStrum44.spec_action_at(s);
            &&& (a is Strum && a->direction == StrumDirection::Down) <==> (s == 0 || s == 2 || s == 4 || s == 10 || s == 12)
            &&& (a is Strum && a->direction == StrumDirection::Up) <==> (s == 7 || s == 9 || s == 14)
            &&& a is Strum || a is Rest
            &&& a is Strum ==> a->palm_mute_percent == Option::<u8>::None
            &&& s == 0 ==> a->Strum_velocity_percent == 95
            &&& s == 2 ==> a->Strum_velocity_percent == 70
            &&& s == 4 ==> a->Strum_velocity_percent == 88
            &&& s == 7 ==> a->Strum_velocity_percent == 75
            &&& s == 9 ==> a->Strum_velocity_percent == 78
            &&& s == 10 ==> a->Strum_velocity_percent == 85
            &&& s == 12 ==> a->Strum_velocity_percent == 82
            &&& s == 14 ==> a->Strum_velocity_percent == 72
        }),
{
}

/// The 6/8 ballad arpeggio climbs bass, 2nd, 3rd, 4th lowest string and comes
/// back down (0, 1, 2, 3, 2, 1), with the bass at 95, the top at 85 and the
/// others at 70, 75, 68, 68.
pub proof fn lemma_ballad_bar(s: usize)
    requires
        s < 6,
    ensures
        ({
            let a = GroovePattern::BalladArp68.spec_action_at(s);
            &&& a is PluckString
            &&& a->string_rel_index == (if s <= 3 { s as int } else { 6 - s })
            &&& a->PluckString_velocity_percent == (if s == 0 {
                95u8
            } else if s == 1 {
                70u8
            } else if s == 2 {
                75u8
            } else if s == 3 {
                85u8
            } else {
                68u8
            })
        }),
{
}

/// The funk bar: down-strums on steps 0, 4, 7 and 10, up-strums on 2, 6, 12
/// and 14, rests elsewhere; the chicks on 2, 7 and 12 are palm-muted (85, 90,
/// 85) and the others open; accents 95, 55, 82, 70, 50, 88, 55, 76 in order.
pub proof fn lemma_funk_bar(s: usize)
    requires
        s < 16,
    ensures
        ({
            let a = GroovePattern::Funk16th.spec_action_at(s);
            &&& (a is Strum && a->direction == StrumDirection::Down) <==> (s == 0 || s == 4 || s == 7 || s == 10)
            &&& (a is Strum && a->direction == StrumDirection::Up) <==> (s == 2 || s == 6 || s == 12 || s == 14)
            &&& a is Strum || a is Rest
            &&& (a is Strum && a->palm_mute_percent is Some) <==> (s == 2 || s == 7 || s == 12)
            &&& s == 7 ==> a->palm_mute_percent == Option::Some(90u8)
            &&& (s == 2 || s == 12) ==> a->palm_mute_percent == Option::Some(85u8)
            &&& s == 0 ==> a->Strum_velocity_percent == 95
            &&& s == 2 ==> a->Strum_velocity_percent == 55
            &&& s == 4 ==> a->Strum_velocity_percent == 82
            &&& s == 6 ==> a->Strum_velocity_percent == 70
            &&& s == 7 ==> a->Strum_velocity_percent == 50
            &&& s == 10 ==> a->Strum_velocity_percent == 88
            &&& s == 12 ==> a->Strum_velocity_percent == 55
            &&& s == 14 ==> a->Strum_velocity_percent == 76
        }),
{
}

/// The rock chug accents its downbeats: 98 on step 0, 92 on step 4, 85 on
/// steps 2 and 6, 72 on the off-beats.
pub proof fn lemma_rock_accents(s: usize)
    requires
        s < 8,
    ensures
        GroovePattern::RockChug8th.spec_action_at(s)->Strum_velocity_percent == (if s == 0 {
            98u8
        } else if s == 4 {
            92u8
        } else if s % 2 == 0 {
            85u8
        } else {
            72u8
        }),
{
}

/// With the groove off every step rests.
pub proof fn lemma_off_rests(s: usize)
    ensures
        GroovePattern::Off.spec_action_at(s) == GrooveAction::Rest,
{
}

/// The step index after `k` fired steps from step `s`.
pub open spec fn step_after(pattern: GroovePattern, s: int, k: nat) -> int
    decreases k,
{
    if k == 0 {
        s
    } else {
        (step_after(pattern, s, (k - 1) as nat) + 1) % (pattern.spec_steps_per_bar() as int)
    }
}

/// A playing pattern walks through its bar cyclically: after `k` steps it is
/// at `(s + k) mod bar`, so after one full bar it is back where it started.
pub proof fn lemma_bar_is_cyclic(pattern: GroovePattern, s: int, k: nat)
    requires
        0 <= s < pattern.spec_steps_per_bar(),
    ensures
        step_after(pattern, s, k) == (s + k) % (pattern.spec_steps_per_bar() as int),
        step_after(pattern, s, pattern.spec_steps_per_bar() as nat) == s,
{
    lemma_step_after_formula(pattern, s, k);
    lemma_steps_bar_cycle(pattern, s);
}

/// Sample count `j` ticks after a fired step, for a step interval of `m`
/// samples, following the counting rule of `GrooveSequencer::tick`.
pub open spec fn counter_after_ticks(m: int, j: nat) -> int
    decreases j,
{
    if j == 0 {
        0
    } else {
        let c = counter_after_ticks(m, (j - 1) as nat);
        if c + 1 >= m { 0 } else { c + 1 }
    }
}

/// Whether the `j`-th tick (counting from 1) after a fired step is due.
pub open spec fn due_on_tick(m: int, j: nat) -> bool {
    j > 0 && counter_after_ticks(m, (j - 1) as nat) + 1 >= m
}

/// Groove steps are spaced by exactly the step interval: after a step fires
/// with interval `m`, none of the next `m - 1` ticks is due and the `m`-th is.
pub proof fn lemma_steps_spaced_by_interval(m: int, j: nat)
    requires
        m >= 1,
        1 <= j <= m,
    ensures
        due_on_tick(m, j) <==> j == m,
{
    lemma_counter_counts_up(m, (j - 1) as nat);
}

proof fn lemma_counter_counts_up(m: int, j: nat)
    requires
        m >= 1,
        j < m,
    ensures
        counter_after_ticks(m, j) == j,
    decreases j,
{
    if j > 0 {
        lemma_counter_counts_up(m, (j - 1) as nat);
    }
}

proof fn lemma_steps_bar_cycle(pattern: GroovePattern, s: int)
    requires
        0 <= s < pattern.spec_steps_per_bar(),
    ensures
        step_after(pattern, s, pattern.spec_steps_per_bar() as nat) == s,
{
    let n = pattern.spec_steps_per_bar() as int;
    lemma_step_after_formula(pattern, s, n as nat);
    vstd::arithmetic::div_mod::lemma_mod_multiples_vanish(1, s, n);
    vstd::arithmetic::div_mod::lemma_small_mod(s as nat, n as nat);
}

proof fn lemma_step_after_formula(pattern: GroovePattern, s: int, k: nat)
    requires
        0 <= s < pattern.spec_steps_per_bar(),
    ensures
        step_after(pattern, s, k) == (s + k) % (pattern.spec_steps_per_bar() as int),
    decreases k,
{
    let n = pattern.spec_steps_per_bar() as int;
    if k == 0 {
        vstd::arithmetic::div_mod::lemma_small_mod(s as nat, n as nat);
    } else {
        lemma_step_after_formula(pattern, s, (k - 1) as nat);
        let prev = step_after(pattern, s, (k - 1) as nat);
        if n == 1 {
            vstd::arithmetic::div_mod::lemma_mod_pos_bound(prev + 1, n);
            vstd::arithmetic::div_mod::lemma_mod_pos_bound(s + k, n);
            vstd::arithmetic::div_mod::lemma_mod_pos_bound(s + k - 1, n);
        } else {
            vstd::arithmetic::div_mod::lemma_add_mod_noop(s + k - 1, 1, n);
            vstd::arithmetic::div_mod::lemma_small_mod(1, n as nat);
        }
    }
}

} // verus!
