//! Instrument mode and per-string note bookkeeping of the six-string engine.
//!
//! The engine keeps, for each string slot (index 0 = string 1, high E), the
//! MIDI note it is sounding. Note-off and pitch-bend messages on MPE channels
//! 2..=7 address one string each; on any other channel they address every
//! string sounding the note.
use vstd::prelude::*;
use crate::guitar::params::GuitarStringSetType;
use crate::guitar::pluck::PluckStyle;

verus! {

#[derive(Debug, Clone, Copy, PartialEq, Eq, Structural)]
pub enum GuitarInstrumentMode {
    Acoustic,
    Electric,
}

impl GuitarInstrumentMode {
    /// Mode of the plugin's instrument selector: 1 = Acoustic, anything else
    /// = Electric.
    pub fn from_index(idx: i32) -> (r: Self)
        ensures
            r == (if idx == 1 { GuitarInstrumentMode::Acoustic } else { GuitarInstrumentMode::Electric }),
    {
        if idx == 1 {
            GuitarInstrumentMode::Acoustic
        } else {
            GuitarInstrumentMode::Electric
        }
    }

    /// Pluck style a new engine starts with: plectrum for the electric guitar,
    /// finger flesh for the acoustic.
    pub fn default_pluck_style(self) -> (r: PluckStyle)
        ensures
            r == (match self {
                GuitarInstrumentMode::Electric => PluckStyle::Plectrum,
                GuitarInstrumentMode::Acoustic => PluckStyle::FingerFlesh,
            }),
    {
        match self {
            GuitarInstrumentMode::Electric => PluckStyle::Plectrum,
            GuitarInstrumentMode::Acoustic => PluckStyle::FingerFlesh,
        }
    }

    /// String set rendered for the mode: phosphor bronze .012 for the
    /// acoustic guitar, nickel .010 for the electric.
    pub fn default_string_set(self) -> (r: GuitarStringSetType)
        ensures
            r == (match self {
                GuitarInstrumentMode::Acoustic => GuitarStringSetType::Acoustic012,
                GuitarInstrumentMode::Electric => GuitarStringSetType::Electric010,
            }),
    {
        match self {
            GuitarInstrumentMode::Acoustic => GuitarStringSetType::Acoustic012,
            GuitarInstrumentMode::Electric => GuitarStringSetType::Electric010,
        }
    }
}

pub open spec fn spec_mpe_string_slot(channel: u8) -> Option<usize> {
    if 2 <= channel <= 7 { Some((channel - 2) as usize) } else { None }
}

/// The string slot (0-based) an MPE channel addresses: channel 2 is string 1,
/// channel 7 is string 6; other channels address no single string.
pub fn mpe_string_slot(channel: u8) -> (r: Option<usize>)
    ensures
        r == spec_mpe_string_slot(channel),
{
    if 2 <= channel && channel <= 7 {
        Some((channel - 2) as usize)
    } else {
        None
    }
}

/// Which string slots a note-off releases: on an MPE channel its own string,
/// otherwise every string sounding `midi_note`.
pub open spec fn spec_released(active: Seq<Option<u8>>, channel: u8, midi_note: u8, i: int) -> bool {
    match spec_mpe_string_slot(channel) {
        Some(slot) => i == slot,
        None => active[i] == Some(midi_note),
    }
}

/// The note table after a note-off.
pub open spec fn after_note_off(active: Seq<Option<u8>>, channel: u8, midi_note: u8) -> Seq<Option<u8>> {
    Seq::new(6, |i: int| if spec_released(active, channel, midi_note, i) { None } else { active[i] })
}

/// Note-off bookkeeping: clears the released slots of `active` and reports
/// which strings have to be released.
pub fn release_note(active: &mut [Option<u8>; 6], channel: u8, midi_note: u8) -> (released: [bool; 6])
    ensures
        forall|i: int| 0 <= i < 6 ==> #[trigger] released[i] == spec_released(old(active)@, channel, midi_note, i),
        final(active)@ == after_note_off(old(active)@, channel, midi_note),
{
    let ghost before = active@;
    let mut released = [false; 6];
    match mpe_string_slot(channel) {
        Some(slot) => {
            active[slot] = None;
            released[slot] = true;
        },
        None => {
            let mut i: usize = 0;
            while i < 6
                invariant
                    0 <= i <= 6,
                    forall|j: int| 0 <= j < i ==> #[trigger] released[j] == (old(active)@[j] == Some(midi_note)),
                    forall|j: int| i <= j < 6 ==> !#[trigger] released[j],
                    forall|j: int| 0 <= j < i ==> #[trigger] active@[j] == if old(active)@[j] == Some(midi_note) {
                        None
                    } else {
                        old(active)@[j]
                    },
                    forall|j: int| i <= j < 6 ==> #[trigger] active@[j] == old(active)@[j],
                decreases 6 - i,
            {
                if active[i] == Some(midi_note) {
                    active[i] = None;
                    released[i] = true;
                }
                i = i + 1;
            }
        },
    }
    assert(active@ =~= after_note_off(before, channel, midi_note));
    released
}

/// After a note-off on a non-MPE channel no string is left sounding that
/// note, and every string sounding another note keeps it.
pub proof fn lemma_note_off_clears_note(active: Seq<Option<u8>>, channel: u8, midi_note: u8)
    requires
        active.len() == 6,
        spec_mpe_string_slot(channel) is None,
    ensures
        forall|i: int| 0 <= i < 6 ==> #[trigger] after_note_off(active, channel, midi_note)[i] != Some(midi_note),
        forall|i: int| 0 <= i < 6 && active[i] != Some(midi_note)
            ==> #[trigger] after_note_off(active, channel, midi_note)[i] == active[i],
{
}

/// A note-off on an MPE channel silences exactly that channel's string.
pub proof fn lemma_mpe_note_off_targets_channel_string(active: Seq<Option<u8>>, channel: u8, midi_note: u8)
    requires
        active.len() == 6,
        2 <= channel <= 7,
    ensures
        after_note_off(active, channel, midi_note)[channel - 2] == Option::<u8>::None,
        forall|i: int| 0 <= i < 6 && i != channel - 2 ==> #[trigger] after_note_off(active, channel, midi_note)[i] == active[i],
{
}

} // verus!
