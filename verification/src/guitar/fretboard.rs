//! Fretboard topology, six-string voicing allocator, and MPE routing.
use vstd::prelude::*;

verus! {

/// Highest playable fret.
pub const MAX_FRET: u8 = 24;

/// Extra cost charged for a string that is already sounding a held note.
pub const HELD_STRING_PENALTY: u32 = 100;

/// Result of resolving a note on the fretboard.
#[derive(Debug, Clone, Copy, PartialEq, Eq, Structural)]
pub struct FretboardLocation {
    /// String index: 1 (high E) to 6 (low E)
    pub string_index: u8,
    /// Fret number: 0 (open) to 24
    pub fret: u8,
}

#[derive(Debug, Clone)]
pub struct FretboardRouter {
    /// Open string MIDI notes for strings 1..=6
    pub open_notes: [u8; 6],
    /// Current virtual hand position on the neck (fret 0 to 24)
    pub hand_position: u8,
}

/// Absolute distance between two frets.
pub open spec fn fret_distance(a: int, b: int) -> int {
    if a >= b { a - b } else { b - a }
}

impl FretboardRouter {
    /// Standard tuning, open position: E4, B3, G3, D3, A2, E2.
    pub open spec fn standard_open_notes() -> Seq<u8> {
        seq![64u8, 59u8, 55u8, 50u8, 45u8, 40u8]
    }

    /// String slot `i` (0-based) can sound `note`: the note is at or above the
    /// open string and at most 24 frets up.
    pub open spec fn can_play(self, note: u8, i: int) -> bool {
        &&& 0 <= i < 6
        &&& note >= self.open_notes[i]
        &&& note - self.open_notes[i] <= MAX_FRET
    }

    /// Cost of playing `note` on string slot `i`: distance from the hand
    /// position, plus the held-string penalty when that string is held.
    pub open spec fn cost(self, note: u8, held: Seq<bool>, i: int) -> int {
        fret_distance(note - self.open_notes[i], self.hand_position as int)
            + if held[i] { HELD_STRING_PENALTY as int } else { 0 }
    }

    /// Slot `i` is the chosen one: playable, no playable slot is cheaper, and
    /// every playable slot before it is strictly more expensive (ties go to the
    /// lower string index).
    pub open spec fn is_best_slot(self, note: u8, held: Seq<bool>, i: int) -> bool {
        &&& self.can_play(note, i)
        &&& forall|j: int| #[trigger] self.can_play(note, j) ==> self.cost(note, held, i) <= self.cost(note, held, j)
        &&& forall|j: int| 0 <= j < i && #[trigger] self.can_play(note, j) ==> self.cost(note, held, i) < self.cost(note, held, j)
    }

    /// The location that plays `note` on string slot `i`.
    pub open spec fn location_on(self, note: u8, i: int) -> FretboardLocation {
        FretboardLocation { string_index: (i + 1) as u8, fret: (note - self.open_notes[i]) as u8 }
    }

    pub open spec fn spec_note_at(self, string_index: u8, fret: u8) -> Option<u8> {
        if 1 <= string_index <= 6 {
            Some((self.open_notes[string_index - 1] + fret) as u8)
        } else {
            None
        }
    }

    /// MIDI channels 2..=7 address one string each under MPE.
    pub open spec fn is_mpe_channel(channel: u8) -> bool {
        2 <= channel <= 7
    }

    /// What the MPE allocator answers for `channel` and `note`.
    pub open spec fn mpe_location(self, channel: u8, note: u8) -> Option<FretboardLocation> {
        if Self::is_mpe_channel(channel) && self.can_play(note, channel - 2) {
            Some(self.location_on(note, channel - 2))
        } else {
            None
        }
    }

    pub fn new() -> (r: Self)
        ensures
            r.open_notes@ == Self::standard_open_notes(),
            r.hand_position == 0,
    {
        Self::default()
    }

    /// Resolves which string (1..=6) and fret (0..=24) should play `midi_note`,
    /// considering which strings are currently held.
    pub fn allocate_note(&self, midi_note: u8, strings_held: &[bool; 6]) -> (r: Option<FretboardLocation>)
        ensures
            r is None <==> forall|i: int| !self.can_play(midi_note, i),
            r matches Some(loc) ==> {
                &&& 1 <= loc.string_index <= 6
                &&& self.is_best_slot(midi_note, strings_held@, loc.string_index - 1)
                &&& loc == self.location_on(midi_note, loc.string_index - 1)
            },
    {
        let mut best: Option<(u32, usize)> = None;
        let mut i: usize = 0;
        while i < 6
            invariant
                0 <= i <= 6,
                best is None <==> forall|j: int| 0 <= j < i ==> !self.can_play(midi_note, j),
                best matches Some(b) ==> {
                    &&& b.1 < i
                    &&& b.0 as int == self.cost(midi_note, strings_held@, b.1 as int)
                    &&& self.can_play(midi_note, b.1 as int)
                    &&& forall|j: int| 0 <= j < i && #[trigger] self.can_play(midi_note, j)
                        ==> self.cost(midi_note, strings_held@, b.1 as int) <= self.cost(midi_note, strings_held@, j)
                    &&& forall|j: int| 0 <= j < b.1 && #[trigger] self.can_play(midi_note, j)
                        ==> self.cost(midi_note, strings_held@, b.1 as int) < self.cost(midi_note, strings_held@, j)
                },
            decreases 6 - i,
        {
            let open = self.open_notes[i];
            if midi_note >= open && midi_note - open <= MAX_FRET {
                let fret = midi_note - open;
                let hand = self.hand_position;
                let distance: u32 = if fret >= hand { (fret - hand) as u32 } else { (hand - fret) as u32 };
                let cost: u32 = if strings_held[i] { distance + HELD_STRING_PENALTY } else { distance };
                match best {
                    None => {
                        best = Some((cost, i));
                    },
                    Some(b) => {
                        if cost < b.0 {
                            best = Some((cost, i));
                        }
                    },
                }
            }
            proof {
                if let Some(b) = best {
                    assert(self.can_play(midi_note, b.1 as int));
                }
            }
            i = i + 1;
        }
        match best {
            None => None,
            Some(b) => {
                let open = self.open_notes[b.1];
                Some(FretboardLocation { string_index: (b.1 + 1) as u8, fret: midi_note - open })
            },
        }
    }

    /// MPE allocation: Maps MPE channel (Channel 2..=7) directly to strings 1..=6.
    pub fn allocate_mpe_note(&self, channel: u8, midi_note: u8) -> (r: Option<FretboardLocation>)
        ensures
            r == self.mpe_location(channel, midi_note),
    {
        if 2 <= channel && channel <= 7 {
            let string_idx = channel - 1;
            let open = self.open_notes[(string_idx - 1) as usize];
            if midi_note >= open {
                let fret = midi_note - open;
                if fret <= MAX_FRET {
                    return Some(FretboardLocation { string_index: string_idx, fret });
                }
            }
        }
        None
    }

    /// The MIDI note sounded by pressing `fret` on string `string_index`
    /// (1..=6); `None` for a string index off the neck.
    pub fn note_at(&self, string_index: u8, fret: u8) -> (r: Option<u8>)
        requires
            1 <= string_index <= 6 ==> self.open_notes[string_index - 1] + fret <= u8::MAX,
        ensures
            r == self.spec_note_at(string_index, fret),
    {
        if 1 <= string_index && string_index <= 6 {
            Some(self.open_notes[(string_index - 1) as usize] + fret)
        } else {
            None
        }
    }

    /// Note-on routing: MPE channels 2..=7 address their own string, every
    /// other channel goes through the cost-based allocator.
    pub fn route_note(&self, channel: u8, midi_note: u8, strings_held: &[bool; 6]) -> (r: Option<FretboardLocation>)
        ensures
            Self::is_mpe_channel(channel) ==> r == self.mpe_location(channel, midi_note),
            !Self::is_mpe_channel(channel) ==> {
                &&& r is None <==> forall|i: int| !self.can_play(midi_note, i)
                &&& r matches Some(loc) ==> {
                    &&& 1 <= loc.string_index <= 6
                    &&& self.is_best_slot(midi_note, strings_held@, loc.string_index - 1)
                    &&& loc == self.location_on(midi_note, loc.string_index - 1)
                }
            },
    {
        if 2 <= channel && channel <= 7 {
            self.allocate_mpe_note(channel, midi_note)
        } else {
            self.allocate_note(midi_note, strings_held)
        }
    }
}

/// Standard tuning E2 A2 D3 G3 B3 E4: the low E string (string 6) is MIDI 40,
/// each higher string is a fourth (5 semitones) above the one below it except
/// B over G, a major third (4 semitones), so the high E string is two octaves
/// above the low one.
pub proof fn lemma_standard_tuning()
    ensures
        FretboardRouter::standard_open_notes().len() == 6,
        FretboardRouter::standard_open_notes()[5] == 40,
        FretboardRouter::standard_open_notes()[4] == FretboardRouter::standard_open_notes()[5] + 5,
        FretboardRouter::standard_open_notes()[3] == FretboardRouter::standard_open_notes()[4] + 5,
        FretboardRouter::standard_open_notes()[2] == FretboardRouter::standard_open_notes()[3] + 5,
        FretboardRouter::standard_open_notes()[1] == FretboardRouter::standard_open_notes()[2] + 4,
        FretboardRouter::standard_open_notes()[0] == FretboardRouter::standard_open_notes()[1] + 5,
        FretboardRouter::standard_open_notes()[0] == FretboardRouter::standard_open_notes()[5] + 24,
{
}

/// Allocation and fretting are inverse: pressing the location chosen for a
/// note (by either routing mode) sounds that note again.
pub proof fn lemma_location_round_trip(router: FretboardRouter, note: u8, i: int)
    requires
        router.can_play(note, i),
    ensures
        router.location_on(note, i).fret <= MAX_FRET,
        router.spec_note_at(router.location_on(note, i).string_index, router.location_on(note, i).fret) == Some(note),
{
}

/// The allocator's choice is unique: two best slots for the same note and the
/// same held strings are the same slot.
pub proof fn lemma_best_slot_unique(router: FretboardRouter, note: u8, held: Seq<bool>, i: int, j: int)
    requires
        held.len() == 6,
        router.is_best_slot(note, held, i),
        router.is_best_slot(note, held, j),
    ensures
        i == j,
{
}

/// With the hand on the neck (fret 0..=24), a free string that can play the
/// note always wins over a held one: the allocator never steals a sounding
/// string while a free string could take the note.
pub proof fn lemma_free_string_preferred(router: FretboardRouter, note: u8, held: Seq<bool>, free: int, chosen: int)
    requires
        held.len() == 6,
        router.hand_position <= MAX_FRET,
        router.can_play(note, free),
        !held[free],
        router.is_best_slot(note, held, chosen),
    ensures
        !held[chosen],
{
    if held[chosen] {
        assert(router.cost(note, held, chosen) >= HELD_STRING_PENALTY);
        assert(router.cost(note, held, free) <= MAX_FRET);
    }
}

/// The two routing modes agree: the location the cost-based allocator picks
/// for a note is exactly what MPE routing answers on that string's channel.
pub proof fn lemma_allocation_matches_mpe(router: FretboardRouter, note: u8, held: Seq<bool>, chosen: int)
    requires
        held.len() == 6,
        router.is_best_slot(note, held, chosen),
    ensures
        router.mpe_location((chosen + 2) as u8, note) == Some(router.location_on(note, chosen)),
{
}

impl Default for FretboardRouter {
    fn default() -> (r: Self)
        ensures
            r.open_notes@ == Self::standard_open_notes(),
            r.hand_position == 0,
    {
        let r = Self {
            open_notes: [64, 59, 55, 50, 45, 40],  // E4, B3, G3, D3, A2, E2
            hand_position: 0,  // open/first position
        };
        assert(r.open_notes@ =~= Self::standard_open_notes());
        r
    }
}

} // verus!
