//! Keyboard tables of the piano interface: black and white keys of the
//! 88-key layout, the bitmask in which held keys are shared with the display,
//! and the computer-keyboard octave.
use vstd::prelude::*;
use crate::piano::params::{LOWEST_KEY, HIGHEST_KEY};

verus! {

pub open spec fn spec_is_black_key(midi: u8) -> bool {
    let pc = midi % 12;
    pc == 1 || pc == 3 || pc == 6 || pc == 8 || pc == 10
}

/// Black keys are the sharps: pitch classes 1, 3, 6, 8 and 10.
pub fn is_black_key(midi: u8) -> (r: bool)
    ensures
        r == spec_is_black_key(midi),
{
    let pc = midi % 12;
    pc == 1 || pc == 3 || pc == 6 || pc == 8 || pc == 10
}

/// Number of white keys from `lo` up to, not including, `hi`.
pub open spec fn white_keys_between(lo: int, hi: int) -> int
    decreases hi - lo,
{
    if hi <= lo {
        0
    } else {
        white_keys_between(lo, hi - 1) + if spec_is_black_key((hi - 1) as u8) { 0int } else { 1int }
    }
}

/// Position of a key in the row of white keys: the number of white keys of the
/// keyboard below it. A white key is drawn at this slot; a black key sits on
/// the boundary in front of this slot.
pub fn white_keys_below(midi: u8) -> (r: u32)
    requires
        LOWEST_KEY <= midi <= HIGHEST_KEY,
    ensures
        r == white_keys_between(LOWEST_KEY as int, midi as int),
{
    let mut count: u32 = 0;
    let mut k: u8 = LOWEST_KEY;
    while k < midi
        invariant
            LOWEST_KEY <= k <= midi <= HIGHEST_KEY,
            count == white_keys_between(LOWEST_KEY as int, k as int),
            count <= k - LOWEST_KEY,
        decreases midi - k,
    {
        if !is_black_key(k) {
            count = count + 1;
        }
        k = k + 1;
    }
    count
}

/// The 88-key keyboard has 52 white keys.
pub proof fn lemma_fifty_two_white_keys()
    ensures
        white_keys_between(LOWEST_KEY as int, HIGHEST_KEY as int + 1) == 52,
{
    reveal_with_fuel(white_keys_between, 90);
}

/// Keys shared with the display through the low mask (A0 up to G#5).
pub const LOW_MASK_END: u8 = 85;

/// Bit of key `k` in its mask.
pub open spec fn key_bit(mask: u64, bit: u64) -> bool {
    (mask >> bit) & 1u64 == 1u64
}

/// The masks show key `k` as held.
pub open spec fn spec_key_in_masks(low: u64, high: u64, k: u8) -> bool {
    if LOWEST_KEY <= k < LOW_MASK_END {
        key_bit(low, (k - LOWEST_KEY) as u64)
    } else if LOW_MASK_END <= k <= HIGHEST_KEY {
        key_bit(high, (k - LOW_MASK_END) as u64)
    } else {
        false
    }
}

proof fn lemma_set_bit(x: u64, b: u64, i: u64)
    requires
        b < 64,
        i < 64,
    ensures
        key_bit(x | (1u64 << b), i) == (key_bit(x, i) || i == b),
{
    assert(((x | (1u64 << b)) >> i) & 1u64 == 1u64 <==> (((x >> i) & 1u64 == 1u64) || i == b)) by (bit_vector)
        requires
            b < 64,
            i < 64,
    ;
}

proof fn lemma_test_bit(x: u64, b: u64)
    requires
        b < 64,
    ensures
        (x & (1u64 << b) != 0) == key_bit(x, b),
{
    assert((x & (1u64 << b) != 0) <==> ((x >> b) & 1u64 == 1u64)) by (bit_vector)
        requires
            b < 64,
    ;
}

proof fn lemma_zero_bits(i: u64)
    requires
        i < 64,
    ensures
        !key_bit(0, i),
{
    assert(((0u64 >> i) & 1u64) == 0u64) by (bit_vector);
}

proof fn lemma_high_bits_stay_clear(x: u64, b: u64)
    requires
        x < 0x100_0000,
        b < 24,
    ensures
        x | (1u64 << b) < 0x100_0000,
{
    assert(x | (1u64 << b) < 0x100_0000) by (bit_vector)
        requires
            x < 0x100_0000,
            b < 24,
    ;
}

/// Packs the held keys into the two display masks: bit `k - 21` of the low
/// mask for keys 21..=84, bit `k - 85` of the high mask for keys 85..=108.
/// Keys off the keyboard are left out, and the high mask's bits from 24 up
/// (no key) stay clear.
pub fn encode_key_masks(keys: &[u8]) -> (r: (u64, u64))
    ensures
        forall|k: u8| #[trigger] spec_key_in_masks(r.0, r.1, k) <==> (LOWEST_KEY <= k <= HIGHEST_KEY && keys@.contains(k)),
        r.1 < 0x100_0000,
{
    let mut low: u64 = 0;
    let mut high: u64 = 0;
    let mut j: usize = 0;
    proof {
        assert forall|k: u8| #[trigger] spec_key_in_masks(low, high, k) == false by {
            if LOWEST_KEY <= k < LOW_MASK_END {
                lemma_zero_bits((k - LOWEST_KEY) as u64);
            } else if LOW_MASK_END <= k <= HIGHEST_KEY {
                lemma_zero_bits((k - LOW_MASK_END) as u64);
            }
        }
    }
    while j < keys.len()
        invariant
            j <= keys.len(),
            high < 0x100_0000,
            forall|k: u8| #[trigger] spec_key_in_masks(low, high, k) <==> (LOWEST_KEY <= k <= HIGHEST_KEY
                && keys@.subrange(0, j as int).contains(k)),
        decreases keys.len() - j,
    {
        let k = keys[j];
        let ghost old_low = low;
        let ghost old_high = high;
        if LOWEST_KEY <= k && k < LOW_MASK_END {
            low = low | (1u64 << ((k - LOWEST_KEY) as u64));
        } else if LOW_MASK_END <= k && k <= HIGHEST_KEY {
            proof {
                lemma_high_bits_stay_clear(high, (k - LOW_MASK_END) as u64);
            }
            high = high | (1u64 << ((k - LOW_MASK_END) as u64));
        }
        proof {
            assert(keys@.subrange(0, j + 1) =~= keys@.subrange(0, j as int).push(k));
            assert forall|q: u8| #[trigger] spec_key_in_masks(low, high, q) <==> (LOWEST_KEY <= q <= HIGHEST_KEY
                && keys@.subrange(0, j + 1).contains(q)) by {
                assert(spec_key_in_masks(old_low, old_high, q) <==> (LOWEST_KEY <= q <= HIGHEST_KEY
                    && keys@.subrange(0, j as int).contains(q)));
                if LOWEST_KEY <= q < LOW_MASK_END {
                    if LOWEST_KEY <= k < LOW_MASK_END {
                        lemma_set_bit(old_low, (k - LOWEST_KEY) as u64, (q - LOWEST_KEY) as u64);
                    }
                } else if LOW_MASK_END <= q <= HIGHEST_KEY {
                    if LOW_MASK_END <= k <= HIGHEST_KEY {
                        lemma_set_bit(old_high, (k - LOW_MASK_END) as u64, (q - LOW_MASK_END) as u64);
                    }
                }
                let s0 = keys@.subrange(0, j as int);
                let s1 = keys@.subrange(0, j + 1);
                if s1.contains(q) {
                    let i = choose|i: int| 0 <= i < s1.len() && s1[i] == q;
                    if i < s0.len() {
                        assert(s0[i] == q);
                    }
                }
                if s0.contains(q) {
                    let i = choose|i: int| 0 <= i < s0.len() && s0[i] == q;
                    assert(s1[i] == q);
                }
                if q == k {
                    assert(s1[j as int] == q);
                }
                assert(s1.contains(q) <==> (s0.contains(q) || q == k));
            }
        }
        j = j + 1;
    }
    assert(keys@.subrange(0, keys.len() as int) =~= keys@);
    (low, high)
}

/// Whether the display masks show key `k` as held.
pub fn is_key_active(low: u64, high: u64, k: u8) -> (r: bool)
    ensures
        r == spec_key_in_masks(low, high, k),
{
    if LOWEST_KEY <= k && k < LOW_MASK_END {
        proof {
            lemma_test_bit(low, (k - LOWEST_KEY) as u64);
        }
        (low & (1u64 << ((k - LOWEST_KEY) as u64))) != 0
    } else if LOW_MASK_END <= k && k <= HIGHEST_KEY {
        proof {
            lemma_test_bit(high, (k - LOW_MASK_END) as u64);
        }
        (high & (1u64 << ((k - LOW_MASK_END) as u64))) != 0
    } else {
        false
    }
}

pub open spec fn spec_qwerty_key_midi(key: char) -> Option<u8> {
    if key == 'A' {
        Some(60u8)
    } else if key == 'W' {
        Some(61u8)
    } else if key == 'S' {
        Some(62u8)
    } else if key == 'E' {
        Some(63u8)
    } else if key == 'D' {
        Some(64u8)
    } else if key == 'F' {
        Some(65u8)
    } else if key == 'T' {
        Some(66u8)
    } else if key == 'G' {
        Some(67u8)
    } else if key == 'Y' {
        Some(68u8)
    } else if key == 'H' {
        Some(69u8)
    } else if key == 'U' {
        Some(70u8)
    } else if key == 'J' {
        Some(71u8)
    } else if key == 'K' {
        Some(72u8)
    } else {
        None
    }
}

/// Computer-keyboard piano: the home row A S D F G H J K plays the white keys
/// C4..C5 and W E T Y U above it the black keys.
pub fn qwerty_key_midi(key: char) -> (r: Option<u8>)
    ensures
        r == spec_qwerty_key_midi(key),
{
    match key {
        'A' => Some(60),  // C4
        'W' => Some(61),  // C#4
        'S' => Some(62),  // D4
        'E' => Some(63),  // D#4
        'D' => Some(64),  // E4
        'F' => Some(65),  // F4
        'T' => Some(66),  // F#4
        'G' => Some(67),  // G4
        'Y' => Some(68),  // G#4
        'H' => Some(69),  // A4
        'U' => Some(70),  // A#4
        'J' => Some(71),  // B4
        'K' => Some(72),  // C5
        _ => None,
    }
}

/// The computer keyboard covers the octave C4..=C5 chromatically, one key per
/// note: every note from 60 to 72 has exactly one key, and keys that play a
/// note play one in that octave.
pub proof fn lemma_qwerty_octave_one_key_per_note(c1: char, c2: char)
    ensures
        spec_qwerty_key_midi(c1) matches Some(n) ==> 60 <= n <= 72 && spec_is_black_key(n) == (c1 == 'W' || c1 == 'E'
            || c1 == 'T' || c1 == 'Y' || c1 == 'U'),
        spec_qwerty_key_midi(c1) is Some && spec_qwerty_key_midi(c1) == spec_qwerty_key_midi(c2) ==> c1 == c2,
{
}

/// Every run of 12 consecutive keys (one octave) has 7 white keys.
#[verifier::spinoff_prover]
#[verifier::rlimit(60)]
proof fn lemma_octave_has_seven_white_keys(n: u8)
    requires
        n <= 243,
    ensures
        white_keys_between(n as int, n + 12) == 7,
{
    reveal_with_fuel(white_keys_between, 13);
    let r = n % 12;
    assert((n + 1) % 12 == (r + 1) % 12);
    assert((n + 2) % 12 == (r + 2) % 12);
    assert((n + 3) % 12 == (r + 3) % 12);
    assert((n + 4) % 12 == (r + 4) % 12);
    assert((n + 5) % 12 == (r + 5) % 12);
    assert((n + 6) % 12 == (r + 6) % 12);
    assert((n + 7) % 12 == (r + 7) % 12);
    assert((n + 8) % 12 == (r + 8) % 12);
    assert((n + 9) % 12 == (r + 9) % 12);
    assert((n + 10) % 12 == (r + 10) % 12);
    assert((n + 11) % 12 == (r + 11) % 12);
}

/// Black keys are the sharps of each octave (C#, D#, F#, G#, A#, pitch
/// classes 1, 3, 6, 8, 10): no two black keys are neighbours, and every
/// octave has 7 white and 5 black keys.
pub proof fn lemma_black_key_pattern(n: u8)
    ensures
        spec_is_black_key(n) <==> (n % 12 == 1 || n % 12 == 3 || n % 12 == 6 || n % 12 == 8 || n % 12 == 10),
        n < 255 && spec_is_black_key(n) ==> !spec_is_black_key((n + 1) as u8),
        n <= 243 ==> white_keys_between(n as int, n + 12) == 7,
{
    if n < 255 {
        assert((n + 1) as u8 % 12 == (n % 12 + 1) % 12);
    }
    if n <= 243 {
        lemma_octave_has_seven_white_keys(n);
    }
}

/// The computer-keyboard octave: the home row A S D F G H J K plays the white
/// keys C4 D4 E4 F4 G4 A4 B4 C5 (60, 62, 64, 65, 67, 69, 71, 72) and the row
/// above, W E T Y U, the black keys C#4 D#4 F#4 G#4 A#4 (61, 63, 66, 68, 70);
/// no other key plays.
pub proof fn lemma_qwerty_layout(c: char)
    ensures
        spec_qwerty_key_midi('A') == Some(60u8) && spec_qwerty_key_midi('S') == Some(62u8),
        spec_qwerty_key_midi('D') == Some(64u8) && spec_qwerty_key_midi('F') == Some(65u8),
        spec_qwerty_key_midi('G') == Some(67u8) && spec_qwerty_key_midi('H') == Some(69u8),
        spec_qwerty_key_midi('J') == Some(71u8) && spec_qwerty_key_midi('K') == Some(72u8),
        spec_qwerty_key_midi('W') == Some(61u8) && spec_qwerty_key_midi('E') == Some(63u8),
        spec_qwerty_key_midi('T') == Some(66u8) && spec_qwerty_key_midi('Y') == Some(68u8),
        spec_qwerty_key_midi('U') == Some(70u8),
        spec_qwerty_key_midi(c) is Some ==> (c == 'A' || c == 'S' || c == 'D' || c == 'F' || c == 'G' || c == 'H' || c == 'J'
            || c == 'K' || c == 'W' || c == 'E' || c == 'T' || c == 'Y' || c == 'U'),
{
}

/// What one frame of mouse input does to the on-screen keyboard: the key
/// now held by the mouse, and the key released and the key pressed in this
/// frame, if any.
#[derive(Debug, Clone, Copy, PartialEq, Eq, Structural)]
pub struct MouseKeyStep {
    pub held: Option<u8>,
    pub released: Option<u8>,
    pub pressed: Option<u8>,
}

/// The key the mouse should hold: the hovered key while the primary button
/// is down (and not released this frame) inside the keyboard, else none.
pub open spec fn mouse_target(primary_down: bool, primary_released: bool, in_keyboard: bool, hovered: Option<u8>) -> Option<u8> {
    if primary_down && !primary_released && in_keyboard { hovered } else { None }
}

pub open spec fn spec_mouse_key_step(
    held: Option<u8>,
    primary_down: bool,
    primary_released: bool,
    in_keyboard: bool,
    hovered: Option<u8>,
) -> MouseKeyStep {
    let target = mouse_target(primary_down, primary_released, in_keyboard, hovered);
    if held != target {
        MouseKeyStep { held: target, released: held, pressed: target }
    } else if primary_released {
        MouseKeyStep { held: None, released: held, pressed: None }
    } else {
        MouseKeyStep { held, released: None, pressed: None }
    }
}

/// Mouse playing on the on-screen keyboard: moving to another key (or
/// letting go) releases the held key and presses the new one.
pub fn mouse_key_step(
    held: Option<u8>,
    primary_down: bool,
    primary_released: bool,
    in_keyboard: bool,
    hovered: Option<u8>,
) -> (r: MouseKeyStep)
    ensures
        r == spec_mouse_key_step(held, primary_down, primary_released, in_keyboard, hovered),
{
    let target = if primary_down && !primary_released && in_keyboard { hovered } else { None };
    if held != target {
        MouseKeyStep { held: target, released: held, pressed: target }
    } else if primary_released {
        MouseKeyStep { held: None, released: held, pressed: None }
    } else {
        MouseKeyStep { held, released: None, pressed: None }
    }
}

/// The mouse holds at most one key, and a frame never presses and releases
/// the same key: a press is always of the newly held key.
pub proof fn lemma_mouse_press_is_new_hold(
    held: Option<u8>,
    primary_down: bool,
    primary_released: bool,
    in_keyboard: bool,
    hovered: Option<u8>,
)
    ensures
        ({
            let r = spec_mouse_key_step(held, primary_down, primary_released, in_keyboard, hovered);
            &&& r.pressed is Some ==> r.held == r.pressed && r.released != r.pressed
            &&& r.released is Some ==> r.released == held && r.held != held
        }),
{
}

} // verus!
