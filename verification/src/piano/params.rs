//! Key-level rules of the 88-key concert grand: note names, unison string
//! counts and damper placement.
use vstd::prelude::*;
use vstd::string::*;

verus! {

/// Lowest key of the keyboard (A0).
pub const LOWEST_KEY: u8 = 21;

/// Highest key of the keyboard (C8).
pub const HIGHEST_KEY: u8 = 108;

pub open spec fn spec_pitch_class_name(pc: u8) -> Seq<char> {
    if pc == 0 {
        "C"@
    } else if pc == 1 {
        "C#"@
    } else if pc == 2 {
        "D"@
    } else if pc == 3 {
        "D#"@
    } else if pc == 4 {
        "E"@
    } else if pc == 5 {
        "F"@
    } else if pc == 6 {
        "F#"@
    } else if pc == 7 {
        "G"@
    } else if pc == 8 {
        "G#"@
    } else if pc == 9 {
        "A"@
    } else if pc == 10 {
        "A#"@
    } else {
        "B"@
    }
}

/// Name of a pitch class 0..=11 (C, C#, D, ..., B).
pub fn pitch_class_name(pc: u8) -> (r: &'static str)
    requires
        pc < 12,
    ensures
        r@ == spec_pitch_class_name(pc),
{
    match pc {
        0 => "C",
        1 => "C#",
        2 => "D",
        3 => "D#",
        4 => "E",
        5 => "F",
        6 => "F#",
        7 => "G",
        8 => "G#",
        9 => "A",
        10 => "A#",
        _ => "B",
    }
}

pub open spec fn digit_char(d: int) -> char {
    (('0' as u32) + d) as char
}

/// Decimal digits of a natural number.
pub open spec fn nat_text(n: nat) -> Seq<char>
    decreases n,
{
    if n < 10 {
        seq![digit_char(n as int)]
    } else {
        nat_text(n / 10) + seq![digit_char((n % 10) as int)]
    }
}

/// Decimal text of an integer, with a leading `-` when negative.
pub open spec fn int_text(n: int) -> Seq<char> {
    if n < 0 { seq!['-'] + nat_text((-n) as nat) } else { nat_text(n as nat) }
}

/// Octave number of a MIDI note in scientific pitch notation (C4 = 60).
pub open spec fn octave_of(midi: u8) -> int {
    midi / 12 - 1
}

/// Pitch name of a MIDI note, e.g. 60 is `C4`, 21 is `A0`.
pub open spec fn spec_pitch_name(midi: u8) -> Seq<char> {
    spec_pitch_class_name(midi % 12) + int_text(octave_of(midi))
}

fn digit_str(d: u8) -> (r: &'static str)
    requires
        d < 10,
    ensures
        r@ == seq![digit_char(d as int)],
{
    proof {
        reveal_strlit("0");
        reveal_strlit("1");
        reveal_strlit("2");
        reveal_strlit("3");
        reveal_strlit("4");
        reveal_strlit("5");
        reveal_strlit("6");
        reveal_strlit("7");
        reveal_strlit("8");
        reveal_strlit("9");
    }
    let r = match d {
        0 => "0",
        1 => "1",
        2 => "2",
        3 => "3",
        4 => "4",
        5 => "5",
        6 => "6",
        7 => "7",
        8 => "8",
        _ => "9",
    };
    assert(r@ =~= seq![digit_char(d as int)]);
    r
}

/// Pitch name of a MIDI note: pitch class followed by the octave, e.g.
/// `A0`, `C4`, `C#-1`.
pub fn midi_to_pitch_name(midi_note: u8) -> (r: String)
    ensures
        r@ == spec_pitch_name(midi_note),
{
    let mut name = String::from_str(pitch_class_name(midi_note % 12));
    let octave: u8 = midi_note / 12;
    // octave number is `octave - 1`, from -1 to 20
    if octave == 0 {
        proof {
            reveal_strlit("-1");
        }
        name.append("-1");
        assert(int_text(octave_of(midi_note)) =~= "-1"@);
    } else if octave - 1 >= 10 {
        let n = octave - 1;
        name.append(digit_str(n / 10));
        name.append(digit_str(n % 10));
        assert(nat_text((n / 10) as nat) == seq![digit_char((n / 10) as int)]);
        assert(int_text(octave_of(midi_note)) =~= seq![digit_char((n / 10) as int)] + seq![digit_char((n % 10) as int)]);
    } else {
        name.append(digit_str(octave - 1));
    }
    assert(name@ =~= spec_pitch_name(midi_note));
    name
}

/// Strings per key: a single wound string for A0-E1 (up to key 28), a
/// double-wound pair for F1-Bb2 (keys 29 to 46), and a plain-steel triplet
/// from B2 (key 47) up.
pub open spec fn spec_unison_count(midi_note: u8) -> usize {
    if midi_note <= 28 { 1 } else if midi_note <= 46 { 2 } else { 3 }
}

pub fn unison_count(midi_note: u8) -> (r: usize)
    ensures
        r == spec_unison_count(midi_note),
{
    if midi_note <= 28 {
        1  // Single-wound copper string (A0-E1)
    } else if midi_note <= 46 {
        2  // Double-wound copper strings (F1-Bb2)
    } else {
        3  // Plain steel wire (B2-C8)
    }
}

/// Keys below 89 (F6) have dampers; the top of the keyboard rings freely.
pub fn has_damper(midi_note: u8) -> (r: bool)
    ensures
        r == (midi_note < 89),
{
    midi_note < 89
}

/// Strings struck by the hammer: with the una corda pedal down a key with two
/// or three strings is struck on one string fewer.
pub fn struck_string_count(num_strings: usize, una_corda: bool) -> (r: usize)
    ensures
        r == (if una_corda && num_strings >= 2 { (num_strings - 1) as usize } else { num_strings }),
{
    if una_corda && num_strings >= 2 {
        num_strings - 1
    } else {
        num_strings
    }
}

/// The string scale breaks: single wound strings for A0-E1 (keys 21-28),
/// double-wound pairs for F1-Bb2 (keys 29-46), plain-steel triplets for
/// B2-C8 (keys 47-108).
pub proof fn lemma_unison_breaks(k: u8)
    ensures
        k <= 28 ==> spec_unison_count(k) == 1,
        29 <= k <= 46 ==> spec_unison_count(k) == 2,
        47 <= k ==> spec_unison_count(k) == 3,
{
}

/// Pitch names are spelled with sharps: C C# D D# E F F# G G# A A# B for
/// pitch classes 0 to 11, and e.g. key 21 is `A0`, 60 is `C4`, 108 is `C8`.
pub proof fn lemma_pitch_class_spelling(pc: u8)
    ensures
        spec_pitch_class_name(0) == seq!['C'] && spec_pitch_class_name(1) == seq!['C', '#'],
        spec_pitch_class_name(2) == seq!['D'] && spec_pitch_class_name(3) == seq!['D', '#'],
        spec_pitch_class_name(4) == seq!['E'] && spec_pitch_class_name(5) == seq!['F'],
        spec_pitch_class_name(6) == seq!['F', '#'] && spec_pitch_class_name(7) == seq!['G'],
        spec_pitch_class_name(8) == seq!['G', '#'] && spec_pitch_class_name(9) == seq!['A'],
        spec_pitch_class_name(10) == seq!['A', '#'] && spec_pitch_class_name(11) == seq!['B'],
        octave_of(21) == 0 && octave_of(60) == 4 && octave_of(108) == 8,
        forall|n: u8| #[trigger] octave_of(n) == n / 12 - 1,
{
    reveal_strlit("C");
    reveal_strlit("C#");
    reveal_strlit("D");
    reveal_strlit("D#");
    reveal_strlit("E");
    reveal_strlit("F");
    reveal_strlit("F#");
    reveal_strlit("G");
    reveal_strlit("G#");
    reveal_strlit("A");
    reveal_strlit("A#");
    reveal_strlit("B");
    assert(spec_pitch_class_name(1) =~= seq!['C', '#']);
    assert(spec_pitch_class_name(3) =~= seq!['D', '#']);
    assert(spec_pitch_class_name(6) =~= seq!['F', '#']);
    assert(spec_pitch_class_name(8) =~= seq!['G', '#']);
    assert(spec_pitch_class_name(10) =~= seq!['A', '#']);
    assert(spec_pitch_class_name(0) =~= seq!['C']);
    assert(spec_pitch_class_name(2) =~= seq!['D']);
    assert(spec_pitch_class_name(4) =~= seq!['E']);
    assert(spec_pitch_class_name(5) =~= seq!['F']);
    assert(spec_pitch_class_name(7) =~= seq!['G']);
    assert(spec_pitch_class_name(9) =~= seq!['A']);
    assert(spec_pitch_class_name(11) =~= seq!['B']);
}

/// Unison counts never decrease up the keyboard and always lie in 1..=3.
pub proof fn lemma_unison_count_monotone(lo: u8, hi: u8)
    requires
        lo <= hi,
    ensures
        1 <= spec_unison_count(lo) <= spec_unison_count(hi) <= 3,
{
}

} // verus!
