//! Pitch-name parsing of the guitar renderer's command line.
//!
//! A pitch is a note letter (either case), an optional accidental (`#` or `s`
//! for sharp, `b` for flat) and a one-digit octave, e.g. `E2`, `f#3`, `Bb4`.
//! Surrounding whitespace is ignored.
use vstd::prelude::*;
use vstd::string::*;
use crate::text::{trim, trim_bounds, is_ascii_char, is_digit, digit_value};

verus! {

/// ASCII letters in upper case, every other character unchanged.
pub open spec fn ascii_upper(c: char) -> char {
    if 'a' <= c && c <= 'z' { ((c as u32) - 32) as char } else { c }
}

/// Semitone of a note letter above C.
pub open spec fn letter_semitone(c: char) -> Option<int> {
    let u = ascii_upper(c);
    if u == 'C' {
        Some(0)
    } else if u == 'D' {
        Some(2)
    } else if u == 'E' {
        Some(4)
    } else if u == 'F' {
        Some(5)
    } else if u == 'G' {
        Some(7)
    } else if u == 'A' {
        Some(9)
    } else if u == 'B' {
        Some(11)
    } else {
        None
    }
}

/// Offset of an accidental: sharp (`#` or `s`) raises, flat (`b`) lowers.
pub open spec fn accidental_offset(c: char) -> Option<int> {
    if c == '#' || c == 's' {
        Some(1)
    } else if c == 'b' {
        Some(-1)
    } else {
        None
    }
}

/// Inputs on which the parser cannot cut the first two characters off as
/// single bytes: the (trimmed) name starts with a non-ASCII character, or its
/// second character is not ASCII.
pub open spec fn pitch_name_unsliceable(t: Seq<char>) -> bool {
    ||| (t.len() >= 1 && !is_ascii_char(t[0]))
    ||| (t.len() >= 2 && !is_ascii_char(t[1]))
}

/// MIDI note of a trimmed pitch name.
pub open spec fn spec_pitch_to_midi(t: Seq<char>) -> Option<u8> {
    if t.len() < 2 {
        None
    } else {
        // A three-byte name carries an accidental; any other length reads the
        // octave right after the letter.
        let with_accidental = t.len() == 3 && is_ascii_char(t[2]);
        let acc = if with_accidental { accidental_offset(t[1]) } else { Some(0int) };
        let octave_char = if with_accidental { t[2] } else { t[1] };
        match (letter_semitone(t[0]), acc) {
            (Some(semitone), Some(offset)) => {
                if is_digit(octave_char) {
                    let midi = (digit_value(octave_char) + 1) * 12 + semitone + offset;
                    if 0 <= midi <= 127 { Some(midi as u8) } else { None }
                } else {
                    None
                }
            },
            _ => None,
        }
    }
}

/// The note letters, in either case, name their semitones above C:
/// C 0, D 2, E 4, F 5, G 7, A 9, B 11; no other character is a note letter.
pub proof fn lemma_letter_semitones(c: char)
    ensures
        letter_semitone('C') == Some(0int) && letter_semitone('c') == Some(0int),
        letter_semitone('D') == Some(2int) && letter_semitone('d') == Some(2int),
        letter_semitone('E') == Some(4int) && letter_semitone('e') == Some(4int),
        letter_semitone('F') == Some(5int) && letter_semitone('f') == Some(5int),
        letter_semitone('G') == Some(7int) && letter_semitone('g') == Some(7int),
        letter_semitone('A') == Some(9int) && letter_semitone('a') == Some(9int),
        letter_semitone('B') == Some(11int) && letter_semitone('b') == Some(11int),
        letter_semitone(c) is Some ==> ('A' <= c <= 'G' || 'a' <= c <= 'g'),
{
}

/// A natural pitch name (letter and one octave digit) is the MIDI note
/// `(octave + 1) * 12 + semitone`, e.g. A2 = 45, E2 = 40, C4 = 60, as long as
/// that is at most 127.
pub proof fn lemma_natural_pitch(c: char, d: char)
    requires
        '0' <= d <= '9',
    ensures
        ({
            let octave = (d as u32 - '0' as u32) as int;
            let semitone = if c == 'C' || c == 'c' {
                0int
            } else if c == 'D' || c == 'd' {
                2
            } else if c == 'E' || c == 'e' {
                4
            } else if c == 'F' || c == 'f' {
                5
            } else if c == 'G' || c == 'g' {
                7
            } else if c == 'A' || c == 'a' {
                9
            } else {
                11
            };
            ('A' <= c <= 'G' || 'a' <= c <= 'g') && (octave + 1) * 12 + semitone <= 127
                ==> spec_pitch_to_midi(seq![c, d]) == Some(((octave + 1) * 12 + semitone) as u8)
        }),
{
    lemma_letter_semitones(c);
}

/// A sharp (`#` or `s`) raises a natural pitch by one semitone and a flat
/// (`b`) lowers it by one, within 0..=127.
pub proof fn lemma_accidentals_shift_one_semitone(c: char, d: char, m: u8)
    requires
        spec_pitch_to_midi(seq![c, d]) == Some(m),
    ensures
        m < 127 ==> spec_pitch_to_midi(seq![c, '#', d]) == Some((m + 1) as u8),
        m < 127 ==> spec_pitch_to_midi(seq![c, 's', d]) == Some((m + 1) as u8),
        m > 0 ==> spec_pitch_to_midi(seq![c, 'b', d]) == Some((m - 1) as u8),
{
    assert(is_ascii_char(d)) by {
        assert(is_digit(d));
    }
}

fn letter_semitone_of(c: char) -> (r: Option<i32>)
    ensures
        r matches Some(v) ==> letter_semitone(c) == Some(v as int),
        r is None ==> letter_semitone(c) is None,
{
    let u = if 'a' <= c && c <= 'z' { ((c as u32) - 32) as u8 as char } else { c };
    assert(u == ascii_upper(c));
    if u == 'C' {
        Some(0)
    } else if u == 'D' {
        Some(2)
    } else if u == 'E' {
        Some(4)
    } else if u == 'F' {
        Some(5)
    } else if u == 'G' {
        Some(7)
    } else if u == 'A' {
        Some(9)
    } else if u == 'B' {
        Some(11)
    } else {
        None
    }
}

/// Converts a pitch name such as `E2` or `F#3` to its MIDI note, if it names
/// one in 0..=127.
pub fn pitch_to_midi(name: &str) -> (r: Option<u8>)
    requires
        !pitch_name_unsliceable(trim(name@)),
    ensures
        r == spec_pitch_to_midi(trim(name@)),
{
    let (a, b) = trim_bounds(name);
    let ghost t = trim(name@);
    let len = b - a;
    if len < 2 {
        return None;
    }
    let c0 = name.get_char(a);
    let c1 = name.get_char(a + 1);
    assert(c0 == t[0] && c1 == t[1]);
    let with_accidental = len == 3 && (name.get_char(a + 2) as u32) < 0x80;
    let semitone = match letter_semitone_of(c0) {
        Some(v) => v,
        None => {
            return None;
        },
    };
    let (offset, octave_char): (i32, char) = if with_accidental {
        let c2 = name.get_char(a + 2);
        assert(c2 == t[2]);
        let offset: i32 = if c1 == '#' || c1 == 's' {
            1
        } else if c1 == 'b' {
            -1
        } else {
            return None;
        };
        (offset, c2)
    } else {
        (0, c1)
    };
    if !('0' <= octave_char && octave_char <= '9') {
        return None;
    }
    let octave = (octave_char as u32 - '0' as u32) as i32;
    let midi: i32 = (octave + 1) * 12 + semitone + offset;
    if 0 <= midi && midi <= 127 {
        Some(midi as u8)
    } else {
        None
    }
}

} // verus!
