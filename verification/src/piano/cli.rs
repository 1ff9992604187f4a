//! Note-name parsing of the piano renderer's command line.
//!
//! A note is a letter with an optional `#` or `b`, followed by an octave
//! number, e.g. `A4`, `C#3`, `Eb5`, `C-1`. Unknown names fall back to A and an
//! unreadable octave falls back to 4. Surrounding whitespace is ignored.
use vstd::prelude::*;
use vstd::string::*;
use crate::text::{trim, trim_bounds, is_ascii_char, spec_parse_i32, parse_i32_chars, is_digit, digit_value, decimal_value, all_digits, is_whitespace};
use crate::piano::params::{spec_pitch_name, spec_pitch_class_name, int_text, nat_text, digit_char, octave_of};
use crate::guitar::cli::ascii_upper;

verus! {

/// Pitch class of an upper-cased note name (one or two characters); unknown
/// names are A (9).
pub open spec fn name_pitch_class(name: Seq<char>) -> int {
    if name.len() == 1 {
        let c = ascii_upper(name[0]);
        if c == 'C' {
            0
        } else if c == 'D' {
            2
        } else if c == 'E' {
            4
        } else if c == 'F' {
            5
        } else if c == 'G' {
            7
        } else if c == 'A' {
            9
        } else if c == 'B' {
            11
        } else {
            9
        }
    } else if name.len() == 2 {
        let c = ascii_upper(name[0]);
        let m = ascii_upper(name[1]);
        if c == 'C' && m == '#' {
            1
        } else if c == 'D' && m == 'B' {
            1
        } else if c == 'D' && m == '#' {
            3
        } else if c == 'E' && m == 'B' {
            3
        } else if c == 'F' && m == '#' {
            6
        } else if c == 'G' && m == 'B' {
            6
        } else if c == 'G' && m == '#' {
            8
        } else if c == 'A' && m == 'B' {
            8
        } else if c == 'A' && m == '#' {
            10
        } else if c == 'B' && m == 'B' {
            10
        } else {
            9
        }
    } else {
        9
    }
}

/// The name carries a `#` or `b` after its first character and is at least
/// three bytes long.
pub open spec fn has_accidental_form(t: Seq<char>) -> bool {
    &&& t.len() >= 2
    &&& (t[1] == '#' || t[1] == 'b')
    &&& (t.len() >= 3 || !is_ascii_char(t[0]))
}

/// Number of leading characters that form the note name.
pub open spec fn name_len(t: Seq<char>) -> int {
    if has_accidental_form(t) && is_ascii_char(t[0]) { 2 } else { 1 }
}

/// The octave written after the name, 4 where it does not parse.
pub open spec fn written_octave(t: Seq<char>) -> int {
    match spec_parse_i32(t.skip(name_len(t))) {
        Some(v) => v as int,
        None => 4,
    }
}

/// The MIDI number before it is narrowed to a byte.
pub open spec fn wide_midi(t: Seq<char>) -> int {
    (written_octave(t) + 1) * 12 + name_pitch_class(t.take(name_len(t)))
}

/// Inputs the parser cannot take: an empty name, a first character that
/// cannot be cut off as the leading byte(s) of the name, or an octave so large
/// that the note number leaves the `i32` range.
pub open spec fn note_name_unreadable(t: Seq<char>) -> bool {
    ||| t.len() == 0
    ||| (!has_accidental_form(t) && !is_ascii_char(t[0]))
    ||| (has_accidental_form(t) && (t[0] as u32) >= 0x800)
    ||| written_octave(t) + 1 > i32::MAX
    ||| (written_octave(t) + 1) * 12 < i32::MIN
    ||| (written_octave(t) + 1) * 12 > i32::MAX
    ||| wide_midi(t) > i32::MAX
}

/// MIDI note of a trimmed note name: the note number narrowed to a byte.
pub open spec fn spec_note_to_midi(t: Seq<char>) -> u8 {
    wide_midi(t) as i32 as u8
}

fn upper(c: char) -> (r: char)
    ensures
        r == ascii_upper(c),
{
    if 'a' <= c && c <= 'z' { ((c as u32) - 32) as u8 as char } else { c }
}

/// Pitch class of a note name given by its first character and, for a
/// two-character name, its second: C is 0, C# and Db are 1, ..., B is 11;
/// unknown names are A (9).
pub fn pitch_class_of(c: char, m: Option<char>) -> (r: i32)
    ensures
        m is None ==> r as int == name_pitch_class(seq![c]),
        m matches Some(x) ==> r as int == name_pitch_class(seq![c, x]),
{
    let c = upper(c);
    match m {
        None => {
            if c == 'C' {
                0
            } else if c == 'D' {
                2
            } else if c == 'E' {
                4
            } else if c == 'F' {
                5
            } else if c == 'G' {
                7
            } else if c == 'A' {
                9
            } else if c == 'B' {
                11
            } else {
                9
            }
        },
        Some(x) => {
            let m = upper(x);
            if (c == 'C' && m == '#') || (c == 'D' && m == 'B') {
                1
            } else if (c == 'D' && m == '#') || (c == 'E' && m == 'B') {
                3
            } else if (c == 'F' && m == '#') || (c == 'G' && m == 'B') {
                6
            } else if (c == 'G' && m == '#') || (c == 'A' && m == 'B') {
                8
            } else if (c == 'A' && m == '#') || (c == 'B' && m == 'B') {
                10
            } else {
                9
            }
        },
    }
}

/// Note names read as their pitch classes: C 0, D 2, E 4, F 5, G 7, A 9,
/// B 11 (either case); a sharp raises C, D, F, G, A by one and a flat (`b`
/// or `B`) lowers D, E, G, A, B by one, so a flat name reads as its
/// enharmonic sharp: Db = C# = 1, Eb = D# = 3, Gb = F# = 6, Ab = G# = 8,
/// Bb = A# = 10.
pub proof fn lemma_note_name_pitch_classes()
    ensures
        name_pitch_class(seq!['C']) == 0 && name_pitch_class(seq!['c']) == 0,
        name_pitch_class(seq!['D']) == 2 && name_pitch_class(seq!['d']) == 2,
        name_pitch_class(seq!['E']) == 4 && name_pitch_class(seq!['e']) == 4,
        name_pitch_class(seq!['F']) == 5 && name_pitch_class(seq!['f']) == 5,
        name_pitch_class(seq!['G']) == 7 && name_pitch_class(seq!['g']) == 7,
        name_pitch_class(seq!['A']) == 9 && name_pitch_class(seq!['a']) == 9,
        name_pitch_class(seq!['B']) == 11 && name_pitch_class(seq!['b']) == 11,
        name_pitch_class(seq!['C', '#']) == 1 && name_pitch_class(seq!['D', 'b']) == 1,
        name_pitch_class(seq!['D', '#']) == 3 && name_pitch_class(seq!['E', 'b']) == 3,
        name_pitch_class(seq!['F', '#']) == 6 && name_pitch_class(seq!['G', 'b']) == 6,
        name_pitch_class(seq!['G', '#']) == 8 && name_pitch_class(seq!['A', 'b']) == 8,
        name_pitch_class(seq!['A', '#']) == 10 && name_pitch_class(seq!['B', 'b']) == 10,
        name_pitch_class(seq!['a', 'b']) == 8 && name_pitch_class(seq!['g', '#']) == 8 && name_pitch_class(seq!['A', 'B']) == 8,
        name_pitch_class(seq!['e', 'b']) == 3 && name_pitch_class(seq!['b', 'b']) == 10,
{
}

/// Flat and sharp spellings of one pitch give the same MIDI note for any
/// octave text: Db/C#, Eb/D#, Gb/F#, Ab/G#, Bb/A# (so `Ab4` and `G#4` are
/// both 68).
pub proof fn lemma_enharmonic_names(o: Seq<char>)
    requires
        o.len() >= 1,
    ensures
        spec_note_to_midi(seq!['D', 'b'] + o) == spec_note_to_midi(seq!['C', '#'] + o),
        spec_note_to_midi(seq!['E', 'b'] + o) == spec_note_to_midi(seq!['D', '#'] + o),
        spec_note_to_midi(seq!['G', 'b'] + o) == spec_note_to_midi(seq!['F', '#'] + o),
        spec_note_to_midi(seq!['A', 'b'] + o) == spec_note_to_midi(seq!['G', '#'] + o),
        spec_note_to_midi(seq!['B', 'b'] + o) == spec_note_to_midi(seq!['A', '#'] + o),
        !note_name_unreadable(seq!['A', 'b'] + o) ==> wide_midi(seq!['A', 'b'] + o) == (written_octave(seq!['A', 'b'] + o) + 1) * 12 + 8,
{
    lemma_note_name_pitch_classes();
    lemma_two_char_name(seq!['D', 'b'], o);
    lemma_two_char_name(seq!['C', '#'], o);
    lemma_two_char_name(seq!['E', 'b'], o);
    lemma_two_char_name(seq!['D', '#'], o);
    lemma_two_char_name(seq!['G', 'b'], o);
    lemma_two_char_name(seq!['F', '#'], o);
    lemma_two_char_name(seq!['A', 'b'], o);
    lemma_two_char_name(seq!['G', '#'], o);
    lemma_two_char_name(seq!['B', 'b'], o);
    lemma_two_char_name(seq!['A', '#'], o);
}

proof fn lemma_two_char_name(n: Seq<char>, o: Seq<char>)
    requires
        n.len() == 2,
        o.len() >= 1,
        n[1] == '#' || n[1] == 'b',
        is_ascii_char(n[0]),
    ensures
        has_accidental_form(n + o),
        name_len(n + o) == 2,
        (n + o).take(2) == n,
        (n + o).skip(2) == o,
{
    assert((n + o).take(2) =~= n);
    assert((n + o).skip(2) =~= o);
}

/// Converts a note name such as `A4`, `C#3` or `Eb5` to a MIDI note number.
pub fn note_to_midi(note: &str) -> (r: u8)
    requires
        !note_name_unreadable(trim(note@)),
    ensures
        r == spec_note_to_midi(trim(note@)),
{
    let (a, b) = trim_bounds(note);
    let ghost t = trim(note@);
    let len = b - a;
    let c0 = note.get_char(a);
    let accidental_form = len >= 2 && {
        let c1 = note.get_char(a + 1);
        (c1 == '#' || c1 == 'b') && (len >= 3 || (c0 as u32) >= 0x80)
    };
    assert(accidental_form == has_accidental_form(t));
    let name_chars: usize = if accidental_form && (c0 as u32) < 0x80 { 2 } else { 1 };
    let base = if name_chars == 2 {
        let c1 = note.get_char(a + 1);
        assert(t.take(2) =~= seq![c0, c1]);
        pitch_class_of(c0, Some(c1))
    } else {
        assert(t.take(1) =~= seq![c0]);
        pitch_class_of(c0, None)
    };
    assert(t.skip(name_len(t)) =~= note@.subrange(a + name_chars, b as int));
    let oct: i32 = match parse_i32_chars(note, a + name_chars, b) {
        Some(v) => v,
        None => 4,
    };
    let wide: i32 = (oct + 1) * 12 + base;
    wide as u8
}

proof fn lemma_digit_char(d: int)
    requires
        0 <= d <= 9,
    ensures
        is_digit(digit_char(d)),
        digit_value(digit_char(d)) == d,
        !is_whitespace(digit_char(d)),
{
}

/// The octave numbers of the keyboard's note names parse back to themselves.
proof fn lemma_octave_text_parses(o: int)
    requires
        -1 <= o <= 20,
    ensures
        spec_parse_i32(int_text(o)) == Some(o as i32),
        int_text(o).len() > 0,
        !is_whitespace(int_text(o).last()),
        int_text(o)[0] != '#' && int_text(o)[0] != 'b',
{
    let t = int_text(o);
    if o == -1 {
        lemma_digit_char(1);
        assert(t =~= seq!['-', digit_char(1)]);
        let d = t.drop_first();
        assert(d =~= seq![digit_char(1)]);
        assert(all_digits(d));
        assert(d.drop_last() =~= Seq::<char>::empty());
        assert(decimal_value(d.drop_last()) == 0);
        assert(d.last() == digit_char(1));
        assert(decimal_value(d) == 1);
    } else if o < 10 {
        lemma_digit_char(o);
        assert(t =~= seq![digit_char(o)]);
        assert(all_digits(t));
        assert(t.drop_last() =~= Seq::<char>::empty());
        assert(decimal_value(t.drop_last()) == 0);
        assert(t.last() == digit_char(o));
        assert(decimal_value(t) == o);
    } else {
        lemma_digit_char(o / 10);
        lemma_digit_char(o % 10);
        assert(nat_text((o / 10) as nat) == seq![digit_char(o / 10)]);
        assert(t =~= seq![digit_char(o / 10), digit_char(o % 10)]);
        assert(all_digits(t));
        assert(t.drop_last() =~= seq![digit_char(o / 10)]);
        assert(t.drop_last().drop_last() =~= Seq::<char>::empty());
        assert(decimal_value(t.drop_last().drop_last()) == 0);
        assert(t.drop_last().last() == digit_char(o / 10));
        assert(decimal_value(t.drop_last()) == o / 10);
        assert(t.last() == digit_char(o % 10));
        assert(decimal_value(t) == o);
    }
}

/// Naming and parsing are inverse: the name `midi_to_pitch_name` gives a
/// note is readable, and `note_to_midi` reads it back as the same note.
pub proof fn lemma_pitch_name_round_trip(n: u8)
    ensures
        !note_name_unreadable(trim(spec_pitch_name(n))),
        spec_note_to_midi(trim(spec_pitch_name(n))) == n,
{
    let pc = n % 12;
    let o = octave_of(n);
    let cls = spec_pitch_class_name(pc);
    let t = spec_pitch_name(n);
    reveal_strlit("C");
    reveal_strlit("C#");
    reveal_strlit("D");
    reveal_strlit("D#");
    reveal_strlit("E");
    reveal_strlit("F");
    reveal_strlit("F#");
    reveal_strlit("G");
    reveal_strlit("G#");
    reveal_strlit("A");
    reveal_strlit("A#");
    reveal_strlit("B");
    lemma_octave_text_parses(o);
    let ot = int_text(o);
    assert(t == cls + ot);
    assert(cls.len() == 1 || cls.len() == 2);
    assert(t[0] == cls[0]);
    assert(t.last() == ot.last());
    assert(trim(t) == t);
    let k = name_len(t);
    if cls.len() == 2 {
        assert(t[1] == '#');
        assert(has_accidental_form(t));
        assert(k == 2);
    } else {
        assert(t[1] == ot[0]);
        assert(!has_accidental_form(t));
        assert(k == 1);
    }
    assert(t.skip(k) =~= ot);
    assert(t.take(k) =~= cls);
    assert(written_octave(t) == o);
    assert(name_pitch_class(cls) == pc);
    assert(wide_midi(t) == n);
}

} // verus!
