use physics_instruments::piano::cli::{note_to_midi, pitch_class_of};
use physics_instruments::piano::engine::{due_events_end, EngineOutEvent};
use physics_instruments::piano::i18n::{I18n, Language};
use physics_instruments::piano::keyboard::{
    encode_key_masks, is_black_key, is_key_active, mouse_key_step, qwerty_key_midi, white_keys_below,
    MouseKeyStep,
};
use physics_instruments::piano::lid::LidPosition;
use physics_instruments::piano::params::{
    has_damper, midi_to_pitch_name, pitch_class_name, struck_string_count, unison_count,
};
use physics_instruments::piano::pedal::FastNoise;
use physics_instruments::piano::voices::VoicePool;

#[test]
fn test_note_to_midi_names() {
    assert_eq!(note_to_midi("A4"), 69);
    assert_eq!(note_to_midi("C#3"), 49);
    assert_eq!(note_to_midi("Eb5"), 75);
    assert_eq!(note_to_midi("Db4"), 61);
    assert_eq!(note_to_midi(" c4 "), 60);
    assert_eq!(note_to_midi("C-1"), 0);
    assert_eq!(note_to_midi("C2"), 36);
}

#[test]
fn test_note_to_midi_fallbacks() {
    // unknown name: A
    assert_eq!(note_to_midi("X4"), 69);
    // "Cb" is not among the flat names: A
    assert_eq!(note_to_midi("Cb4"), 69);
    // missing or unreadable octave: 4
    assert_eq!(note_to_midi("C"), 60);
    assert_eq!(note_to_midi("C#"), 60);
    assert_eq!(note_to_midi("Dq"), 62);
    // octaves beyond the MIDI range wrap around in the byte
    assert_eq!(note_to_midi("A10"), 141);
    assert_eq!(note_to_midi("C20"), 252);
    assert_eq!(note_to_midi("C21"), 8);
}

#[test]
fn test_midi_to_pitch_name() {
    assert_eq!(midi_to_pitch_name(21), "A0");
    assert_eq!(midi_to_pitch_name(60), "C4");
    assert_eq!(midi_to_pitch_name(61), "C#4");
    assert_eq!(midi_to_pitch_name(108), "C8");
    assert_eq!(midi_to_pitch_name(0), "C-1");
    assert_eq!(midi_to_pitch_name(127), "G9");
    assert_eq!(midi_to_pitch_name(255), "D#20");
    assert_eq!(pitch_class_name(10), "A#");
}

#[test]
fn test_key_rules() {
    assert_eq!(unison_count(21), 1);
    assert_eq!(unison_count(28), 1);
    assert_eq!(unison_count(29), 2);
    assert_eq!(unison_count(34), 2);
    assert_eq!(unison_count(40), 2);
    assert_eq!(unison_count(46), 2);
    assert_eq!(unison_count(47), 3);
    assert_eq!(unison_count(60), 3);
    assert_eq!(unison_count(108), 3);
    assert!(has_damper(88));
    assert!(!has_damper(89));
    assert_eq!(struck_string_count(3, true), 2);
    assert_eq!(struck_string_count(2, true), 1);
    assert_eq!(struck_string_count(1, true), 1);
    assert_eq!(struck_string_count(3, false), 3);
}

#[test]
fn test_lid_position_from_index() {
    assert_eq!(LidPosition::from_index(0), LidPosition::Closed);
    assert_eq!(LidPosition::from_index(1), LidPosition::HalfStick);
    assert_eq!(LidPosition::from_index(2), LidPosition::FullStick);
    assert_eq!(LidPosition::from_index(3), LidPosition::Removed);
    assert_eq!(LidPosition::from_index(4), LidPosition::FullStick);
}

#[test]
fn test_fast_noise() {
    let mut zero = FastNoise::new(0);
    assert_eq!(zero.next_u32(), 270369);
    assert_eq!(zero.next_u32(), 67634689);
    let mut seeded = FastNoise::new(0x1337BEEF);
    assert_eq!(seeded.next_u32(), 2041561050);
}

#[test]
fn test_keyboard_layout() {
    assert!(is_black_key(61));
    assert!(!is_black_key(60));
    assert!(is_black_key(22));
    assert_eq!(white_keys_below(21), 0);
    assert_eq!(white_keys_below(22), 1);
    assert_eq!(white_keys_below(23), 1);
    assert_eq!(white_keys_below(60), 23);
    assert_eq!(white_keys_below(108), 51);
}

#[test]
fn test_key_masks_round_trip() {
    let keys = [21u8, 84, 85, 108, 20, 109, 60];
    let (low, high) = encode_key_masks(&keys);
    assert_eq!(low, 1u64 | (1u64 << 63) | (1u64 << 39));
    assert_eq!(high, 1u64 | (1u64 << 23));
    for k in 0..=255u8 {
        let expected = keys.contains(&k) && (21..=108).contains(&k);
        assert_eq!(is_key_active(low, high, k), expected, "key {}", k);
    }
    assert_eq!(encode_key_masks(&[]), (0, 0));
}

#[test]
fn test_qwerty_octave() {
    assert_eq!(qwerty_key_midi('A'), Some(60));
    assert_eq!(qwerty_key_midi('W'), Some(61));
    assert_eq!(qwerty_key_midi('K'), Some(72));
    assert_eq!(qwerty_key_midi('Z'), None);
    assert_eq!(qwerty_key_midi('a'), None);
}

#[test]
fn test_voice_stealing_prefers_released_keys() {
    let mut pool = VoicePool::new(2);
    assert_eq!(pool.note_on(60, &[]), None);
    assert_eq!(pool.note_on(62, &[]), None);
    // both keys held: the quietest sounding key (62) gives up its voice
    assert_eq!(pool.note_on(64, &[62, 60]), Some(62));
    assert!(pool.is_active(64) && pool.is_active(60) && !pool.is_active(62));
    pool.note_off(60);
    // 64 is quieter but held, 60 is released: 60 is stolen
    assert_eq!(pool.note_on(65, &[64, 60]), Some(60));
    assert_eq!(pool.active_keys().len(), 2);
    // re-striking a sounding key steals nothing
    assert_eq!(pool.note_on(65, &[64, 65]), None);
    assert_eq!(pool.active_keys().len(), 2);
}

#[test]
fn test_retire_quiet_and_polyphony() {
    let mut pool = VoicePool::new(16);
    for k in [60u8, 62, 64] {
        pool.note_on(k, &[]);
    }
    pool.note_off(62);
    pool.note_off(64);
    let mut events = Vec::new();
    // 60 is still held, so only 62 is retired
    pool.retire_quiet(&[60, 62], 128, &mut events);
    assert_eq!(events, vec![EngineOutEvent::NoteEnd { time: 128, key: 62 }]);
    assert!(pool.is_active(60) && pool.is_active(64) && !pool.is_active(62));
    assert!(pool.is_depressed(60) && !pool.is_depressed(64));

    let mut small = VoicePool::new(1);
    small.note_on(40, &[]);
    small.note_on(41, &[40]);
    assert_eq!(small.active_keys().len(), 1);
    small.clear();
    assert_eq!(small.active_keys().len(), 0);
    assert_eq!(small.max_active_voices(), 1);
}

#[test]
fn test_enforce_polyphony() {
    let mut pool = VoicePool::new(3);
    for k in [60u8, 61, 62] {
        pool.note_on(k, &[]);
    }
    let mut events = Vec::new();
    pool.enforce_polyphony(&[62, 61, 60], 64, &mut events);
    assert!(events.is_empty());
    let mut pool = VoicePool::new(0);
    pool.note_on(60, &[]);
    pool.note_on(61, &[60]);
    pool.enforce_polyphony(&[61], 10, &mut events);
    assert_eq!(events, vec![EngineOutEvent::NoteEnd { time: 10, key: 61 }]);
    assert_eq!(pool.active_keys().len(), 0);
}

#[test]
fn test_enforce_polyphony_steals_released_keys_first() {
    let mut pool = VoicePool::new(2);
    // an empty ranking lets the pool grow past its limit
    for k in [60u8, 61, 62, 63] {
        pool.note_on(k, &[]);
    }
    pool.note_off(63);
    let mut events = Vec::new();
    // 62 is quietest but held: the released 63 goes first, then 62
    pool.enforce_polyphony(&[62, 63, 61, 60], 256, &mut events);
    assert_eq!(
        events,
        vec![
            EngineOutEvent::NoteEnd { time: 256, key: 63 },
            EngineOutEvent::NoteEnd { time: 256, key: 62 },
        ]
    );
    assert_eq!(pool.active_keys().len(), 2);
    assert!(pool.is_active(60) && pool.is_active(61));
}

#[test]
fn test_retire_quiet_reports_each_key_once() {
    let mut pool = VoicePool::new(16);
    for k in [50u8, 52] {
        pool.note_on(k, &[]);
        pool.note_off(k);
    }
    let mut events = Vec::new();
    pool.retire_quiet(&[52, 52, 50, 52], 32, &mut events);
    assert_eq!(
        events,
        vec![
            EngineOutEvent::NoteEnd { time: 32, key: 52 },
            EngineOutEvent::NoteEnd { time: 32, key: 50 },
        ]
    );
    assert_eq!(pool.active_keys().len(), 0);
}

#[test]
fn test_pitch_name_round_trip() {
    for n in 0..=255u8 {
        assert_eq!(note_to_midi(&midi_to_pitch_name(n)), n);
    }
    assert_eq!(note_to_midi(&midi_to_pitch_name(61)), 61);
    assert_eq!(midi_to_pitch_name(61), "C#4");
}

#[test]
fn test_end_block_retires_then_steals() {
    let mut pool = VoicePool::new(2);
    for k in [60u8, 62, 64, 65] {
        pool.note_on(k, &[]);
    }
    pool.note_off(62);
    pool.note_off(65);
    let mut events = vec![EngineOutEvent::NoteEnd { time: 0, key: 1 }];
    // 62 has decayed; 65 is released, so it is stolen before the held keys
    pool.end_block(&[62], &[64, 65, 60, 62], 512, &mut events);
    assert_eq!(
        events,
        vec![
            EngineOutEvent::NoteEnd { time: 0, key: 1 },
            EngineOutEvent::NoteEnd { time: 512, key: 62 },
            EngineOutEvent::NoteEnd { time: 512, key: 65 },
        ]
    );
    assert_eq!(pool.active_keys().len(), 2);
    assert!(pool.is_active(60) && pool.is_active(64));
}

#[test]
fn test_piano_labels() {
    assert_eq!(I18n::title(Language::English), "PHYSICS PIANO");
    assert_eq!(I18n::una_corda(Language::SimplifiedChinese), "柔音踏板");
    assert_eq!(I18n::rack_output(Language::English), "OUTPUT");
}

#[test]
fn test_due_events_end() {
    let times = [0usize, 0, 5, 5, 9];
    assert_eq!(due_events_end(&times, 0, 0), 2);
    assert_eq!(due_events_end(&times, 2, 4), 2);
    assert_eq!(due_events_end(&times, 2, 5), 4);
    assert_eq!(due_events_end(&times, 4, 100), 5);
    assert_eq!(due_events_end(&times, 5, 100), 5);
    // an out-of-order later time stops dispatch at the first event not due
    let late_first = [7usize, 1];
    assert_eq!(due_events_end(&late_first, 0, 3), 0);
}

#[test]
fn test_mouse_key_step() {
    // press on C4
    assert_eq!(
        mouse_key_step(None, true, false, true, Some(60)),
        MouseKeyStep { held: Some(60), released: None, pressed: Some(60) }
    );
    // slide to D4 while held
    assert_eq!(
        mouse_key_step(Some(60), true, false, true, Some(62)),
        MouseKeyStep { held: Some(62), released: Some(60), pressed: Some(62) }
    );
    // stay on D4
    assert_eq!(
        mouse_key_step(Some(62), true, false, true, Some(62)),
        MouseKeyStep { held: Some(62), released: None, pressed: None }
    );
    // let go of the button
    assert_eq!(
        mouse_key_step(Some(62), false, true, true, Some(62)),
        MouseKeyStep { held: None, released: Some(62), pressed: None }
    );
    // leave the keyboard while pressing
    assert_eq!(
        mouse_key_step(Some(64), true, false, false, Some(64)),
        MouseKeyStep { held: None, released: Some(64), pressed: None }
    );
}

#[test]
fn test_high_mask_bits_clear() {
    let (low, high) = encode_key_masks(&[21, 84, 85, 108, 109, 200]);
    assert_eq!(low, (1u64 << 0) | (1u64 << 63));
    assert_eq!(high, (1u64 << 0) | (1u64 << 23));
    assert!(high < (1u64 << 24));
}

#[test]
fn test_pitch_class_of() {
    assert_eq!(pitch_class_of('c', None), 0);
    assert_eq!(pitch_class_of('E', Some('b')), 3);
    assert_eq!(pitch_class_of('b', Some('b')), 10);
    assert_eq!(pitch_class_of('X', None), 9);
}
