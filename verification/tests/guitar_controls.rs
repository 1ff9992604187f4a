use physics_instruments::guitar::cli::pitch_to_midi;
use physics_instruments::guitar::engine::{mpe_string_slot, release_note, GuitarInstrumentMode};
use physics_instruments::guitar::fretboard::FretboardRouter;
use physics_instruments::guitar::i18n::{I18n, Language};
use physics_instruments::guitar::params::GuitarStringSetType;
use physics_instruments::guitar::pickup::{PickupPosition, PickupType};
use physics_instruments::guitar::pluck::PluckStyle;
use physics_instruments::guitar::presets::{FactoryPreset, PresetSelectors};

#[test]
fn test_pitch_to_midi_names() {
    assert_eq!(pitch_to_midi("E2"), Some(40));
    assert_eq!(pitch_to_midi("F#3"), Some(54));
    assert_eq!(pitch_to_midi("Fs3"), Some(54));
    assert_eq!(pitch_to_midi("Bb4"), Some(70));
    assert_eq!(pitch_to_midi("  c4 \n"), Some(60));
    assert_eq!(pitch_to_midi("Cb0"), Some(11));
    assert_eq!(pitch_to_midi("G9"), Some(127));
    assert_eq!(pitch_to_midi("C4xyz"), Some(60));
}

#[test]
fn test_pitch_to_midi_rejects() {
    assert_eq!(pitch_to_midi(""), None);
    assert_eq!(pitch_to_midi("C"), None);
    assert_eq!(pitch_to_midi("H4"), None);
    assert_eq!(pitch_to_midi("Cx"), None);
    assert_eq!(pitch_to_midi("Cx4"), None);
    // a three-character name always reads its middle character as accidental
    assert_eq!(pitch_to_midi("C44"), None);
    assert_eq!(pitch_to_midi("C-1"), None);
    assert_eq!(pitch_to_midi("B9"), None);
    assert_eq!(pitch_to_midi("G#9"), None);
}

#[test]
fn test_mpe_string_slot() {
    assert_eq!(mpe_string_slot(1), None);
    assert_eq!(mpe_string_slot(2), Some(0));
    assert_eq!(mpe_string_slot(7), Some(5));
    assert_eq!(mpe_string_slot(8), None);
}

#[test]
fn test_release_note_standard_channel() {
    let mut active = [Some(64), Some(40), None, Some(64), Some(45), None];
    let released = release_note(&mut active, 1, 64);
    assert_eq!(released, [true, false, false, true, false, false]);
    assert_eq!(active, [None, Some(40), None, None, Some(45), None]);
    // releasing a note nobody plays changes nothing
    let released = release_note(&mut active, 1, 99);
    assert_eq!(released, [false; 6]);
    assert_eq!(active, [None, Some(40), None, None, Some(45), None]);
}

#[test]
fn test_release_note_mpe_channel() {
    let mut active = [Some(64), Some(40), None, Some(64), Some(45), None];
    // channel 3 is string 2, whatever note it carries
    let released = release_note(&mut active, 3, 64);
    assert_eq!(released, [false, true, false, false, false, false]);
    assert_eq!(active, [Some(64), None, None, Some(64), Some(45), None]);
}

#[test]
fn test_note_at_and_round_trip() {
    let router = FretboardRouter::new();
    assert_eq!(router.note_at(1, 0), Some(64));
    assert_eq!(router.note_at(6, 12), Some(52));
    assert_eq!(router.note_at(0, 3), None);
    assert_eq!(router.note_at(7, 3), None);
    let held = [false; 6];
    for note in 40..=88u8 {
        let loc = router.allocate_note(note, &held).unwrap();
        assert_eq!(router.note_at(loc.string_index, loc.fret), Some(note));
    }
}

#[test]
fn test_mode_and_selector_decoding() {
    assert_eq!(GuitarInstrumentMode::from_index(1), GuitarInstrumentMode::Acoustic);
    assert_eq!(GuitarInstrumentMode::from_index(0), GuitarInstrumentMode::Electric);
    assert_eq!(GuitarInstrumentMode::Electric.default_pluck_style(), PluckStyle::Plectrum);
    assert_eq!(GuitarInstrumentMode::Acoustic.default_pluck_style(), PluckStyle::FingerFlesh);
    assert_eq!(GuitarInstrumentMode::Acoustic.default_string_set(), GuitarStringSetType::Acoustic012);
    assert_eq!(GuitarInstrumentMode::Electric.default_string_set(), GuitarStringSetType::Electric010);
    assert_eq!(PickupPosition::from_index(1), PickupPosition::Middle);
    assert_eq!(PickupPosition::from_index(2), PickupPosition::Neck);
    assert_eq!(PickupPosition::from_index(7), PickupPosition::Bridge);
    assert_eq!(PickupType::from_index(1), PickupType::Humbucker);
    assert_eq!(PickupType::from_index(0), PickupType::SingleCoil);
    assert_eq!(PluckStyle::from_index(1), PluckStyle::FingerFlesh);
    assert_eq!(PluckStyle::from_index(0), PluckStyle::Plectrum);
}

#[test]
fn test_factory_presets() {
    let all = FactoryPreset::all();
    assert_eq!(all.len(), 6);
    for (i, p) in all.iter().enumerate() {
        assert_eq!(FactoryPreset::from_index(i), *p);
    }
    assert_eq!(FactoryPreset::from_index(3), FactoryPreset::TexasBluesBreakup);
    assert_eq!(FactoryPreset::from_index(99), FactoryPreset::MartinD28Fingerstyle);
    assert_eq!(FactoryPreset::HeavyMetalChug.name(Language::English), "Heavy Metal Chug");
    assert_eq!(FactoryPreset::StratCleanChime.name(Language::SimplifiedChinese), "芬达单线圈铃音清音");
}

#[test]
fn test_guitar_labels() {
    assert_eq!(I18n::title(Language::English), "PHYSICS GUITAR");
    assert_eq!(I18n::title(Language::SimplifiedChinese), "物理建模吉他");
    assert_eq!(I18n::cab_enabled(Language::English), "12\" Celestion Cab");
    assert_eq!(I18n::pickup_bn(Language::SimplifiedChinese), "桥+颈");
    assert_eq!(I18n::fretboard_hint(Language::English), "Interactive 6-String Fretboard (Click or Drag frets to play):");
}

#[test]
fn test_language_from_locale_vars() {
    assert_eq!(Language::from_locale_vars(Some("zh_CN.UTF-8"), None), Language::SimplifiedChinese);
    assert_eq!(Language::from_locale_vars(Some("en_US.UTF-8"), Some("zh_TW")), Language::SimplifiedChinese);
    assert_eq!(Language::from_locale_vars(Some("en_US.UTF-8"), None), Language::English);
    assert_eq!(Language::from_locale_vars(None, None), Language::English);
    assert_eq!(Language::from_locale_vars(Some("z_h"), Some("h")), Language::English);
}

#[test]
fn test_preset_selectors() {
    assert_eq!(
        FactoryPreset::HeavyMetalChug.selectors(),
        PresetSelectors { mode: 0, pluck_style: 0, pickup_pos: 0, pickup_type: 1, cab_enabled: true, groove_pattern: 4 }
    );
    assert_eq!(
        FactoryPreset::MartinD28Fingerstyle.selectors(),
        PresetSelectors { mode: 1, pluck_style: 1, pickup_pos: 0, pickup_type: 0, cab_enabled: false, groove_pattern: 0 }
    );
    assert_eq!(FactoryPreset::StratCleanChime.selectors().pickup_pos, 4);
    assert_eq!(FactoryPreset::DreadnoughtStrummer.selectors().groove_pattern, 1);
    assert_eq!(FactoryPreset::LesPaulWarmJazz.selectors().pickup_type, 1);
    assert_eq!(FactoryPreset::TexasBluesBreakup.selectors().pickup_pos, 2);
}
