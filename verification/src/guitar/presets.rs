//! Factory presets of the guitar: signature acoustic and electric tones
//! modelled after iconic instruments, amps, and playing styles.
use vstd::prelude::*;
use crate::guitar::i18n::Language;

verus! {

#[derive(Debug, Clone, Copy, PartialEq, Eq, Structural)]
pub enum FactoryPreset {
    MartinD28Fingerstyle,
    DreadnoughtStrummer,
    StratCleanChime,
    TexasBluesBreakup,
    LesPaulWarmJazz,
    HeavyMetalChug,
}

/// The selector settings of a factory preset, as the plugin's selectors
/// number them.
#[derive(Debug, Clone, Copy, PartialEq, Eq, Structural)]
pub struct PresetSelectors {
    /// 0 = Electric, 1 = Acoustic
    pub mode: i32,
    /// 0 = Plectrum, 1 = Finger
    pub pluck_style: i32,
    /// 0 = Bridge, 1 = Mid, 2 = Neck, 3 = Bridge + Neck, 4 = Bridge + Mid
    pub pickup_pos: i32,
    /// 0 = Single coil, 1 = Humbucker
    pub pickup_type: i32,
    /// Speaker cabinet simulation on
    pub cab_enabled: bool,
    /// 0 = Off, 1 = Folk, 2 = Ballad, 3 = Funk, 4 = Rock
    pub groove_pattern: i32,
}

pub open spec fn selectors(mode: i32, pluck_style: i32, pickup_pos: i32, pickup_type: i32, cab_enabled: bool, groove_pattern: i32) -> PresetSelectors {
    PresetSelectors { mode, pluck_style, pickup_pos, pickup_type, cab_enabled, groove_pattern }
}

impl FactoryPreset {
    /// The presets in menu order.
    pub open spec fn spec_all() -> Seq<FactoryPreset> {
        seq![FactoryPreset::MartinD28Fingerstyle, FactoryPreset::DreadnoughtStrummer, FactoryPreset::StratCleanChime, FactoryPreset::TexasBluesBreakup, FactoryPreset::LesPaulWarmJazz, FactoryPreset::HeavyMetalChug]
    }

    pub fn all() -> (r: &'static [FactoryPreset])
        ensures
            r@ == Self::spec_all(),
    {
        let r: &'static [FactoryPreset] = &[
            FactoryPreset::MartinD28Fingerstyle,
            FactoryPreset::DreadnoughtStrummer,
            FactoryPreset::StratCleanChime,
            FactoryPreset::TexasBluesBreakup,
            FactoryPreset::LesPaulWarmJazz,
            FactoryPreset::HeavyMetalChug,
        ];
        assert(r@ =~= Self::spec_all());
        r
    }

    pub open spec fn spec_from_index(idx: usize) -> FactoryPreset {
        if 1 <= idx < 6 { Self::spec_all()[idx as int] } else { FactoryPreset::MartinD28Fingerstyle }
    }

    /// Preset at a menu index; out-of-range indices give the first preset.
    pub fn from_index(idx: usize) -> (r: Self)
        ensures
            r == Self::spec_from_index(idx),
    {
        match idx {
            1 => FactoryPreset::DreadnoughtStrummer,
            2 => FactoryPreset::StratCleanChime,
            3 => FactoryPreset::TexasBluesBreakup,
            4 => FactoryPreset::LesPaulWarmJazz,
            5 => FactoryPreset::HeavyMetalChug,
            _ => FactoryPreset::MartinD28Fingerstyle,
        }
    }

    pub open spec fn spec_name(self, lang: Language) -> Seq<char> {
        match self {
            FactoryPreset::MartinD28Fingerstyle => match lang {
                Language::English => "Martin D-28 Fingerstyle"@,
                Language::SimplifiedChinese => "马丁 D-28 指弹原声"@,
            },
            FactoryPreset::DreadnoughtStrummer => match lang {
                Language::English => "Dreadnought Strummer"@,
                Language::SimplifiedChinese => "D型琴扫弦伴奏"@,
            },
            FactoryPreset::StratCleanChime => match lang {
                Language::English => "Strat Clean Chime"@,
                Language::SimplifiedChinese => "芬达单线圈铃音清音"@,
            },
            FactoryPreset::TexasBluesBreakup => match lang {
                Language::English => "Texas Blues Breakup"@,
                Language::SimplifiedChinese => "德州布鲁斯微过载"@,
            },
            FactoryPreset::LesPaulWarmJazz => match lang {
                Language::English => "Les Paul Warm Jazz"@,
                Language::SimplifiedChinese => "LP 温暖爵士双线圈"@,
            },
            FactoryPreset::HeavyMetalChug => match lang {
                Language::English => "Heavy Metal Chug"@,
                Language::SimplifiedChinese => "重金属紧实闷音切弦"@,
            },
        }
    }

    /// Display name of the preset in the given language.
    pub fn name(&self, lang: Language) -> (r: &'static str)
        ensures
            r@ == self.spec_name(lang),
    {
        match self {
            FactoryPreset::MartinD28Fingerstyle => match lang {
                Language::English => "Martin D-28 Fingerstyle",
                Language::SimplifiedChinese => "马丁 D-28 指弹原声",
            },
            FactoryPreset::DreadnoughtStrummer => match lang {
                Language::English => "Dreadnought Strummer",
                Language::SimplifiedChinese => "D型琴扫弦伴奏",
            },
            FactoryPreset::StratCleanChime => match lang {
                Language::English => "Strat Clean Chime",
                Language::SimplifiedChinese => "芬达单线圈铃音清音",
            },
            FactoryPreset::TexasBluesBreakup => match lang {
                Language::English => "Texas Blues Breakup",
                Language::SimplifiedChinese => "德州布鲁斯微过载",
            },
            FactoryPreset::LesPaulWarmJazz => match lang {
                Language::English => "Les Paul Warm Jazz",
                Language::SimplifiedChinese => "LP 温暖爵士双线圈",
            },
            FactoryPreset::HeavyMetalChug => match lang {
                Language::English => "Heavy Metal Chug",
                Language::SimplifiedChinese => "重金属紧实闷音切弦",
            },
        }
    }

    pub open spec fn spec_selectors(self) -> PresetSelectors {
        match self {
            FactoryPreset::MartinD28Fingerstyle => selectors(1, 1, 0, 0, false, 0),
            FactoryPreset::DreadnoughtStrummer => selectors(1, 0, 0, 0, false, 1),
            FactoryPreset::StratCleanChime => selectors(0, 0, 4, 0, true, 0),
            FactoryPreset::TexasBluesBreakup => selectors(0, 1, 2, 0, true, 0),
            FactoryPreset::LesPaulWarmJazz => selectors(0, 1, 2, 1, true, 0),
            FactoryPreset::HeavyMetalChug => selectors(0, 0, 0, 1, true, 4),
        }
    }

    /// Instrument mode, pluck style, pickup position and type, cabinet and
    /// groove pattern of the preset.
    pub fn selectors(self) -> (r: PresetSelectors)
        ensures
            r == self.spec_selectors(),
    {
        match self {
            FactoryPreset::MartinD28Fingerstyle => PresetSelectors {
                mode: 1,  // Acoustic
                pluck_style: 1,  // Finger
                pickup_pos: 0,
                pickup_type: 0,
                cab_enabled: false,
                groove_pattern: 0,
            },
            FactoryPreset::DreadnoughtStrummer => PresetSelectors {
                mode: 1,  // Acoustic
                pluck_style: 0,  // Plectrum
                pickup_pos: 0,
                pickup_type: 0,
                cab_enabled: false,
                groove_pattern: 1,  // Folk 4/4 Basic
            },
            FactoryPreset::StratCleanChime => PresetSelectors {
                mode: 0,  // Electric
                pluck_style: 0,  // Plectrum
                pickup_pos: 4,  // Bridge + Middle
                pickup_type: 0,  // Single Coil
                cab_enabled: true,
                groove_pattern: 0,
            },
            FactoryPreset::TexasBluesBreakup => PresetSelectors {
                mode: 0,  // Electric
                pluck_style: 1,  // Finger
                pickup_pos: 2,  // Neck
                pickup_type: 0,  // Single Coil
                cab_enabled: true,
                groove_pattern: 0,
            },
            FactoryPreset::LesPaulWarmJazz => PresetSelectors {
                mode: 0,  // Electric
                pluck_style: 1,  // Finger
                pickup_pos: 2,  // Neck
                pickup_type: 1,  // Humbucker
                cab_enabled: true,
                groove_pattern: 0,
            },
            FactoryPreset::HeavyMetalChug => PresetSelectors {
                mode: 0,  // Electric
                pluck_style: 0,  // Plectrum
                pickup_pos: 0,  // Bridge
                pickup_type: 1,  // Humbucker
                cab_enabled: true,
                groove_pattern: 4,  // Rock 8th Chug
            },
        }
    }
}

/// The preset table: what each factory preset selects. The two acoustic
/// presets (Martin D-28 Fingerstyle, Dreadnought Strummer) load the acoustic
/// guitar (mode 1) without the speaker cabinet; the four electric presets
/// load the electric guitar (mode 0) through the cabinet.
pub proof fn lemma_preset_table(p: FactoryPreset)
    ensures
        FactoryPreset::MartinD28Fingerstyle.spec_selectors() == (PresetSelectors {
            mode: 1, pluck_style: 1, pickup_pos: 0, pickup_type: 0, cab_enabled: false, groove_pattern: 0,
        }),
        FactoryPreset::DreadnoughtStrummer.spec_selectors() == (PresetSelectors {
            mode: 1, pluck_style: 0, pickup_pos: 0, pickup_type: 0, cab_enabled: false, groove_pattern: 1,
        }),
        FactoryPreset::StratCleanChime.spec_selectors() == (PresetSelectors {
            mode: 0, pluck_style: 0, pickup_pos: 4, pickup_type: 0, cab_enabled: true, groove_pattern: 0,
        }),
        FactoryPreset::TexasBluesBreakup.spec_selectors() == (PresetSelectors {
            mode: 0, pluck_style: 1, pickup_pos: 2, pickup_type: 0, cab_enabled: true, groove_pattern: 0,
        }),
        FactoryPreset::LesPaulWarmJazz.spec_selectors() == (PresetSelectors {
            mode: 0, pluck_style: 1, pickup_pos: 2, pickup_type: 1, cab_enabled: true, groove_pattern: 0,
        }),
        FactoryPreset::HeavyMetalChug.spec_selectors() == (PresetSelectors {
            mode: 0, pluck_style: 0, pickup_pos: 0, pickup_type: 1, cab_enabled: true, groove_pattern: 4,
        }),
        (p.spec_selectors().mode == 1) <==> (p == FactoryPreset::MartinD28Fingerstyle || p == FactoryPreset::DreadnoughtStrummer),
        p.spec_selectors().mode == 0 || p.spec_selectors().mode == 1,
        p.spec_selectors().cab_enabled <==> p.spec_selectors().mode == 0,
{
}

/// The menu lists the presets in the order Martin D-28 Fingerstyle,
/// Dreadnought Strummer, Strat Clean Chime, Texas Blues Breakup, Les Paul
/// Warm Jazz, Heavy Metal Chug; an index past the end selects the first.
pub proof fn lemma_preset_menu(idx: usize)
    ensures
        FactoryPreset::spec_from_index(0) == FactoryPreset::MartinD28Fingerstyle,
        FactoryPreset::spec_from_index(1) == FactoryPreset::DreadnoughtStrummer,
        FactoryPreset::spec_from_index(2) == FactoryPreset::StratCleanChime,
        FactoryPreset::spec_from_index(3) == FactoryPreset::TexasBluesBreakup,
        FactoryPreset::spec_from_index(4) == FactoryPreset::LesPaulWarmJazz,
        FactoryPreset::spec_from_index(5) == FactoryPreset::HeavyMetalChug,
        idx >= 6 ==> FactoryPreset::spec_from_index(idx) == FactoryPreset::MartinD28Fingerstyle,
        FactoryPreset::spec_all().len() == 6,
{
}

/// Every preset sits at its own menu index: `from_index` of a preset's
/// position in `all` gives that preset back.
pub proof fn lemma_index_round_trip(idx: usize)
    requires
        idx < 6,
    ensures
        FactoryPreset::spec_from_index(idx) == FactoryPreset::spec_all()[idx as int],
{
}

} // verus!
