//! Interface labels of the piano in English and Simplified Chinese.
use vstd::prelude::*;
use crate::text::contains_zh;

verus! {

#[derive(Debug, Clone, Copy, PartialEq, Eq, Structural)]
pub enum Language {
    English,
    SimplifiedChinese,
}

impl Language {
    /// The interface language for the locale variables `LANG` and `LC_ALL`
    /// (`None` where a variable is unset or unreadable): Simplified Chinese when
    /// either value contains "zh", English otherwise.
    pub fn from_locale_vars(lang: Option<&str>, lc_all: Option<&str>) -> (r: Self)
        ensures
            r == Language::SimplifiedChinese <==> (lang matches Some(l) && crate::text::has_zh(l@))
                || (lc_all matches Some(l) && crate::text::has_zh(l@)),
    {
        let is_chinese = match lang {
            Some(l) => contains_zh(l),
            None => false,
        } || match lc_all {
            Some(l) => contains_zh(l),
            None => false,
        };
        if is_chinese {
            Language::SimplifiedChinese
        } else {
            Language::English
        }
    }
}

/// Interface labels in English and Simplified Chinese.
pub struct I18n;

impl I18n {
    pub fn title(lang: Language) -> (r: &'static str)
        ensures
            lang == Language::English ==> r@ == "PHYSICS PIANO"@,
            lang == Language::SimplifiedChinese ==> r@ == "物理建模钢琴"@,
    {
        match lang {
            Language::English => "PHYSICS PIANO",
            Language::SimplifiedChinese => "物理建模钢琴",
        }
    }

    pub fn subtitle(lang: Language) -> (r: &'static str)
        ensures
            lang == Language::English ==> r@ == "Acoustic Grand Physical Modeling Synthesizer (Rust Engine)"@,
            lang == Language::SimplifiedChinese ==> r@ == "三角钢琴原生物理声学合成器 (Rust Engine)"@,
    {
        match lang {
            Language::English => "Acoustic Grand Physical Modeling Synthesizer (Rust Engine)",
            Language::SimplifiedChinese => "三角钢琴原生物理声学合成器 (Rust Engine)",
        }
    }

    pub fn rack_pedals(lang: Language) -> (r: &'static str)
        ensures
            lang == Language::English ==> r@ == "PEDALS & MECHANICS"@,
            lang == Language::SimplifiedChinese ==> r@ == "踏板与微观机械"@,
    {
        match lang {
            Language::English => "PEDALS & MECHANICS",
            Language::SimplifiedChinese => "踏板与微观机械",
        }
    }

    pub fn sustain(lang: Language) -> (r: &'static str)
        ensures
            lang == Language::English ==> r@ == "Sustain:"@,
            lang == Language::SimplifiedChinese ==> r@ == "延音踏板:"@,
    {
        match lang {
            Language::English => "Sustain:",
            Language::SimplifiedChinese => "延音踏板:",
        }
    }

    pub fn una_corda(lang: Language) -> (r: &'static str)
        ensures
            lang == Language::English ==> r@ == "Una Corda"@,
            lang == Language::SimplifiedChinese ==> r@ == "柔音踏板"@,
    {
        match lang {
            Language::English => "Una Corda",
            Language::SimplifiedChinese => "柔音踏板",
        }
    }

    pub fn key_action(lang: Language) -> (r: &'static str)
        ensures
            lang == Language::English ==> r@ == "Key Action:"@,
            lang == Language::SimplifiedChinese ==> r@ == "琴键撞击:"@,
    {
        match lang {
            Language::English => "Key Action:",
            Language::SimplifiedChinese => "琴键撞击:",
        }
    }

    pub fn damper_noise(lang: Language) -> (r: &'static str)
        ensures
            lang == Language::English ==> r@ == "Damper Noise:"@,
            lang == Language::SimplifiedChinese ==> r@ == "制音器摩擦:"@,
    {
        match lang {
            Language::English => "Damper Noise:",
            Language::SimplifiedChinese => "制音器摩擦:",
        }
    }

    pub fn pedal_shock(lang: Language) -> (r: &'static str)
        ensures
            lang == Language::English ==> r@ == "Pedal Shock:"@,
            lang == Language::SimplifiedChinese ==> r@ == "铸铁板冲击:"@,
    {
        match lang {
            Language::English => "Pedal Shock:",
            Language::SimplifiedChinese => "铸铁板冲击:",
        }
    }

    pub fn rack_string(lang: Language) -> (r: &'static str)
        ensures
            lang == Language::English ==> r@ == "STRING & HAMMER"@,
            lang == Language::SimplifiedChinese ==> r@ == "琴弦与琴槌物理"@,
    {
        match lang {
            Language::English => "STRING & HAMMER",
            Language::SimplifiedChinese => "琴弦与琴槌物理",
        }
    }

    pub fn inharmonicity(lang: Language) -> (r: &'static str)
        ensures
            lang == Language::English ==> r@ == "Inharmonicity B:"@,
            lang == Language::SimplifiedChinese ==> r@ == "非谐波度 B:"@,
    {
        match lang {
            Language::English => "Inharmonicity B:",
            Language::SimplifiedChinese => "非谐波度 B:",
        }
    }

    pub fn hammer_hardness(lang: Language) -> (r: &'static str)
        ensures
            lang == Language::English ==> r@ == "Hammer Hardness:"@,
            lang == Language::SimplifiedChinese ==> r@ == "琴槌硬度:"@,
    {
        match lang {
            Language::English => "Hammer Hardness:",
            Language::SimplifiedChinese => "琴槌硬度:",
        }
    }

    pub fn unison_detune(lang: Language) -> (r: &'static str)
        ensures
            lang == Language::English ==> r@ == "Unison Detune:"@,
            lang == Language::SimplifiedChinese ==> r@ == "同音弦微调:"@,
    {
        match lang {
            Language::English => "Unison Detune:",
            Language::SimplifiedChinese => "同音弦微调:",
        }
    }

    pub fn phantom_partials(lang: Language) -> (r: &'static str)
        ensures
            lang == Language::English ==> r@ == "Phantom Partials:"@,
            lang == Language::SimplifiedChinese ==> r@ == "幻象泛音:"@,
    {
        match lang {
            Language::English => "Phantom Partials:",
            Language::SimplifiedChinese => "幻象泛音:",
        }
    }

    pub fn rack_spatial(lang: Language) -> (r: &'static str)
        ensures
            lang == Language::English ==> r@ == "SPATIAL MICS & LID"@,
            lang == Language::SimplifiedChinese ==> r@ == "多拾音麦位与琴盖"@,
    {
        match lang {
            Language::English => "SPATIAL MICS & LID",
            Language::SimplifiedChinese => "多拾音麦位与琴盖",
        }
    }

    pub fn mic_close(lang: Language) -> (r: &'static str)
        ensures
            lang == Language::English ==> r@ == "Close Mic:"@,
            lang == Language::SimplifiedChinese ==> r@ == "近场麦位:"@,
    {
        match lang {
            Language::English => "Close Mic:",
            Language::SimplifiedChinese => "近场麦位:",
        }
    }

    pub fn mic_player(lang: Language) -> (r: &'static str)
        ensures
            lang == Language::English ==> r@ == "Player Mic:"@,
            lang == Language::SimplifiedChinese ==> r@ == "演奏者麦位:"@,
    {
        match lang {
            Language::English => "Player Mic:",
            Language::SimplifiedChinese => "演奏者麦位:",
        }
    }

    pub fn mic_ambient(lang: Language) -> (r: &'static str)
        ensures
            lang == Language::English ==> r@ == "Ambient Mic:"@,
            lang == Language::SimplifiedChinese ==> r@ == "环境空间麦:"@,
    {
        match lang {
            Language::English => "Ambient Mic:",
            Language::SimplifiedChinese => "环境空间麦:",
        }
    }

    pub fn lid_angle(lang: Language) -> (r: &'static str)
        ensures
            lang == Language::English ==> r@ == "Lid Angle:"@,
            lang == Language::SimplifiedChinese ==> r@ == "琴盖角度:"@,
    {
        match lang {
            Language::English => "Lid Angle:",
            Language::SimplifiedChinese => "琴盖角度:",
        }
    }

    pub fn rack_output(lang: Language) -> (r: &'static str)
        ensures
            lang == Language::English ==> r@ == "OUTPUT"@,
            lang == Language::SimplifiedChinese ==> r@ == "总输出"@,
    {
        match lang {
            Language::English => "OUTPUT",
            Language::SimplifiedChinese => "总输出",
        }
    }

    pub fn master_gain(lang: Language) -> (r: &'static str)
        ensures
            lang == Language::English ==> r@ == "Master Gain:"@,
            lang == Language::SimplifiedChinese ==> r@ == "主输出增益:"@,
    {
        match lang {
            Language::English => "Master Gain:",
            Language::SimplifiedChinese => "主输出增益:",
        }
    }

    pub fn keyboard_hint(lang: Language) -> (r: &'static str)
        ensures
            lang == Language::English ==> r@ == "Virtual 88-Key Keyboard (A0-C8) | Play via mouse or QWERTY keys (Z-M / Q-U)"@,
            lang == Language::SimplifiedChinese ==> r@ == "88键虚拟物理键盘 (A0-C8) | 支持鼠标点击或电脑键盘弹奏 (Z-M / Q-U)"@,
    {
        match lang {
            Language::English => "Virtual 88-Key Keyboard (A0-C8) | Play via mouse or QWERTY keys (Z-M / Q-U)",
            Language::SimplifiedChinese => "88键虚拟物理键盘 (A0-C8) | 支持鼠标点击或电脑键盘弹奏 (Z-M / Q-U)",
        }
    }
}

} // verus!
