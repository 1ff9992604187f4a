//! Interface labels of the guitar in English and Simplified Chinese.
use vstd::prelude::*;
use crate::text::contains_zh;

verus! {

#[derive(Debug, Clone, Copy, PartialEq, Eq, Structural)]
pub enum Language {
    English,
    SimplifiedChinese,
}

impl Language {
    /// The interface language for the locale variables `LANG` and `LC_ALL`
    /// (`None` where a variable is unset or unreadable): Simplified Chinese when
    /// either value contains "zh", English otherwise.
    pub fn from_locale_vars(lang: Option<&str>, lc_all: Option<&str>) -> (r: Self)
        ensures
            r == Language::SimplifiedChinese <==> (lang matches Some(l) && crate::text::has_zh(l@))
                || (lc_all matches Some(l) && crate::text::has_zh(l@)),
    {
        let is_chinese = match lang {
            Some(l) => contains_zh(l),
            None => false,
        } || match lc_all {
            Some(l) => contains_zh(l),
            None => false,
        };
        if is_chinese {
            Language::SimplifiedChinese
        } else {
            Language::English
        }
    }
}

/// Interface labels in English and Simplified Chinese.
pub struct I18n;

impl I18n {
    pub fn title(lang: Language) -> (r: &'static str)
        ensures
            lang == Language::English ==> r@ == "PHYSICS GUITAR"@,
            lang == Language::SimplifiedChinese ==> r@ == "物理建模吉他"@,
    {
        match lang {
            Language::English => "PHYSICS GUITAR",
            Language::SimplifiedChinese => "物理建模吉他",
        }
    }

    pub fn subtitle(lang: Language) -> (r: &'static str)
        ensures
            lang == Language::English ==> r@ == "FIRST-PRINCIPLES PHYSICAL MODELING VIRTUAL INSTRUMENT"@,
            lang == Language::SimplifiedChinese ==> r@ == "第一性原理物理声学建模虚拟吉他乐器"@,
    {
        match lang {
            Language::English => "FIRST-PRINCIPLES PHYSICAL MODELING VIRTUAL INSTRUMENT",
            Language::SimplifiedChinese => "第一性原理物理声学建模虚拟吉他乐器",
        }
    }

    pub fn rack_instrument(lang: Language) -> (r: &'static str)
        ensures
            lang == Language::English ==> r@ == "INSTRUMENT"@,
            lang == Language::SimplifiedChinese ==> r@ == "乐器模式"@,
    {
        match lang {
            Language::English => "INSTRUMENT",
            Language::SimplifiedChinese => "乐器模式",
        }
    }

    pub fn mode_electric(lang: Language) -> (r: &'static str)
        ensures
            lang == Language::English ==> r@ == "Electric Guitar"@,
            lang == Language::SimplifiedChinese ==> r@ == "电吉他"@,
    {
        match lang {
            Language::English => "Electric Guitar",
            Language::SimplifiedChinese => "电吉他",
        }
    }

    pub fn mode_acoustic(lang: Language) -> (r: &'static str)
        ensures
            lang == Language::English ==> r@ == "Acoustic Guitar"@,
            lang == Language::SimplifiedChinese ==> r@ == "原声木吉他"@,
    {
        match lang {
            Language::English => "Acoustic Guitar",
            Language::SimplifiedChinese => "原声木吉他",
        }
    }

    pub fn rack_pickup(lang: Language) -> (r: &'static str)
        ensures
            lang == Language::English ==> r@ == "PICKUP SELECTOR"@,
            lang == Language::SimplifiedChinese ==> r@ == "拾音器选择"@,
    {
        match lang {
            Language::English => "PICKUP SELECTOR",
            Language::SimplifiedChinese => "拾音器选择",
        }
    }

    pub fn pickup_pos(lang: Language) -> (r: &'static str)
        ensures
            lang == Language::English ==> r@ == "Position:"@,
            lang == Language::SimplifiedChinese ==> r@ == "拾音位置:"@,
    {
        match lang {
            Language::English => "Position:",
            Language::SimplifiedChinese => "拾音位置:",
        }
    }

    pub fn pickup_bridge(lang: Language) -> (r: &'static str)
        ensures
            lang == Language::English ==> r@ == "Bridge"@,
            lang == Language::SimplifiedChinese ==> r@ == "琴桥"@,
    {
        match lang {
            Language::English => "Bridge",
            Language::SimplifiedChinese => "琴桥",
        }
    }

    pub fn pickup_mid(lang: Language) -> (r: &'static str)
        ensures
            lang == Language::English ==> r@ == "Mid"@,
            lang == Language::SimplifiedChinese ==> r@ == "中间"@,
    {
        match lang {
            Language::English => "Mid",
            Language::SimplifiedChinese => "中间",
        }
    }

    pub fn pickup_neck(lang: Language) -> (r: &'static str)
        ensures
            lang == Language::English ==> r@ == "Neck"@,
            lang == Language::SimplifiedChinese ==> r@ == "琴颈"@,
    {
        match lang {
            Language::English => "Neck",
            Language::SimplifiedChinese => "琴颈",
        }
    }

    pub fn pickup_type(lang: Language) -> (r: &'static str)
        ensures
            lang == Language::English ==> r@ == "Type:"@,
            lang == Language::SimplifiedChinese ==> r@ == "拾音结构:"@,
    {
        match lang {
            Language::English => "Type:",
            Language::SimplifiedChinese => "拾音结构:",
        }
    }

    pub fn pickup_single(lang: Language) -> (r: &'static str)
        ensures
            lang == Language::English ==> r@ == "Single"@,
            lang == Language::SimplifiedChinese ==> r@ == "单线圈"@,
    {
        match lang {
            Language::English => "Single",
            Language::SimplifiedChinese => "单线圈",
        }
    }

    pub fn pickup_humbucker(lang: Language) -> (r: &'static str)
        ensures
            lang == Language::English ==> r@ == "Humbucker"@,
            lang == Language::SimplifiedChinese ==> r@ == "双线圈"@,
    {
        match lang {
            Language::English => "Humbucker",
            Language::SimplifiedChinese => "双线圈",
        }
    }

    pub fn rack_pluck(lang: Language) -> (r: &'static str)
        ensures
            lang == Language::English ==> r@ == "PLUCK & TONE"@,
            lang == Language::SimplifiedChinese ==> r@ == "拨弦与音色"@,
    {
        match lang {
            Language::English => "PLUCK & TONE",
            Language::SimplifiedChinese => "拨弦与音色",
        }
    }

    pub fn pluck_style(lang: Language) -> (r: &'static str)
        ensures
            lang == Language::English ==> r@ == "Pluck Style:"@,
            lang == Language::SimplifiedChinese ==> r@ == "拨弦方式:"@,
    {
        match lang {
            Language::English => "Pluck Style:",
            Language::SimplifiedChinese => "拨弦方式:",
        }
    }

    pub fn pluck_plectrum(lang: Language) -> (r: &'static str)
        ensures
            lang == Language::English ==> r@ == "Plectrum"@,
            lang == Language::SimplifiedChinese ==> r@ == "拨片"@,
    {
        match lang {
            Language::English => "Plectrum",
            Language::SimplifiedChinese => "拨片",
        }
    }

    pub fn pluck_finger(lang: Language) -> (r: &'static str)
        ensures
            lang == Language::English ==> r@ == "Finger"@,
            lang == Language::SimplifiedChinese ==> r@ == "指弹"@,
    {
        match lang {
            Language::English => "Finger",
            Language::SimplifiedChinese => "指弹",
        }
    }

    pub fn palm_mute(lang: Language) -> (r: &'static str)
        ensures
            lang == Language::English ==> r@ == "Palm Mute:"@,
            lang == Language::SimplifiedChinese ==> r@ == "手掌弱音 (制音):"@,
    {
        match lang {
            Language::English => "Palm Mute:",
            Language::SimplifiedChinese => "手掌弱音 (制音):",
        }
    }

    pub fn rack_output(lang: Language) -> (r: &'static str)
        ensures
            lang == Language::English ==> r@ == "MASTER OUTPUT"@,
            lang == Language::SimplifiedChinese ==> r@ == "总输出"@,
    {
        match lang {
            Language::English => "MASTER OUTPUT",
            Language::SimplifiedChinese => "总输出",
        }
    }

    pub fn master_gain(lang: Language) -> (r: &'static str)
        ensures
            lang == Language::English ==> r@ == "Master Gain:"@,
            lang == Language::SimplifiedChinese ==> r@ == "主输出增益:"@,
    {
        match lang {
            Language::English => "Master Gain:",
            Language::SimplifiedChinese => "主输出增益:",
        }
    }

    pub fn pluck_pos(lang: Language) -> (r: &'static str)
        ensures
            lang == Language::English ==> r@ == "Pluck Position:"@,
            lang == Language::SimplifiedChinese ==> r@ == "拨弦位置:"@,
    {
        match lang {
            Language::English => "Pluck Position:",
            Language::SimplifiedChinese => "拨弦位置:",
        }
    }

    pub fn pickup_bn(lang: Language) -> (r: &'static str)
        ensures
            lang == Language::English ==> r@ == "B+N"@,
            lang == Language::SimplifiedChinese ==> r@ == "桥+颈"@,
    {
        match lang {
            Language::English => "B+N",
            Language::SimplifiedChinese => "桥+颈",
        }
    }

    pub fn pickup_bm(lang: Language) -> (r: &'static str)
        ensures
            lang == Language::English ==> r@ == "B+M"@,
            lang == Language::SimplifiedChinese ==> r@ == "桥+中"@,
    {
        match lang {
            Language::English => "B+M",
            Language::SimplifiedChinese => "桥+中",
        }
    }

    pub fn tone_knob(lang: Language) -> (r: &'static str)
        ensures
            lang == Language::English ==> r@ == "Passive Tone:"@,
            lang == Language::SimplifiedChinese ==> r@ == "被动音色旋钮:"@,
    {
        match lang {
            Language::English => "Passive Tone:",
            Language::SimplifiedChinese => "被动音色旋钮:",
        }
    }

    pub fn rack_amp(lang: Language) -> (r: &'static str)
        ensures
            lang == Language::English ==> r@ == "AMP & CABINET"@,
            lang == Language::SimplifiedChinese ==> r@ == "电子管音箱与箱体"@,
    {
        match lang {
            Language::English => "AMP & CABINET",
            Language::SimplifiedChinese => "电子管音箱与箱体",
        }
    }

    pub fn amp_drive(lang: Language) -> (r: &'static str)
        ensures
            lang == Language::English ==> r@ == "12AX7 Tube Drive:"@,
            lang == Language::SimplifiedChinese ==> r@ == "12AX7 前级增益:"@,
    {
        match lang {
            Language::English => "12AX7 Tube Drive:",
            Language::SimplifiedChinese => "12AX7 前级增益:",
        }
    }

    pub fn cab_enabled(lang: Language) -> (r: &'static str)
        ensures
            lang == Language::English ==> r@ == "12\" Celestion Cab"@,
            lang == Language::SimplifiedChinese ==> r@ == "12寸箱体模拟"@,
    {
        match lang {
            Language::English => "12\" Celestion Cab",
            Language::SimplifiedChinese => "12寸箱体模拟",
        }
    }

    pub fn rack_strum(lang: Language) -> (r: &'static str)
        ensures
            lang == Language::English ==> r@ == "STRUM & ACTION"@,
            lang == Language::SimplifiedChinese ==> r@ == "智能扫弦与手感"@,
    {
        match lang {
            Language::English => "STRUM & ACTION",
            Language::SimplifiedChinese => "智能扫弦与手感",
        }
    }

    pub fn strum_speed(lang: Language) -> (r: &'static str)
        ensures
            lang == Language::English ==> r@ == "Strum Speed:"@,
            lang == Language::SimplifiedChinese ==> r@ == "扫弦时差 (毫秒):"@,
    {
        match lang {
            Language::English => "Strum Speed:",
            Language::SimplifiedChinese => "扫弦时差 (毫秒):",
        }
    }

    pub fn fret_buzz(lang: Language) -> (r: &'static str)
        ensures
            lang == Language::English ==> r@ == "Fret Clatter / Buzz:"@,
            lang == Language::SimplifiedChinese ==> r@ == "品丝碰撞打品度:"@,
    {
        match lang {
            Language::English => "Fret Clatter / Buzz:",
            Language::SimplifiedChinese => "品丝碰撞打品度:",
        }
    }

    pub fn fretboard_hint(lang: Language) -> (r: &'static str)
        ensures
            lang == Language::English ==> r@ == "Interactive 6-String Fretboard (Click or Drag frets to play):"@,
            lang == Language::SimplifiedChinese ==> r@ == "6弦交互式物理指板 (鼠标点击或拖拽品位弹奏):"@,
    {
        match lang {
            Language::English => "Interactive 6-String Fretboard (Click or Drag frets to play):",
            Language::SimplifiedChinese => "6弦交互式物理指板 (鼠标点击或拖拽品位弹奏):",
        }
    }
}

} // verus!
