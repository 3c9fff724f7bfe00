//! Input modes as the Windows 11 taskbar shows them, and the text that the
//! overlay draws for each.
//!
//! The taskbar draws the mode with a glyph of the "Segoe Fluent Icons" font,
//! one private-use character per mode. A keyboard layout without an IME is
//! shown there as plain text instead, such as "ENG".
use vstd::prelude::*;
use crate::common::TextFormat;

verus! {

// Japanese
pub const FULL_HIRAGANA: &'static str = "\u{e986}";
pub const FULL_KATAKANA: &'static str = "\u{e987}";
pub const HALF_KATAKANA: &'static str = "\u{e988}";

// Alphanumeric
pub const HALF_ALPHA: &'static str = "\u{e97e}";
pub const FULL_ALPHA: &'static str = "\u{e97f}";

// Korean
pub const KOREAN: &'static str = "\u{e97d}";
pub const KEY_12_ON: &'static str = "\u{e980}";

// Chinese
pub const CHINESE_CHANGJIE: &'static str = "\u{e981}";
pub const QWERTY_ON: &'static str = "\u{e982}";
pub const QWERTY_OFF: &'static str = "\u{e983}";
pub const CHINESE_QUICK: &'static str = "\u{e984}";
pub const CHINESE_BO_PO_MO_FO: &'static str = "\u{e989}";
pub const CHINESE_PINYIN: &'static str = "\u{e98a}";
pub const JAPANESE: &'static str = "\u{e985}";

/// The current input mode.
#[derive(Debug, Clone, PartialEq, Eq)]
pub enum InputMode {
    /// Nothing recognisable is shown.
    Unknown,
    /// A keyboard layout shown as text, such as "ENG".
    Layout(String),
    Hiragana,
    FullKatakana,
    HalfKatakana,
    HalfAlpha,
    FullAlpha,
    Korean,
    Key12on,
    ChineseChangjie,
    QwertyOn,
    QwertyOff,
    ChiniseQuick,
    ChiniseBoPoMoFo,
    ChinisePinyin,
    Japanese,
}

/// An input mode as a mathematical value: a layout is its text.
pub enum InputModeView {
    Unknown,
    Layout(Seq<char>),
    Hiragana,
    FullKatakana,
    HalfKatakana,
    HalfAlpha,
    FullAlpha,
    Korean,
    Key12on,
    ChineseChangjie,
    QwertyOn,
    QwertyOff,
    ChiniseQuick,
    ChiniseBoPoMoFo,
    ChinisePinyin,
    Japanese,
}

impl View for InputMode {
    type V = InputModeView;

    open spec fn view(&self) -> InputModeView {
        match self {
            InputMode::Unknown => InputModeView::Unknown,
            InputMode::Layout(s) => InputModeView::Layout(s@),
            InputMode::Hiragana => InputModeView::Hiragana,
            InputMode::FullKatakana => InputModeView::FullKatakana,
            InputMode::HalfKatakana => InputModeView::HalfKatakana,
            InputMode::HalfAlpha => InputModeView::HalfAlpha,
            InputMode::FullAlpha => InputModeView::FullAlpha,
            InputMode::Korean => InputModeView::Korean,
            InputMode::Key12on => InputModeView::Key12on,
            InputMode::ChineseChangjie => InputModeView::ChineseChangjie,
            InputMode::QwertyOn => InputModeView::QwertyOn,
            InputMode::QwertyOff => InputModeView::QwertyOff,
            InputMode::ChiniseQuick => InputModeView::ChiniseQuick,
            InputMode::ChiniseBoPoMoFo => InputModeView::ChiniseBoPoMoFo,
            InputMode::ChinisePinyin => InputModeView::ChinisePinyin,
            InputMode::Japanese => InputModeView::Japanese,
        }
    }
}

/// The mode that a single taskbar glyph stands for, if it is one of the
/// known glyphs.
pub open spec fn glyph_mode(c: char) -> Option<InputModeView> {
    if c == '\u{e986}' {
        Some(InputModeView::Hiragana)
    } else if c == '\u{e987}' {
        Some(InputModeView::FullKatakana)
    } else if c == '\u{e988}' {
        Some(InputModeView::HalfKatakana)
    } else if c == '\u{e97f}' {
        Some(InputModeView::FullAlpha)
    } else if c == '\u{e97e}' {
        Some(InputModeView::HalfAlpha)
    } else if c == '\u{e97d}' {
        Some(InputModeView::Korean)
    } else if c == '\u{e980}' {
        Some(InputModeView::Key12on)
    } else if c == '\u{e981}' {
        Some(InputModeView::ChineseChangjie)
    } else if c == '\u{e982}' {
        Some(InputModeView::QwertyOn)
    } else if c == '\u{e983}' {
        Some(InputModeView::QwertyOff)
    } else if c == '\u{e984}' {
        Some(InputModeView::ChiniseQuick)
    } else if c == '\u{e989}' {
        Some(InputModeView::ChiniseBoPoMoFo)
    } else if c == '\u{e98a}' {
        Some(InputModeView::ChinisePinyin)
    } else if c == '\u{e985}' {
        Some(InputModeView::Japanese)
    } else {
        None
    }
}

/// A character of the Unicode private use area U+E000..U+F8FF, where icon
/// fonts put their glyphs.
pub open spec fn is_private_use(c: char) -> bool {
    0xe000 <= (c as u32) <= 0xf8ff
}

/// The mode that the taskbar text `g` stands for: a known glyph is its mode;
/// other text that starts with an icon character, and empty text, is
/// unknown; any other text is a keyboard layout.
pub open spec fn spec_from_glyph(g: Seq<char>) -> InputModeView {
    if g.len() == 1 && glyph_mode(g[0]) is Some {
        glyph_mode(g[0])->0
    } else if g.len() == 0 || is_private_use(g[0]) {
        InputModeView::Unknown
    } else {
        InputModeView::Layout(g)
    }
}

/// The long text of a mode: its name and its character.
pub open spec fn full_text(m: InputModeView) -> Seq<char> {
    match m {
        InputModeView::Hiragana => "ひらがな (あ)"@,
        InputModeView::FullKatakana => "全角カタカナ (カ)"@,
        InputModeView::HalfKatakana => "半角カタカナ (ｶ)"@,
        InputModeView::HalfAlpha => "半角英数 (A)"@,
        InputModeView::FullAlpha => "全角英数 (Ａ)"@,
        InputModeView::Korean => "한국어 (한)"@,
        InputModeView::Key12on => "12키 (가)"@,
        InputModeView::ChineseChangjie => "倉頡 (倉)"@,
        InputModeView::QwertyOn => "中文 (中)"@,
        InputModeView::QwertyOff => "英文 (英)"@,
        InputModeView::ChiniseBoPoMoFo => "注音 (ㄅ)"@,
        InputModeView::ChiniseQuick => "速成 (速)"@,
        InputModeView::ChinisePinyin => "简体 (简)"@,
        InputModeView::Japanese => "日文 (日)"@,
        InputModeView::Unknown => ""@,
        InputModeView::Layout(s) => s,
    }
}

/// The short text of a mode: its character alone.
pub open spec fn compact_text(m: InputModeView) -> Seq<char> {
    match m {
        InputModeView::Hiragana => "あ"@,
        InputModeView::FullKatakana => "カ"@,
        InputModeView::HalfKatakana => "ｶ"@,
        InputModeView::HalfAlpha => "A"@,
        InputModeView::FullAlpha => "Ａ"@,
        InputModeView::Korean => "한"@,
        InputModeView::Key12on => "가"@,
        InputModeView::ChineseChangjie => "倉"@,
        InputModeView::QwertyOn => "中"@,
        InputModeView::QwertyOff => "英"@,
        InputModeView::ChiniseBoPoMoFo => "ㄅ"@,
        InputModeView::ChiniseQuick => "速"@,
        InputModeView::ChinisePinyin => "简"@,
        InputModeView::Japanese => "日"@,
        InputModeView::Unknown => ""@,
        InputModeView::Layout(s) => s,
    }
}

/// The text drawn for `m` in format `f`.
pub open spec fn mode_text(m: InputModeView, f: TextFormat) -> Seq<char> {
    match f {
        TextFormat::Full => full_text(m),
        TextFormat::Compact => compact_text(m),
    }
}

/// Whether the IME converts what is typed in mode `m`: alphanumeric input,
/// Chinese English mode and plain keyboard layouts do not.
pub open spec fn spec_is_on(m: InputModeView) -> bool {
    !(m is HalfAlpha || m is QwertyOff || m is Layout)
}

/// Each known taskbar glyph, alone, reads as its mode.
pub proof fn law_known_glyph_reads_as_its_mode(c: char)
    requires
        glyph_mode(c) is Some,
    ensures
        spec_from_glyph(seq![c]) == glyph_mode(c)->0,
{
}

/// A keyboard layout read from the taskbar is drawn as the very text that
/// was read, in both formats, and the IME counts as off for it.
pub proof fn law_layout_shows_its_text(g: Seq<char>, f: TextFormat)
    requires
        spec_from_glyph(g) is Layout,
    ensures
        mode_text(spec_from_glyph(g), f) == g,
        !spec_is_on(spec_from_glyph(g)),
{
}

/// Text that starts with an icon character and is no known glyph is never
/// taken for a layout: it reads as unknown, and nothing is drawn for it.
pub proof fn law_unknown_icon_shows_nothing(g: Seq<char>, f: TextFormat)
    requires
        g.len() > 0,
        is_private_use(g[0]),
        !(g.len() == 1 && glyph_mode(g[0]) is Some),
    ensures
        spec_from_glyph(g) == InputModeView::Unknown,
        mode_text(spec_from_glyph(g), f) == Seq::<char>::empty(),
{
    assert(""@ =~= Seq::<char>::empty()) by {
        reveal_strlit("");
    }
}

impl Default for InputMode {
    fn default() -> (r: Self)
        ensures
            r@ == InputModeView::Unknown,
    {
        InputMode::Unknown
    }
}

impl InputMode {
    /// The mode before anything has been read: unknown.
    pub fn new() -> (r: Self)
        ensures
            r@ == InputModeView::Unknown,
    {
        InputMode::default()
    }

    /// The mode that the taskbar text `glyph` stands for.
    pub fn from_glyph(glyph: &str) -> (r: Self)
        ensures
            r@ == spec_from_glyph(glyph@),
    {
        let n = glyph.unicode_len();
        if n == 0 {
            return InputMode::Unknown;
        }
        let c = glyph.get_char(0);
        if n == 1 {
            let known = match c {
                '\u{e986}' => Some(InputMode::Hiragana),
                '\u{e987}' => Some(InputMode::FullKatakana),
                '\u{e988}' => Some(InputMode::HalfKatakana),
                '\u{e97f}' => Some(InputMode::FullAlpha),
                '\u{e97e}' => Some(InputMode::HalfAlpha),
                '\u{e97d}' => Some(InputMode::Korean),
                '\u{e980}' => Some(InputMode::Key12on),
                '\u{e981}' => Some(InputMode::ChineseChangjie),
                '\u{e982}' => Some(InputMode::QwertyOn),
                '\u{e983}' => Some(InputMode::QwertyOff),
                '\u{e984}' => Some(InputMode::ChiniseQuick),
                '\u{e989}' => Some(InputMode::ChiniseBoPoMoFo),
                '\u{e98a}' => Some(InputMode::ChinisePinyin),
                '\u{e985}' => Some(InputMode::Japanese),
                _ => None,
            };
            if let Some(m) = known {
                return m;
            }
        }
        if '\u{e000}' <= c && c <= '\u{f8ff}' {
            InputMode::Unknown
        } else {
            InputMode::Layout(glyph.to_owned())
        }
    }

    /// The text drawn for this mode in `text_format`.
    pub fn as_str(&self, text_format: TextFormat) -> (r: &str)
        ensures
            r@ == mode_text(self@, text_format),
    {
        match text_format {
            TextFormat::Full => self.as_str_full(),
            TextFormat::Compact => self.as_str_compact(),
        }
    }

    /// The long text of this mode.
    pub fn as_str_full(&self) -> (r: &str)
        ensures
            r@ == full_text(self@),
    {
        match self {
            InputMode::Hiragana => "ひらがな (あ)",
            InputMode::FullKatakana => "全角カタカナ (カ)",
            InputMode::HalfKatakana => "半角カタカナ (ｶ)",
            InputMode::HalfAlpha => "半角英数 (A)",
            InputMode::FullAlpha => "全角英数 (Ａ)",
            InputMode::Korean => "한국어 (한)",
            InputMode::Key12on => "12키 (가)",
            InputMode::ChineseChangjie => "倉頡 (倉)",
            InputMode::QwertyOn => "中文 (中)",
            InputMode::QwertyOff => "英文 (英)",
            InputMode::ChiniseBoPoMoFo => "注音 (ㄅ)",
            InputMode::ChiniseQuick => "速成 (速)",
            InputMode::ChinisePinyin => "简体 (简)",
            InputMode::Japanese => "日文 (日)",
            InputMode::Unknown => "",
            InputMode::Layout(s) => s.as_str(),
        }
    }

    /// The short text of this mode.
    pub fn as_str_compact(&self) -> (r: &str)
        ensures
            r@ == compact_text(self@),
    {
        match self {
            InputMode::Hiragana => "あ",
            InputMode::FullKatakana => "カ",
            InputMode::HalfKatakana => "ｶ",
            InputMode::HalfAlpha => "A",
            InputMode::FullAlpha => "Ａ",
            InputMode::Korean => "한",
            InputMode::Key12on => "가",
            InputMode::ChineseChangjie => "倉",
            InputMode::QwertyOn => "中",
            InputMode::QwertyOff => "英",
            InputMode::ChiniseBoPoMoFo => "ㄅ",
            InputMode::ChiniseQuick => "速",
            InputMode::ChinisePinyin => "简",
            InputMode::Japanese => "日",
            InputMode::Unknown => "",
            InputMode::Layout(s) => s.as_str(),
        }
    }

    /// Whether the IME is on in this mode.
    pub fn is_on(&self) -> (r: bool)
        ensures
            r == spec_is_on(self@),
    {
        !matches!(self, InputMode::HalfAlpha | InputMode::QwertyOff | InputMode::Layout(_))
    }

    /// Whether this mode is the unknown one.
    pub fn is_unknown(&self) -> (r: bool)
        ensures
            r == (self@ is Unknown),
    {
        matches!(self, InputMode::Unknown)
    }

    /// Whether the two modes are the same (layouts by their text).
    pub fn same_as(&self, other: &InputMode) -> (r: bool)
        ensures
            r == (self@ == other@),
    {
        match (self, other) {
            (InputMode::Layout(a), InputMode::Layout(b)) => *a == *b,
            (InputMode::Layout(_), _) => false,
            (_, InputMode::Layout(_)) => false,
            _ => self.tag() == other.tag(),
        }
    }

    /// A copy of this mode.
    pub fn duplicate(&self) -> (r: InputMode)
        ensures
            r@ == self@,
    {
        match self {
            InputMode::Unknown => InputMode::Unknown,
            InputMode::Layout(s) => InputMode::Layout(s.clone()),
            InputMode::Hiragana => InputMode::Hiragana,
            InputMode::FullKatakana => InputMode::FullKatakana,
            InputMode::HalfKatakana => InputMode::HalfKatakana,
            InputMode::HalfAlpha => InputMode::HalfAlpha,
            InputMode::FullAlpha => InputMode::FullAlpha,
            InputMode::Korean => InputMode::Korean,
            InputMode::Key12on => InputMode::Key12on,
            InputMode::ChineseChangjie => InputMode::ChineseChangjie,
            InputMode::QwertyOn => InputMode::QwertyOn,
            InputMode::QwertyOff => InputMode::QwertyOff,
            InputMode::ChiniseQuick => InputMode::ChiniseQuick,
            InputMode::ChiniseBoPoMoFo => InputMode::ChiniseBoPoMoFo,
            InputMode::ChinisePinyin => InputMode::ChinisePinyin,
            InputMode::Japanese => InputMode::Japanese,
        }
    }

    /// A number per variant; layouts all share one.
    fn tag(&self) -> (r: u8)
        ensures
            r == spec_tag(self@),
    {
        match self {
            InputMode::Unknown => 0,
            InputMode::Layout(_) => 1,
            InputMode::Hiragana => 2,
            InputMode::FullKatakana => 3,
            InputMode::HalfKatakana => 4,
            InputMode::HalfAlpha => 5,
            InputMode::FullAlpha => 6,
            InputMode::Korean => 7,
            InputMode::Key12on => 8,
            InputMode::ChineseChangjie => 9,
            InputMode::QwertyOn => 10,
            InputMode::QwertyOff => 11,
            InputMode::ChiniseQuick => 12,
            InputMode::ChiniseBoPoMoFo => 13,
            InputMode::ChinisePinyin => 14,
            InputMode::Japanese => 15,
        }
    }
}

spec fn spec_tag(m: InputModeView) -> u8 {
    match m {
        InputModeView::Unknown => 0,
        InputModeView::Layout(_) => 1,
        InputModeView::Hiragana => 2,
        InputModeView::FullKatakana => 3,
        InputModeView::HalfKatakana => 4,
        InputModeView::HalfAlpha => 5,
        InputModeView::FullAlpha => 6,
        InputModeView::Korean => 7,
        InputModeView::Key12on => 8,
        InputModeView::ChineseChangjie => 9,
        InputModeView::QwertyOn => 10,
        InputModeView::QwertyOff => 11,
        InputModeView::ChiniseQuick => 12,
        InputModeView::ChiniseBoPoMoFo => 13,
        InputModeView::ChinisePinyin => 14,
        InputModeView::Japanese => 15,
    }
}

/// The modes that have texts of their own: all but unknown and layouts.
pub open spec fn is_named(m: InputModeView) -> bool {
    !(m is Unknown || m is Layout)
}

/// The compact text of a named mode is one character, and its full text
/// ends in that character in brackets, after a space.
pub proof fn law_full_text_ends_with_compact(m: InputModeView)
    requires
        is_named(m),
    ensures
        compact_text(m).len() == 1,
        full_text(m).len() >= 4,
        full_text(m).subrange(full_text(m).len() - 4, full_text(m).len() as int) == seq![' ', '('].add(
            compact_text(m),
        ).add(seq![')']),
{
    match m {
        InputModeView::Hiragana => {
            reveal_strlit("ひらがな (あ)");
            reveal_strlit("あ");
            assert(full_text(m).subrange(full_text(m).len() - 4, full_text(m).len() as int) =~= seq![' ', '('].add(
                compact_text(m),
            ).add(seq![')']));
        },
        InputModeView::FullKatakana => {
            reveal_strlit("全角カタカナ (カ)");
            reveal_strlit("カ");
            assert(full_text(m).subrange(full_text(m).len() - 4, full_text(m).len() as int) =~= seq![' ', '('].add(
                compact_text(m),
            ).add(seq![')']));
        },
        InputModeView::HalfKatakana => {
            reveal_strlit("半角カタカナ (ｶ)");
            reveal_strlit("ｶ");
            assert(full_text(m).subrange(full_text(m).len() - 4, full_text(m).len() as int) =~= seq![' ', '('].add(
                compact_text(m),
            ).add(seq![')']));
        },
        InputModeView::HalfAlpha => {
            reveal_strlit("半角英数 (A)");
            reveal_strlit("A");
            assert(full_text(m).subrange(full_text(m).len() - 4, full_text(m).len() as int) =~= seq![' ', '('].add(
                compact_text(m),
            ).add(seq![')']));
        },
        InputModeView::FullAlpha => {
            reveal_strlit("全角英数 (Ａ)");
            reveal_strlit("Ａ");
            assert(full_text(m).subrange(full_text(m).len() - 4, full_text(m).len() as int) =~= seq![' ', '('].add(
                compact_text(m),
            ).add(seq![')']));
        },
        InputModeView::Korean => {
            reveal_strlit("한국어 (한)");
            reveal_strlit("한");
            assert(full_text(m).subrange(full_text(m).len() - 4, full_text(m).len() as int) =~= seq![' ', '('].add(
                compact_text(m),
            ).add(seq![')']));
        },
        InputModeView::Key12on => {
            reveal_strlit("12키 (가)");
            reveal_strlit("가");
            assert(full_text(m).subrange(full_text(m).len() - 4, full_text(m).len() as int) =~= seq![' ', '('].add(
                compact_text(m),
            ).add(seq![')']));
        },
        InputModeView::ChineseChangjie => {
            reveal_strlit("倉頡 (倉)");
            reveal_strlit("倉");
            assert(full_text(m).subrange(full_text(m).len() - 4, full_text(m).len() as int) =~= seq![' ', '('].add(
                compact_text(m),
            ).add(seq![')']));
        },
        InputModeView::QwertyOn => {
            reveal_strlit("中文 (中)");
            reveal_strlit("中");
            assert(full_text(m).subrange(full_text(m).len() - 4, full_text(m).len() as int) =~= seq![' ', '('].add(
                compact_text(m),
            ).add(seq![')']));
        },
        InputModeView::QwertyOff => {
            reveal_strlit("英文 (英)");
            reveal_strlit("英");
            assert(full_text(m).subrange(full_text(m).len() - 4, full_text(m).len() as int) =~= seq![' ', '('].add(
                compact_text(m),
            ).add(seq![')']));
        },
        InputModeView::ChiniseBoPoMoFo => {
            reveal_strlit("注音 (ㄅ)");
            reveal_strlit("ㄅ");
            assert(full_text(m).subrange(full_text(m).len() - 4, full_text(m).len() as int) =~= seq![' ', '('].add(
                compact_text(m),
            ).add(seq![')']));
        },
        InputModeView::ChiniseQuick => {
            reveal_strlit("速成 (速)");
            reveal_strlit("速");
            assert(full_text(m).subrange(full_text(m).len() - 4, full_text(m).len() as int) =~= seq![' ', '('].add(
                compact_text(m),
            ).add(seq![')']));
        },
        InputModeView::ChinisePinyin => {
            reveal_strlit("简体 (简)");
            reveal_strlit("简");
            assert(full_text(m).subrange(full_text(m).len() - 4, full_text(m).len() as int) =~= seq![' ', '('].add(
                compact_text(m),
            ).add(seq![')']));
        },
        InputModeView::Japanese => {
            reveal_strlit("日文 (日)");
            reveal_strlit("日");
            assert(full_text(m).subrange(full_text(m).len() - 4, full_text(m).len() as int) =~= seq![' ', '('].add(
                compact_text(m),
            ).add(seq![')']));
        },
        _ => {},
    }
}

/// Different named modes get different texts, full and compact.
pub proof fn law_texts_tell_modes_apart(a: InputModeView, b: InputModeView)
    requires
        is_named(a),
        is_named(b),
        a != b,
    ensures
        compact_text(a) != compact_text(b),
        full_text(a) != full_text(b),
{
    law_full_text_ends_with_compact(a);
    law_full_text_ends_with_compact(b);
    reveal_strlit("あ");
    reveal_strlit("カ");
    reveal_strlit("ｶ");
    reveal_strlit("A");
    reveal_strlit("Ａ");
    reveal_strlit("한");
    reveal_strlit("가");
    reveal_strlit("倉");
    reveal_strlit("中");
    reveal_strlit("英");
    reveal_strlit("ㄅ");
    reveal_strlit("速");
    reveal_strlit("简");
    reveal_strlit("日");
    assert(compact_text(a)[0] != compact_text(b)[0]);
    if full_text(a) == full_text(b) {
        let n = full_text(a).len();
        assert(full_text(a).subrange(n - 4, n as int)[2] == compact_text(a)[0]);
        assert(full_text(b).subrange(n - 4, n as int)[2] == compact_text(b)[0]);
    }
}

} // verus!
