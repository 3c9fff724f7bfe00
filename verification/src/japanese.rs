//! The Japanese IME modes read from the taskbar glyph (no keyboard layouts),
//! the status table keyed by the glyph's character, and the overlay flow
//! that shows them.
use vstd::prelude::*;
use crate::text;

verus! {

pub const GLYPH_HIRAGANA: &'static str = "\u{e986}";
pub const GLYPH_HALF_ALPHA_1: &'static str = "\u{e97e}";
pub const GLYPH_HALF_ALPHA_2: &'static str = "\u{e982}";
pub const GLYPH_FULL_KATAKANA: &'static str = "\u{e987}";
pub const GLYPH_FULL_ALPHA: &'static str = "\u{e981}";
pub const GLYPH_HALF_KATAKANA: &'static str = "\u{e988}";

/// A Japanese input mode.
#[derive(Debug, Clone, Copy, PartialEq, Eq, Structural)]
pub enum InputMode {
    Unknown,
    Hiragana,
    HalfAlpha,
    FullKatakana,
    FullAlpha,
    HalfKatakana,
}

/// The Japanese mode that the taskbar text `g` stands for.
pub open spec fn spec_from_glyph(g: Seq<char>) -> InputMode {
    if g.len() != 1 {
        InputMode::Unknown
    } else if g[0] == '\u{e986}' {
        InputMode::Hiragana
    } else if g[0] == '\u{e987}' {
        InputMode::FullKatakana
    } else if g[0] == '\u{e981}' {
        InputMode::FullAlpha
    } else if g[0] == '\u{e988}' {
        InputMode::HalfKatakana
    } else if g[0] == '\u{e97e}' || g[0] == '\u{e982}' {
        InputMode::HalfAlpha
    } else {
        InputMode::Unknown
    }
}

/// The text drawn for a mode.
pub open spec fn spec_text(m: InputMode) -> Seq<char> {
    match m {
        InputMode::Hiragana => "ひらがな (あ)"@,
        InputMode::HalfAlpha => "半角英数 (A)"@,
        InputMode::FullKatakana => "全角カタカナ (カ)"@,
        InputMode::FullAlpha => "全角英数 (Ａ)"@,
        InputMode::HalfKatakana => "半角カタカナ (ｶ)"@,
        InputMode::Unknown => ""@,
    }
}

impl InputMode {
    /// The mode before anything has been read: unknown.
    pub fn new() -> (r: Self)
        ensures
            r == InputMode::Unknown,
    {
        InputMode::Unknown
    }

    /// The mode that the taskbar text `glyph` stands for.
    pub fn from_glyph(glyph: &str) -> (r: Self)
        ensures
            r == spec_from_glyph(glyph@),
    {
        if glyph.unicode_len() != 1 {
            return InputMode::Unknown;
        }
        match glyph.get_char(0) {
            '\u{e986}' => InputMode::Hiragana,
            '\u{e987}' => InputMode::FullKatakana,
            '\u{e981}' => InputMode::FullAlpha,
            '\u{e988}' => InputMode::HalfKatakana,
            '\u{e97e}' | '\u{e982}' => InputMode::HalfAlpha,
            _ => InputMode::Unknown,
        }
    }

    /// The text drawn for this mode.
    pub fn as_str(&self) -> (r: &'static str)
        ensures
            r@ == spec_text(*self),
    {
        match self {
            InputMode::Hiragana => "ひらがな (あ)",
            InputMode::HalfAlpha => "半角英数 (A)",
            InputMode::FullKatakana => "全角カタカナ (カ)",
            InputMode::FullAlpha => "全角英数 (Ａ)",
            InputMode::HalfKatakana => "半角カタカナ (ｶ)",
            InputMode::Unknown => "",
        }
    }

    /// Whether the IME is on: in every mode but half-width alphanumeric.
    pub fn is_on(&self) -> (r: bool)
        ensures
            r == !(*self is HalfAlpha),
    {
        !matches!(self, InputMode::HalfAlpha)
    }
}

/// Whether the IME is on, and the text shown, for a glyph's character.
pub open spec fn spec_ime_status(c: char) -> (bool, Seq<char>) {
    let code = c as u32;
    if code == 0xe986 {
        (true, "ひらがな (あ)"@)
    } else if code == 0xe987 {
        (true, "全角カタカナ (カ)"@)
    } else if code == 0xe981 {
        (true, "全角英数 (Ａ)"@)
    } else if code == 0xe988 {
        (true, "半角カタカナ (ｶ)"@)
    } else if code == 0xe971 || code == 0xe97e || code == 0xe982 {
        (false, "半角英数 (A)"@)
    } else if code == 0xe989 {
        (false, "IME無効 (×)"@)
    } else {
        (false, "不明なモード"@)
    }
}

/// Whether the IME is on, and the text to show, for the glyph character
/// `char_code`.
pub fn get_ime_status(char_code: char) -> (r: (bool, &'static str))
    ensures
        r.0 == spec_ime_status(char_code).0,
        r.1@ == spec_ime_status(char_code).1,
{
    match char_code {
        '\u{e986}' => (true, "ひらがな (あ)"),
        '\u{e987}' => (true, "全角カタカナ (カ)"),
        '\u{e981}' => (true, "全角英数 (Ａ)"),
        '\u{e988}' => (true, "半角カタカナ (ｶ)"),
        '\u{e971}' | '\u{e97e}' | '\u{e982}' => (false, "半角英数 (A)"),
        '\u{e989}' => (false, "IME無効 (×)"),
        _ => (false, "不明なモード"),
    }
}

/// The same status for a glyph given as text: its first character decides,
/// and empty text counts as the character U+0000.
pub fn get_ime_status_of(glyph: &String) -> (r: (bool, &'static str))
    ensures
        r.0 == spec_ime_status(if glyph@.len() > 0 { glyph@[0] } else { '\0' }).0,
        r.1@ == spec_ime_status(if glyph@.len() > 0 { glyph@[0] } else { '\0' }).1,
{
    let s = glyph.as_str();
    let c = if s.unicode_len() > 0 { s.get_char(0) } else { '\0' };
    get_ime_status(c)
}

/// The two readings of a glyph agree: for every glyph that names a mode,
/// the status table's IME state is the mode's, and its text is the mode's
/// text.
pub proof fn law_status_table_agrees_with_modes(g: Seq<char>)
    requires
        spec_from_glyph(g) != InputMode::Unknown,
    ensures
        spec_ime_status(g[0]).0 == !(spec_from_glyph(g) is HalfAlpha),
        spec_ime_status(g[0]).1 == spec_text(spec_from_glyph(g)),
{
}

/// The same mode in the layout-aware reading.
pub open spec fn as_text_mode(m: InputMode) -> text::InputModeView {
    match m {
        InputMode::Unknown => text::InputModeView::Unknown,
        InputMode::Hiragana => text::InputModeView::Hiragana,
        InputMode::HalfAlpha => text::InputModeView::HalfAlpha,
        InputMode::FullKatakana => text::InputModeView::FullKatakana,
        InputMode::FullAlpha => text::InputModeView::FullAlpha,
        InputMode::HalfKatakana => text::InputModeView::HalfKatakana,
    }
}

/// Both readings draw the same text for each Japanese mode, and agree on
/// whether the IME is on for it.
pub proof fn law_readings_draw_the_same_text(m: InputMode)
    requires
        m != InputMode::Unknown,
    ensures
        spec_text(m) == text::full_text(as_text_mode(m)),
        !(m is HalfAlpha) == text::spec_is_on(as_text_mode(m)),
{
}

} // verus!
