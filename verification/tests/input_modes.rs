use input_mode_viewer::capability::{FocusedElement, InputCapability};
use input_mode_viewer::common::TextFormat;
use input_mode_viewer::japanese;
use input_mode_viewer::events::CachedElement;
use input_mode_viewer::japanese_flow::{
    find_id, find_indicator, input_capability, Popup, should_show, text_input_capability, Fade, GlyphFeed, ModeFeed, ModeRelay,
    Overlay, OverlayMessage, RedrawStep,
};
use input_mode_viewer::taskbar::{find_ime_char, is_glyph_element, is_mode_glyph_name, UiNode};
use input_mode_viewer::text::InputMode;

#[test]
fn known_glyphs_read_as_their_modes() {
    assert_eq!(InputMode::from_glyph("\u{e986}"), InputMode::Hiragana);
    assert_eq!(InputMode::from_glyph("\u{e987}"), InputMode::FullKatakana);
    assert_eq!(InputMode::from_glyph("\u{e988}"), InputMode::HalfKatakana);
    assert_eq!(InputMode::from_glyph("\u{e97e}"), InputMode::HalfAlpha);
    assert_eq!(InputMode::from_glyph("\u{e97f}"), InputMode::FullAlpha);
    assert_eq!(InputMode::from_glyph("\u{e97d}"), InputMode::Korean);
    assert_eq!(InputMode::from_glyph("\u{e980}"), InputMode::Key12on);
    assert_eq!(InputMode::from_glyph("\u{e981}"), InputMode::ChineseChangjie);
    assert_eq!(InputMode::from_glyph("\u{e982}"), InputMode::QwertyOn);
    assert_eq!(InputMode::from_glyph("\u{e983}"), InputMode::QwertyOff);
    assert_eq!(InputMode::from_glyph("\u{e984}"), InputMode::ChiniseQuick);
    assert_eq!(InputMode::from_glyph("\u{e989}"), InputMode::ChiniseBoPoMoFo);
    assert_eq!(InputMode::from_glyph("\u{e98a}"), InputMode::ChinisePinyin);
    assert_eq!(InputMode::from_glyph("\u{e985}"), InputMode::Japanese);
}

#[test]
fn layout_text_is_kept() {
    assert_eq!(InputMode::from_glyph("ENG"), InputMode::Layout("ENG".to_string()));
    assert_eq!(InputMode::from_glyph("ENG").as_str(TextFormat::Full), "ENG");
    assert_eq!(InputMode::from_glyph("ENG").as_str(TextFormat::Compact), "ENG");
    assert!(!InputMode::from_glyph("ENG").is_on());
}

#[test]
fn unknown_icons_and_empty_text_read_as_unknown() {
    assert_eq!(InputMode::from_glyph(""), InputMode::Unknown);
    assert_eq!(InputMode::from_glyph("\u{e700}"), InputMode::Unknown);
    assert_eq!(InputMode::from_glyph("\u{e986}\u{e986}"), InputMode::Unknown);
    assert_eq!(InputMode::from_glyph("\u{e700}").as_str(TextFormat::Full), "");
}

#[test]
fn mode_texts() {
    assert_eq!(InputMode::Hiragana.as_str_full(), "ひらがな (あ)");
    assert_eq!(InputMode::Hiragana.as_str_compact(), "あ");
    assert_eq!(InputMode::HalfAlpha.as_str(TextFormat::Full), "半角英数 (A)");
    assert_eq!(InputMode::HalfAlpha.as_str(TextFormat::Compact), "A");
    assert_eq!(InputMode::Korean.as_str_full(), "한국어 (한)");
    assert_eq!(InputMode::ChinisePinyin.as_str_compact(), "简");
    assert_eq!(InputMode::Unknown.as_str_full(), "");
}

#[test]
fn ime_on_modes() {
    assert!(InputMode::Hiragana.is_on());
    assert!(InputMode::Unknown.is_on());
    assert!(!InputMode::HalfAlpha.is_on());
    assert!(!InputMode::QwertyOff.is_on());
    assert!(InputMode::QwertyOn.is_on());
}

#[test]
fn new_mode_is_unknown() {
    assert_eq!(InputMode::new(), InputMode::Unknown);
    assert!(InputMode::new().is_unknown());
    assert!(InputMode::Layout("A".to_string()).same_as(&InputMode::Layout("A".to_string())));
    assert!(!InputMode::Layout("A".to_string()).same_as(&InputMode::Layout("B".to_string())));
    assert_eq!(InputMode::Layout("A".to_string()).duplicate(), InputMode::Layout("A".to_string()));
}

#[test]
fn japanese_modes_from_glyphs() {
    assert_eq!(japanese::InputMode::from_glyph("\u{e986}"), japanese::InputMode::Hiragana);
    assert_eq!(japanese::InputMode::from_glyph("\u{e982}"), japanese::InputMode::HalfAlpha);
    assert_eq!(japanese::InputMode::from_glyph("\u{e981}"), japanese::InputMode::FullAlpha);
    assert_eq!(japanese::InputMode::from_glyph("ENG"), japanese::InputMode::Unknown);
    assert_eq!(japanese::InputMode::new(), japanese::InputMode::Unknown);
    assert_eq!(japanese::InputMode::FullKatakana.as_str(), "全角カタカナ (カ)");
    assert_eq!(japanese::InputMode::Unknown.as_str(), "");
    assert!(!japanese::InputMode::HalfAlpha.is_on());
    assert!(japanese::InputMode::Unknown.is_on());
}

#[test]
fn ime_status_by_character() {
    assert_eq!(japanese::get_ime_status('\u{e986}'), (true, "ひらがな (あ)"));
    assert_eq!(japanese::get_ime_status('\u{e971}'), (false, "半角英数 (A)"));
    assert_eq!(japanese::get_ime_status('\u{e989}'), (false, "IME無効 (×)"));
    assert_eq!(japanese::get_ime_status('x'), (false, "不明なモード"));
    assert_eq!(japanese::get_ime_status_of(&"\u{e988}rest".to_string()), (true, "半角カタカナ (ｶ)"));
    assert_eq!(japanese::get_ime_status_of(&String::new()), (false, "不明なモード"));
}

fn element(control_type: Option<i32>) -> FocusedElement {
    FocusedElement {
        enabled: Some(true),
        has_text_pattern: false,
        control_type,
        read_only: false,
        cursor_ibeam: false,
    }
}

#[test]
fn live_check_of_the_focused_control() {
    let win32 = InputCapability::Unknown;
    assert_eq!(text_input_capability(&None, InputCapability::Yes), InputCapability::Yes);
    let disabled = FocusedElement { enabled: Some(false), ..element(Some(50004)) };
    assert_eq!(text_input_capability(&Some(disabled), win32), InputCapability::No);
    let text = FocusedElement { has_text_pattern: true, ..element(None) };
    assert_eq!(text_input_capability(&Some(text), win32), InputCapability::Yes);
    let read_only_text = FocusedElement { read_only: true, ..text };
    assert_eq!(text_input_capability(&Some(read_only_text), win32), InputCapability::No);
    assert_eq!(text_input_capability(&Some(element(None)), win32), InputCapability::No);
    assert_eq!(text_input_capability(&Some(element(Some(50030))), win32), InputCapability::Yes);
    let read_only_edit = FocusedElement { read_only: true, ..element(Some(50004)) };
    assert_eq!(text_input_capability(&Some(read_only_edit), InputCapability::No), InputCapability::No);
    assert_eq!(text_input_capability(&Some(element(Some(50025))), InputCapability::No), InputCapability::No);
    let ibeam_window = FocusedElement { cursor_ibeam: true, ..element(Some(50032)) };
    assert_eq!(text_input_capability(&Some(ibeam_window), win32), InputCapability::Yes);
    let ibeam_button = FocusedElement { cursor_ibeam: true, ..element(Some(50000)) };
    assert_eq!(text_input_capability(&Some(ibeam_button), InputCapability::Yes), InputCapability::Unknown);
    assert_eq!(text_input_capability(&Some(element(Some(50000))), InputCapability::Yes), InputCapability::No);
}

#[test]
fn cached_check_of_the_focused_control() {
    assert_eq!(input_capability(&None, InputCapability::No), InputCapability::No);
    let disabled = FocusedElement { enabled: Some(false), ..element(Some(50004)) };
    assert_eq!(input_capability(&Some(disabled), InputCapability::Yes), InputCapability::No);
    assert_eq!(input_capability(&Some(element(None)), InputCapability::Yes), InputCapability::No);
    assert_eq!(input_capability(&Some(element(Some(50004))), InputCapability::No), InputCapability::Yes);
    let group_text = FocusedElement { has_text_pattern: true, ..element(Some(50026)) };
    assert_eq!(input_capability(&Some(group_text), InputCapability::No), InputCapability::Yes);
    assert_eq!(input_capability(&Some(element(Some(50033))), InputCapability::Yes), InputCapability::No);
    let ibeam_button = FocusedElement { cursor_ibeam: true, ..element(Some(50000)) };
    assert_eq!(input_capability(&Some(ibeam_button), InputCapability::Yes), InputCapability::Yes);
    assert_eq!(input_capability(&Some(element(Some(50000))), InputCapability::Yes), InputCapability::No);
}

#[test]
fn readings_are_shown_by_capability() {
    assert!(should_show(InputCapability::Yes, false));
    assert!(!should_show(InputCapability::No, true));
    assert!(should_show(InputCapability::Unknown, true));
    assert!(!should_show(InputCapability::Unknown, false));
}

#[test]
fn mode_feed_sends_changes_once() {
    let mut feed = ModeFeed::new();
    let hira = japanese::InputMode::Hiragana;
    assert_eq!(feed.on_reading(hira, InputCapability::Yes, false), Some(hira));
    assert_eq!(feed.on_reading(hira, InputCapability::Yes, false), None);
    assert_eq!(feed.on_reading(hira, InputCapability::Yes, true), Some(hira));
    assert_eq!(
        feed.on_reading(hira, InputCapability::No, false),
        Some(japanese::InputMode::Unknown)
    );
    assert_eq!(feed.on_reading(hira, InputCapability::No, false), None);
    assert_eq!(feed.last, japanese::InputMode::Unknown);
}

#[test]
fn mode_feed_hides_alphanumeric_where_capability_is_unknown() {
    let mut feed = ModeFeed { last: japanese::InputMode::Hiragana };
    assert_eq!(
        feed.on_reading(japanese::InputMode::HalfAlpha, InputCapability::Unknown, true),
        Some(japanese::InputMode::Unknown)
    );
}

#[test]
fn glyph_feed_sends_texts() {
    let mut feed = GlyphFeed::new();
    let hira = Some("\u{e986}".to_string());
    assert_eq!(feed.on_reading(None, InputCapability::Yes, true), None);
    assert_eq!(
        feed.on_reading(hira.clone(), InputCapability::Yes, false),
        Some("ひらがな (あ)".to_string())
    );
    assert_eq!(feed.on_reading(hira.clone(), InputCapability::Yes, false), None);
    assert_eq!(feed.last_glyph, "\u{e986}");
    assert_eq!(feed.on_reading(hira.clone(), InputCapability::No, false), Some(String::new()));
    assert_eq!(feed.last_glyph, "");
    assert_eq!(feed.on_reading(hira, InputCapability::No, false), None);
    let alpha = Some("\u{e97e}".to_string());
    assert_eq!(feed.on_reading(alpha, InputCapability::Unknown, false), None);
}

#[test]
fn relay_sends_every_reading() {
    let mut relay = ModeRelay::new();
    let hira = japanese::InputMode::Hiragana;
    assert_eq!(relay.on_reading(Some(hira)), Some(hira));
    assert_eq!(relay.on_reading(Some(hira)), Some(hira));
    assert_eq!(relay.last_sent, hira);
    assert_eq!(relay.on_reading(None), None);
    assert_eq!(relay.last_sent, japanese::InputMode::Unknown);
}

#[test]
fn overlay_fades_in_then_stays() {
    let mut o = Overlay::new();
    o.user_event(OverlayMessage::Cap(InputCapability::Yes));
    o.user_event(OverlayMessage::Mode(japanese::InputMode::Hiragana));
    assert!(o.is_visible);
    assert!(o.polls());
    assert_eq!(o.on_redraw(false), RedrawStep::StartFade);
    assert_eq!(o.show_state, Fade::FadeIn);
    assert_eq!(o.on_redraw(false), RedrawStep::Fade { done: false });
    assert_eq!(o.on_redraw(true), RedrawStep::Fade { done: true });
    assert_eq!(o.show_state, Fade::Visible);
    assert_eq!(o.on_redraw(false), RedrawStep::Steady);
}

#[test]
fn overlay_hides_where_no_text_is_typed() {
    let mut o = Overlay::new();
    o.user_event(OverlayMessage::Cap(InputCapability::No));
    o.user_event(OverlayMessage::Mode(japanese::InputMode::Hiragana));
    assert!(!o.is_visible);
    assert_eq!(o.on_redraw(true), RedrawStep::Hide);
    assert_eq!(o.show_state, Fade::Hidden);
    let mut unknown = Overlay::new();
    unknown.user_event(OverlayMessage::Mode(japanese::InputMode::HalfAlpha));
    assert!(unknown.is_visible);
    assert_eq!(unknown.on_redraw(false), RedrawStep::Hide);
    assert!(!unknown.is_visible);
}

fn node(id: &str, offscreen: bool, name: &str, children: Vec<UiNode>) -> UiNode {
    UiNode { automation_id: Some(id.to_string()), offscreen, name: name.to_string(), children }
}

#[test]
fn glyph_names() {
    assert!(is_mode_glyph_name("\u{e986}"));
    assert!(is_mode_glyph_name("\u{e982}"));
    assert!(!is_mode_glyph_name("\u{e983}"));
    assert!(!is_mode_glyph_name(""));
    assert!(is_glyph_element(&node("InnerTextBlock", false, "\u{e987}", Vec::new())));
    assert!(!is_glyph_element(&node("InnerTextBlock", true, "\u{e987}", Vec::new())));
    assert!(!is_glyph_element(&node("Clock", false, "\u{e987}", Vec::new())));
}

#[test]
fn glyph_search_is_depth_first() {
    let tree = node(
        "Shell_TrayWnd",
        false,
        "",
        vec![
            node(
                "Pane",
                false,
                "",
                vec![
                    node("InnerTextBlock", true, "\u{e986}", Vec::new()),
                    node("InnerTextBlock", false, "12:00", Vec::new()),
                    node("Deep", false, "", vec![node("InnerTextBlock", false, "\u{e988}", Vec::new())]),
                ],
            ),
            node("InnerTextBlock", false, "\u{e97e}", Vec::new()),
        ],
    );
    assert_eq!(find_ime_char(&tree), Some("\u{e988}".to_string()));
    let empty = node("Shell_TrayWnd", false, "", vec![node("Clock", false, "12:00", Vec::new())]);
    assert_eq!(find_ime_char(&empty), None);
    let unread = UiNode { automation_id: None, offscreen: false, name: "\u{e986}".to_string(), children: Vec::new() };
    assert_eq!(find_ime_char(&unread), None);
}

#[test]
fn status_table_agrees_with_modes() {
    for g in ["\u{e986}", "\u{e97e}", "\u{e982}", "\u{e987}", "\u{e981}", "\u{e988}"] {
        let mode = japanese::InputMode::from_glyph(g);
        let (on, text) = japanese::get_ime_status(g.chars().next().unwrap());
        assert_eq!(on, mode.is_on());
        assert_eq!(text, mode.as_str());
    }
}

fn cached(id: Option<&str>, offscreen: Option<bool>, name: Option<&str>) -> CachedElement {
    CachedElement {
        automation_id: id.map(|s| s.to_string()),
        is_offscreen: offscreen,
        name: name.map(|s| s.to_string()),
    }
}

#[test]
fn japanese_indicator_search() {
    let els = vec![
        cached(Some("InnerTextBlock"), Some(false), Some("ENG")),
        cached(Some("InnerTextBlock"), Some(true), Some("\u{e986}")),
        cached(Some("InnerTextBlock"), Some(false), Some("\u{e988}")),
        cached(Some("InnerTextBlock"), Some(false), Some("\u{e986}")),
    ];
    assert_eq!(find_indicator(&els, "InnerTextBlock"), Some(2));
    assert_eq!(find_id(&els, "InnerTextBlock"), japanese::InputMode::HalfKatakana);
    assert_eq!(find_indicator(&els, "Clock"), None);
    assert_eq!(find_id(&els, "Clock"), japanese::InputMode::Unknown);
    assert_eq!(find_id(&Vec::new(), "InnerTextBlock"), japanese::InputMode::Unknown);
}

#[test]
fn popup_hides_only_after_its_last_update() {
    let mut p = Popup::new("あ".to_string());
    let first = p.on_update("A".to_string());
    assert_eq!(first, 1);
    assert!(p.hide_due(first));
    let same = p.on_update("A".to_string());
    assert_eq!(same, 1);
    let second = p.on_update("カ".to_string());
    assert_eq!(second, 2);
    assert!(!p.hide_due(first));
    assert!(p.hide_due(second));
    let mut wrap = Popup { text: "x".to_string(), display_id: i32::MAX };
    assert_eq!(wrap.on_update("y".to_string()), i32::MIN);
}
