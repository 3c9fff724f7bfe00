use input_mode_viewer::capability;
use input_mode_viewer::capability::{
    classify_element, win32_input_capability, FocusedElement, GuiThreadState, InputCapability,
};
use input_mode_viewer::common::{
    AppConfig, DisplayStyle, PolicyMode, ProcessSet, RenderingQuality, WindowRole,
};
use input_mode_viewer::display::{
    allowed_by_policy, apply_admin_changed, apply_startup_changed, check_displayed, config_update,
    is_active_mode, position_reset_needed, AppState, ModeOutcome, OpacityCommand, PrivilegeAction,
};
use input_mode_viewer::show_state::{AnimationAction, ShowState};
use input_mode_viewer::text::InputMode;

fn strings(items: &[&str]) -> Vec<String> {
    items.iter().map(|s| s.to_string()).collect()
}

#[test]
fn default_settings() {
    let cfg = AppConfig::default();
    assert!(!cfg.startup);
    assert!(!cfg.administrator);
    assert_eq!(cfg.quality, RenderingQuality::Balanced);
    assert_eq!(cfg.active_role, WindowRole::Fixed);
    assert_eq!(cfg.fixed.margin, 20);
    assert_eq!(cfg.floating.offset.x, 20);
    assert_eq!(cfg.process_cfg.mode, PolicyMode::BlackList);
    assert_eq!(cfg.active_display_style(), DisplayStyle::Smart);
    assert!(!cfg.active_auto_hide());
}

#[test]
fn active_window_settings_follow_the_role() {
    let mut cfg = AppConfig::default();
    cfg.floating.display_style = DisplayStyle::Always;
    cfg.floating.auto_hide_enabled = true;
    assert_eq!(cfg.active_display_style(), DisplayStyle::Smart);
    assert!(!cfg.active_auto_hide());
    cfg.active_role = WindowRole::Floating;
    assert_eq!(cfg.active_display_style(), DisplayStyle::Always);
    assert!(cfg.active_auto_hide());
}

#[test]
fn active_modes() {
    assert!(is_active_mode(InputCapability::Yes, &InputMode::HalfAlpha));
    assert!(!is_active_mode(InputCapability::Yes, &InputMode::Unknown));
    assert!(!is_active_mode(InputCapability::No, &InputMode::Hiragana));
    assert!(is_active_mode(InputCapability::Unknown, &InputMode::Hiragana));
    assert!(!is_active_mode(InputCapability::Unknown, &InputMode::HalfAlpha));
    assert!(!is_active_mode(InputCapability::Unknown, &InputMode::Layout("ENG".to_string())));
}

#[test]
fn black_list_blocks_listed_processes() {
    let mut cfg = AppConfig::default();
    cfg.process_cfg.blacklist = ProcessSet { processes: strings(&["Game.EXE"]) };
    assert!(!allowed_by_policy(&cfg, &Some(strings(&["explorer.exe", "game.exe"]))));
    assert!(allowed_by_policy(&cfg, &Some(strings(&["notepad.exe"]))));
    assert!(allowed_by_policy(&cfg, &None));
}

#[test]
fn white_list_admits_only_listed_processes() {
    let mut cfg = AppConfig::default();
    cfg.process_cfg.mode = PolicyMode::WhiteList;
    cfg.process_cfg.whitelist = ProcessSet { processes: strings(&["Code.exe"]) };
    assert!(allowed_by_policy(&cfg, &Some(strings(&["code.exe"]))));
    assert!(!allowed_by_policy(&cfg, &Some(strings(&["notepad.exe"]))));
    assert!(!allowed_by_policy(&cfg, &None));
}

#[test]
fn displayed_needs_wish_and_permission() {
    let mut cfg = AppConfig::default();
    assert!(check_displayed(InputCapability::Yes, &InputMode::Hiragana, &cfg, &None));
    assert!(!check_displayed(InputCapability::No, &InputMode::Hiragana, &cfg, &None));
    cfg.fixed.display_style = DisplayStyle::Always;
    assert!(check_displayed(InputCapability::No, &InputMode::Hiragana, &cfg, &None));
    cfg.process_cfg.mode = PolicyMode::WhiteList;
    assert!(!check_displayed(InputCapability::Yes, &InputMode::Hiragana, &cfg, &None));
}

#[test]
fn first_mode_fades_the_overlay_in() {
    let cfg = AppConfig::default();
    let mut state = AppState::new();
    state.on_cap(InputCapability::Yes);
    assert!(state.refresh_requested);
    let out = state.on_mode(InputMode::Hiragana, &cfg, &None);
    assert_eq!(out, ModeOutcome { resize: true, send_refresh: true, command: OpacityCommand::FadeIn });
    assert!(state.displayed);
    assert_eq!(state.show_state, ShowState::Visible);
    let again = state.on_mode(InputMode::Hiragana, &cfg, &None);
    assert!(!again.resize);
    assert!(!again.send_refresh);
}

#[test]
fn performance_quality_shows_at_once() {
    let mut cfg = AppConfig::default();
    cfg.quality = RenderingQuality::Performance;
    let mut state = AppState::new();
    state.on_cap(InputCapability::Yes);
    let out = state.on_mode(InputMode::FullKatakana, &cfg, &None);
    assert_eq!(out.command, OpacityCommand::ShowAtStyleOpacity);
}

#[test]
fn auto_hide_serves_the_refresh() {
    let mut cfg = AppConfig::default();
    cfg.fixed.auto_hide_enabled = true;
    let mut state = AppState::new();
    state.on_cap(InputCapability::Yes);
    let out = state.on_mode(InputMode::Hiragana, &cfg, &None);
    assert_eq!(out.command, OpacityCommand::AutoHide { is_refresh: false });
    assert!(!state.refresh_requested);
}

#[test]
fn hidden_overlay_fades_out() {
    let cfg = AppConfig::default();
    let mut state = AppState::new();
    state.on_cap(InputCapability::Yes);
    state.on_mode(InputMode::Hiragana, &cfg, &None);
    state.on_cap(InputCapability::No);
    let out = state.on_mode(InputMode::Hiragana, &cfg, &None);
    assert!(!state.displayed);
    assert_eq!(out.command, OpacityCommand::FadeOut);
    assert_eq!(state.show_state, ShowState::Hidden);
}

#[test]
fn opacity_commands_without_animation() {
    let mut state = AppState::new();
    assert_eq!(state.no_animation(false, false, false), OpacityCommand::Transparent);
    assert_eq!(state.no_animation(true, true, false), OpacityCommand::ShowAtStyleOpacity);
    state.refresh_requested = true;
    assert_eq!(state.no_animation(true, true, true), OpacityCommand::AutoHideInstant);
    assert!(!state.refresh_requested);
    assert_eq!(state.with_animation(true, false, false), OpacityCommand::NoChange);
    assert_eq!(state.with_animation(true, false, true), OpacityCommand::Transparent);
}

#[test]
fn display_state_update_reports_becoming_visible() {
    let mut state = AppState::new();
    let (send, cmd) = state.update_display_state(true, RenderingQuality::Ultra, false);
    assert!(send);
    assert_eq!(cmd, OpacityCommand::FadeIn);
    let (send, _) = state.update_display_state(true, RenderingQuality::Ultra, false);
    assert!(!send);
    let cmd = state.trigger_display(false, RenderingQuality::Ultra, false);
    assert_eq!(cmd, OpacityCommand::NoChange);
}

#[test]
fn show_state_transitions() {
    let mut s = ShowState::Hidden;
    assert!(s.update(true));
    assert!(!s.update(true));
    assert!(!s.update(false));
    assert_eq!(s, ShowState::Hidden);
    assert_eq!(s.is_action(true, false), AnimationAction::StartFadeIn);
    assert_eq!(s.is_action(true, true), AnimationAction::Refresh);
    assert_eq!(s.is_action(true, false), AnimationAction::NoChange);
    assert_eq!(s.is_action(false, true), AnimationAction::Hide);
    assert_eq!(s.is_action(false, true), AnimationAction::NoChange);
    assert_eq!(s.prepare_auto_hide(true), Some(false));
    assert_eq!(s.prepare_auto_hide(true), Some(true));
    assert_eq!(s.prepare_auto_hide(false), None);
}

#[test]
fn settings_changes_ask_for_privileges() {
    assert_eq!(apply_admin_changed(true, false), PrivilegeAction::Restart { dropping_privileges: true });
    assert_eq!(apply_admin_changed(true, true), PrivilegeAction::Restart { dropping_privileges: false });
    assert_eq!(apply_startup_changed(true, true), PrivilegeAction::RegisterStartup { admin_required: true });
    assert_eq!(apply_startup_changed(false, true), PrivilegeAction::UnregisterStartup);
    assert_eq!(apply_startup_changed(true, false), PrivilegeAction::Restart { dropping_privileges: false });
    let old = AppConfig::default();
    let mut new = AppConfig::default();
    assert_eq!(config_update(None, &new, false), PrivilegeAction::NoAction);
    assert_eq!(config_update(Some(&old), &new, false), PrivilegeAction::NoAction);
    new.startup = true;
    assert_eq!(config_update(Some(&old), &new, true), PrivilegeAction::RegisterStartup { admin_required: true });
    new.administrator = true;
    assert_eq!(config_update(Some(&old), &new, false), PrivilegeAction::Restart { dropping_privileges: true });
}

#[test]
fn position_is_reset_when_floating_starts() {
    assert!(position_reset_needed(WindowRole::Fixed, WindowRole::Floating));
    assert!(!position_reset_needed(WindowRole::Floating, WindowRole::Floating));
    assert!(!position_reset_needed(WindowRole::Floating, WindowRole::Fixed));
}

fn element(control_type: Option<i32>) -> FocusedElement {
    FocusedElement {
        enabled: Some(true),
        has_text_pattern: false,
        control_type,
        read_only: false,
        cursor_ibeam: false,
    }
}

#[test]
fn focused_element_classification() {
    assert_eq!(classify_element(&element(Some(50004))), InputCapability::Yes);
    let ro = FocusedElement { read_only: true, ..element(Some(50004)) };
    assert_eq!(classify_element(&ro), InputCapability::No);
    assert_eq!(classify_element(&element(Some(50033))), InputCapability::Unknown);
    let pane_text = FocusedElement { has_text_pattern: true, ..element(Some(50033)) };
    assert_eq!(classify_element(&pane_text), InputCapability::Yes);
    assert_eq!(classify_element(&element(Some(50026))), InputCapability::No);
    assert_eq!(classify_element(&element(None)), InputCapability::No);
    let disabled = FocusedElement { enabled: Some(false), ..element(Some(50004)) };
    assert_eq!(classify_element(&disabled), InputCapability::No);
}

#[test]
fn capability_from_all_checks() {
    assert_eq!(capability::input_capability(InputCapability::Yes, None, InputCapability::No), InputCapability::Yes);
    assert_eq!(capability::input_capability(InputCapability::No, None, InputCapability::Unknown), InputCapability::Unknown);
    assert_eq!(
        capability::input_capability(InputCapability::Unknown, Some(element(Some(50033))), InputCapability::No),
        InputCapability::No
    );
    assert_eq!(
        capability::input_capability(InputCapability::Unknown, Some(element(Some(50004))), InputCapability::No),
        InputCapability::Yes
    );
}

#[test]
fn win32_check() {
    let caret = GuiThreadState { caret_window: true, caret_active: false };
    let blinking = GuiThreadState { caret_window: false, caret_active: true };
    let idle = GuiThreadState { caret_window: false, caret_active: false };
    assert_eq!(win32_input_capability(false, Some(caret), true), InputCapability::No);
    assert_eq!(win32_input_capability(true, Some(caret), false), InputCapability::Yes);
    assert_eq!(win32_input_capability(true, Some(blinking), false), InputCapability::Yes);
    assert_eq!(win32_input_capability(true, None, true), InputCapability::Yes);
    assert_eq!(win32_input_capability(true, Some(idle), false), InputCapability::Unknown);
    assert_eq!(win32_input_capability(true, None, false), InputCapability::Unknown);
    assert_eq!(InputCapability::new(), InputCapability::Unknown);
    assert_eq!(InputCapability::default(), InputCapability::Unknown);
}
