use input_mode_viewer::capability::InputCapability;
use input_mode_viewer::common::{Point, Rect, RenderingQuality, WindowPos, WindowRole};
use input_mode_viewer::events::{
    debounce_passed, find_element, focus_should_notify, is_config_change, is_ime_key,
    keyboard_should_notify, mouse_should_notify, tray_command, tray_icon, CachedElement,
    CapMonitor, FsEventKind, ModeMonitor, ModeStep, TrayCommand, EVENT_OBJECT_FOCUS,
    foreground_should_notify, key_down_should_notify, mouse_down_should_notify,
    EVENT_SYSTEM_FOREGROUND, WM_KEYDOWN, WM_LBUTTONDOWN,
    VK_CAPITAL, VK_KANJI, WM_KEYUP, WM_LBUTTONUP,
};
use input_mode_viewer::events::{SaveEvent, SaveQueue, SaveStep, SAVE_DEBOUNCE_MS};
use input_mode_viewer::privilege::admin_setting_after;
use input_mode_viewer::icon::{decode_to_rgba, icon_from_decoded, IconError};
use input_mode_viewer::layout::{
    needs_frame, update_position, FixedFrame, OverlayMove, StoredPositions,
    fixed_position, floating_target, prediction_velocity, screen_relative, VirtualScreen,
};
use input_mode_viewer::privilege::{
    admin_launch_action, delete_task_outcome, parse_launch_args, parse_u32,
    shell_execute_succeeded, startup_task, AdminLaunch, DeleteOutcome, LaunchMode, StartupTask,
    HRESULT_FILE_NOT_FOUND,
};
use input_mode_viewer::render::{alpha_mode_for, buffer_extent, swap_chain_width, AlphaMode, AlphaState};
use input_mode_viewer::text::InputMode;
use input_mode_viewer::window_style::{overlay_ex_style, popup_style, OVERLAY_EX_STYLE, OVERLAY_STYLE};
use input_mode_viewer::tracking::{
    timer_interval, ControlAction, ControlMessage, Tracker, WaitMode, INTERVAL_120HZ,
    INTERVAL_480HZ, INTERVAL_60HZ,
};

fn png_bytes(width: u32, height: u32) -> Vec<u8> {
    let img = image::RgbaImage::from_pixel(width, height, image::Rgba([10, 20, 30, 255]));
    let mut out = std::io::Cursor::new(Vec::new());
    image::DynamicImage::ImageRgba8(img)
        .write_to(&mut out, image::ImageFormat::Png)
        .unwrap();
    out.into_inner()
}

#[test]
fn fixed_window_positions() {
    let work = Rect { left: 0, top: 0, right: 1920, bottom: 1040 };
    let top = fixed_position(work, WindowPos::Top, 200, 50, 20);
    assert_eq!((top.x, top.y), (860, 20));
    let br = fixed_position(work, WindowPos::BottomRight, 200, 50, 20);
    assert_eq!((br.x, br.y), (1700, 970));
    let cl = fixed_position(work, WindowPos::CenterLeft, 200, 50, 20);
    assert_eq!((cl.x, cl.y), (20, 495));
}

#[test]
fn centred_window_on_a_monitor_left_of_the_primary() {
    let work = Rect { left: -1920, top: 0, right: 0, bottom: 1080 };
    let c = fixed_position(work, WindowPos::Center, 101, 51, 20);
    assert_eq!((c.x, c.y), (-1011, 514));
}

#[test]
fn floating_window_follows_the_mouse() {
    let vs = VirtualScreen::new(-1920, 0, 3840, 1080);
    assert_eq!(vs, VirtualScreen { x: -1920, y: 0, cx: 3840, cy: 1080 });
    let p = floating_target(Point { x: 100, y: 200 }, vs, Point { x: 20, y: 20 });
    assert_eq!((p.x, p.y), (2040, 220));
    let r = screen_relative(Point { x: 100, y: 50 }, vs);
    assert_eq!((r.x, r.y), (2020, 50));
}

#[test]
fn small_motions_are_not_extrapolated() {
    assert_eq!(prediction_velocity(Point { x: 10, y: 10 }, 9, 10, 2), None);
    assert_eq!(prediction_velocity(Point { x: 13, y: 14 }, 10, 10, 2), Some((3, 4)));
    assert_eq!(prediction_velocity(Point { x: 8, y: 10 }, 10, 10, 2), Some((-2, 0)));
}

#[test]
fn timer_intervals() {
    assert_eq!(timer_interval(true, WindowRole::Floating, RenderingQuality::Ultra), INTERVAL_480HZ);
    assert_eq!(timer_interval(true, WindowRole::Floating, RenderingQuality::Balanced), INTERVAL_120HZ);
    assert_eq!(timer_interval(true, WindowRole::Fixed, RenderingQuality::Ultra), INTERVAL_60HZ);
    assert_eq!(timer_interval(false, WindowRole::Floating, RenderingQuality::Ultra), INTERVAL_60HZ);
    assert_eq!(INTERVAL_480HZ, -20_833);
}

#[test]
fn tracker_follows_and_rests() {
    let mut t = Tracker::new(1000);
    assert_eq!(t.wait_mode(false), WaitMode::Idle);
    assert_eq!(t.wait_mode(true), WaitMode::IdleWithMouse);
    let p = Point { x: 5, y: 5 };
    let a = t.after_wake(true, false, p, 1100, WindowRole::Floating, RenderingQuality::Balanced);
    assert!(a.reposition);
    assert_eq!(a.timer, Some(INTERVAL_120HZ));
    assert_eq!(t.wait_mode(true), WaitMode::Tracking);
    let a = t.after_wake(true, false, p, 3000, WindowRole::Floating, RenderingQuality::Balanced);
    assert!(!a.reposition);
    assert_eq!(a.timer, Some(INTERVAL_120HZ));
    let a = t.after_wake(true, false, p, 3101, WindowRole::Floating, RenderingQuality::Balanced);
    assert_eq!(a.timer, None);
    assert!(!t.is_tracking);
    let a = t.after_wake(true, true, p, 3200, WindowRole::Fixed, RenderingQuality::Balanced);
    assert!(!a.reposition);
    assert_eq!(a.timer, Some(INTERVAL_60HZ));
    let a = t.after_wake(false, true, Point { x: 9, y: 9 }, 3300, WindowRole::Fixed, RenderingQuality::Ultra);
    assert!(!a.reposition);
    assert_eq!(a.timer, None);
    assert!(!t.is_tracking);
}

#[test]
fn control_messages() {
    let mut t = Tracker::new(0);
    assert_eq!(t.on_control(ControlMessage::Terminate), ControlAction::Stop);
    assert_eq!(t.on_control(ControlMessage::Refresh), ControlAction::Reposition);
    assert_eq!(t.on_control(ControlMessage::ResetPosition), ControlAction::Reposition);
}

#[test]
fn alpha_mode_requests() {
    assert_eq!(alpha_mode_for(true), AlphaMode::Premultiplied);
    assert_eq!(alpha_mode_for(false), AlphaMode::Ignore);
    let mut s = AlphaState::new(false);
    assert_eq!(s.take_pending(), Some(AlphaMode::Ignore));
    assert_eq!(s.take_pending(), None);
    s.request_alpha_mode(false);
    assert_eq!(s.pending, None);
    s.request_alpha_mode(true);
    assert_eq!(s.take_pending(), Some(AlphaMode::Premultiplied));
    s.recreated(AlphaMode::Premultiplied);
    s.request_alpha_mode(true);
    assert_eq!(s.pending, None);
}

#[test]
fn swap_chain_sizes() {
    assert_eq!(buffer_extent(0, 5), None);
    assert_eq!(buffer_extent(5, 0), None);
    assert_eq!(buffer_extent(10, 20), Some((20, 20)));
    assert_eq!(buffer_extent(30, 20), Some((30, 20)));
    assert_eq!(swap_chain_width(10, 20), 20);
    assert_eq!(swap_chain_width(40, 20), 40);
}

#[test]
fn hook_filters() {
    assert!(is_ime_key(VK_KANJI));
    assert!(is_ime_key(VK_CAPITAL));
    assert!(!is_ime_key(0x41));
    assert!(keyboard_should_notify(0, WM_KEYUP, VK_KANJI));
    assert!(!keyboard_should_notify(-1, WM_KEYUP, VK_KANJI));
    assert!(!keyboard_should_notify(0, 0x0100, VK_KANJI));
    assert!(mouse_should_notify(0, WM_LBUTTONUP));
    assert!(!mouse_should_notify(0, 0x0201));
    assert!(focus_should_notify(EVENT_OBJECT_FOCUS));
    assert!(!focus_should_notify(0x800b));
}

#[test]
fn tray_commands() {
    assert_eq!(tray_command("Quit"), TrayCommand::Quit);
    assert_eq!(tray_command("Restart"), TrayCommand::Restart);
    assert_eq!(tray_command("Setting"), TrayCommand::Setting);
    assert_eq!(tray_command("quit"), TrayCommand::Ignore);
}

#[test]
fn tray_content() {
    let plan = tray_icon(&png_bytes(3, 2)).unwrap();
    assert_eq!(
        plan.entries,
        vec![("Setting", "Setting", true), ("Restart", "Restart", true), ("Quit", "Quit", true)]
    );
    assert_eq!(plan.tooltip, "Input Mode Viewer");
    assert_eq!((plan.icon.width, plan.icon.height), (3, 2));
    assert!(tray_icon(b"not an image").is_err());
    assert!(matches!(tray_icon(&[]), Err(IconError::Decode)));
}

#[test]
fn icon_decoding() {
    let icon = decode_to_rgba(&png_bytes(2, 1)).unwrap();
    assert_eq!(icon.width, 2);
    assert_eq!(icon.height, 1);
    assert_eq!(icon.rgba, vec![10, 20, 30, 255, 10, 20, 30, 255]);
    assert_eq!(decode_to_rgba(&[0u8, 1, 2, 3]).err(), Some(IconError::Decode));
    assert_eq!(decode_to_rgba(&[]).err(), Some(IconError::Decode));
    let wide = decode_to_rgba(&png_bytes(5, 3)).unwrap();
    assert_eq!(wide.rgba.len(), 4 * 5 * 3);
    assert_eq!(icon_from_decoded(None).err(), Some(IconError::Decode));
    let raw = icon_from_decoded(Some((vec![1, 2, 3, 4], 1, 1))).unwrap();
    assert_eq!(raw.rgba, vec![1, 2, 3, 4]);
}

#[test]
fn config_file_events() {
    let names = vec![None, Some("config.toml".to_string())];
    assert!(is_config_change(FsEventKind::Modify, &names));
    assert!(is_config_change(FsEventKind::Create, &names));
    assert!(!is_config_change(FsEventKind::Other, &names));
    assert!(!is_config_change(FsEventKind::Modify, &vec![Some("config.toml.bak".to_string())]));
    assert!(!is_config_change(FsEventKind::Modify, &Vec::new()));
}

#[test]
fn debounce() {
    assert!(!debounce_passed(199));
    assert!(debounce_passed(200));
}

#[test]
fn capability_reported_on_change() {
    let mut m = CapMonitor::new();
    assert_eq!(m.on_check(InputCapability::Yes), Some(InputCapability::Yes));
    assert_eq!(m.on_check(InputCapability::Yes), None);
    assert_eq!(m.on_check(InputCapability::Unknown), Some(InputCapability::Unknown));
}

#[test]
fn mode_reported_on_change_or_last_attempt() {
    let mut m = ModeMonitor::new();
    assert!(matches!(m.on_fetch(InputMode::Hiragana, 0), ModeStep::SendNew(InputMode::Hiragana)));
    assert!(matches!(m.on_fetch(InputMode::Hiragana, 0), ModeStep::Retry));
    assert!(matches!(m.on_fetch(InputMode::Hiragana, 1), ModeStep::Retry));
    assert!(matches!(m.on_fetch(InputMode::Hiragana, 2), ModeStep::SendRepeat(InputMode::Hiragana)));
    assert!(matches!(m.on_fetch(InputMode::Unknown, 0), ModeStep::SendNew(InputMode::Unknown)));
}

fn cached(id: Option<&str>, offscreen: Option<bool>, name: Option<&str>) -> CachedElement {
    CachedElement {
        automation_id: id.map(|s| s.to_string()),
        is_offscreen: offscreen,
        name: name.map(|s| s.to_string()),
    }
}

#[test]
fn indicator_element_search() {
    let els = vec![
        cached(Some("InnerTextBlock"), Some(true), Some("\u{e986}")),
        cached(Some("InnerTextBlock"), Some(false), Some("\u{e700}")),
        cached(None, Some(false), Some("\u{e986}")),
        cached(Some("InnerTextBlock"), Some(false), Some("ENG")),
        cached(Some("InnerTextBlock"), Some(false), Some("\u{e986}")),
    ];
    assert_eq!(find_element(&els, "InnerTextBlock"), Some(3));
    let hidden = vec![
        cached(Some("InnerTextBlock"), Some(true), Some("\u{e986}")),
        cached(Some("InnerTextBlock"), None, Some("\u{e986}")),
        cached(Some("InnerTextBlock"), Some(false), None),
    ];
    assert_eq!(find_element(&hidden, "InnerTextBlock"), None);
    assert_eq!(find_element(&els, "Other"), None);
}

#[test]
fn numbers_read_like_str_parse() {
    assert_eq!(parse_u32("42"), Some(42));
    assert_eq!(parse_u32("+7"), Some(7));
    assert_eq!(parse_u32("007"), Some(7));
    assert_eq!(parse_u32("4294967295"), Some(u32::MAX));
    assert_eq!(parse_u32("4294967296"), None);
    assert_eq!(parse_u32("99999999999"), None);
    assert_eq!(parse_u32(""), None);
    assert_eq!(parse_u32("+"), None);
    assert_eq!(parse_u32("-1"), None);
    assert_eq!(parse_u32("12a"), None);
    assert_eq!(parse_u32(" 1"), None);
    for s in ["0", "1", "65535", "123456789", "+0", "x", "1_000"] {
        assert_eq!(parse_u32(s), s.parse::<u32>().ok());
    }
}

fn args(items: &[&str]) -> Vec<String> {
    items.iter().map(|s| s.to_string()).collect()
}

#[test]
fn launch_arguments() {
    assert_eq!(parse_launch_args(&args(&["app"])), LaunchMode::Main);
    assert_eq!(parse_launch_args(&args(&["app", "--parent-pid", "5"])), LaunchMode::Main);
    assert_eq!(parse_launch_args(&args(&["app", "--ui"])), LaunchMode::Ui { parent_pid: None });
    assert_eq!(
        parse_launch_args(&args(&["app", "--ui", "--parent-pid", "123"])),
        LaunchMode::Ui { parent_pid: Some(123) }
    );
    assert_eq!(
        parse_launch_args(&args(&["app", "--ui", "--parent-pid"])),
        LaunchMode::Ui { parent_pid: None }
    );
    assert_eq!(
        parse_launch_args(&args(&["app", "--ui", "--parent-pid", "x", "--parent-pid", "9"])),
        LaunchMode::Ui { parent_pid: None }
    );
    assert_eq!(
        parse_launch_args(&args(&["app", "--ui", "--parent-pid", "1", "--parent-pid", "2"])),
        LaunchMode::Ui { parent_pid: Some(1) }
    );
}

#[test]
fn startup_decisions() {
    assert_eq!(startup_task(true, true), StartupTask::Register { admin_required: true });
    assert_eq!(startup_task(true, false), StartupTask::Register { admin_required: false });
    assert_eq!(startup_task(false, true), StartupTask::Unregister);
    assert_eq!(admin_launch_action(false, true), AdminLaunch::SyncConfig);
    assert_eq!(admin_launch_action(true, true), AdminLaunch::AlreadyAdmin);
    assert_eq!(admin_launch_action(true, false), AdminLaunch::Elevate);
    assert_eq!(admin_launch_action(false, false), AdminLaunch::NormalUser);
    assert!(shell_execute_succeeded(33));
    assert!(!shell_execute_succeeded(32));
    assert!(!shell_execute_succeeded(2));
}

#[test]
fn task_deletion_outcomes() {
    assert_eq!(delete_task_outcome(None), DeleteOutcome::Deleted);
    assert_eq!(delete_task_outcome(Some(HRESULT_FILE_NOT_FOUND)), DeleteOutcome::NotRegistered);
    assert_eq!(delete_task_outcome(Some(-1)), DeleteOutcome::Failed { code: -1 });
    assert_eq!(HRESULT_FILE_NOT_FOUND, 0x80070002u32 as i32);
}

#[test]
fn admin_setting_after_start() {
    assert_eq!(admin_setting_after(AdminLaunch::SyncConfig, None), Some(true));
    assert_eq!(admin_setting_after(AdminLaunch::Elevate, Some(42)), None);
    assert_eq!(admin_setting_after(AdminLaunch::Elevate, Some(5)), Some(false));
    assert_eq!(admin_setting_after(AdminLaunch::AlreadyAdmin, Some(5)), None);
    assert_eq!(admin_setting_after(AdminLaunch::NormalUser, None), None);
}

#[test]
fn settings_saver_writes_the_latest_after_a_quiet_wait() {
    let mut q: SaveQueue<u32> = SaveQueue::new();
    assert_eq!(q.wait_ms(), None);
    assert!(matches!(q.on_event(SaveEvent::Received(1)), SaveStep::Wait));
    assert_eq!(q.wait_ms(), Some(SAVE_DEBOUNCE_MS));
    assert!(matches!(q.on_event(SaveEvent::Received(2)), SaveStep::Wait));
    assert!(matches!(q.on_event(SaveEvent::Timeout), SaveStep::Save(2)));
    assert!(matches!(q.on_event(SaveEvent::Timeout), SaveStep::Wait));
    assert!(matches!(q.on_event(SaveEvent::Disconnected), SaveStep::Stop));
}

#[test]
fn press_hook_filters() {
    assert!(key_down_should_notify(0, WM_KEYDOWN, VK_KANJI));
    assert!(!key_down_should_notify(0, WM_KEYUP, VK_KANJI));
    assert!(!key_down_should_notify(0, WM_KEYDOWN, 0x41));
    assert!(mouse_down_should_notify(0, WM_LBUTTONDOWN));
    assert!(!mouse_down_should_notify(-1, WM_LBUTTONDOWN));
    assert!(foreground_should_notify(EVENT_SYSTEM_FOREGROUND, true));
    assert!(!foreground_should_notify(EVENT_SYSTEM_FOREGROUND, false));
    assert!(!foreground_should_notify(EVENT_OBJECT_FOCUS, true));
}

#[test]
fn decimal_forms_parse_back() {
    for n in [0u32, 7, 10, 99, 100, 65_536, 1_000_000_007, u32::MAX] {
        assert_eq!(parse_u32(&n.to_string()), Some(n));
    }
}

#[test]
fn failed_recreation_skips_the_frame() {
    let mut s = AlphaState::new(true);
    let due = s.take_pending().unwrap();
    assert!(!s.after_recreate(due, false));
    assert_eq!(s.current, AlphaMode::Premultiplied);
    assert_eq!(s.pending, None);
    s.recreated(AlphaMode::Ignore);
    s.request_alpha_mode(true);
    let due = s.take_pending().unwrap();
    assert!(!s.after_recreate(due, false));
    assert_eq!(s.current, AlphaMode::Ignore);
    s.request_alpha_mode(true);
    let due = s.take_pending().unwrap();
    assert!(s.after_recreate(due, true));
    assert_eq!(s.current, AlphaMode::Premultiplied);
    assert_eq!(s.pending, None);
}

#[test]
fn placing_by_role() {
    assert!(needs_frame(WindowRole::Fixed));
    assert!(!needs_frame(WindowRole::Floating));
    let vs = VirtualScreen::new(-1920, 0, 3840, 1080);
    let start = StoredPositions { floating: Point { x: 1, y: 1 }, fixed: Point { x: 2, y: 2 } };
    let mut stored = start;
    let cur = Point { x: 100, y: 200 };
    let m = update_position(&mut stored, WindowRole::Floating, cur, vs, Point { x: 20, y: 20 }, None);
    assert_eq!(m, Some(OverlayMove::Track(Point { x: 2040, y: 220 })));
    assert_eq!(stored, StoredPositions { floating: cur, fixed: start.fixed });
    let frame = FixedFrame {
        work: Rect { left: 0, top: 0, right: 1920, bottom: 1040 },
        pos: WindowPos::Top,
        width: 200,
        height: 50,
        margin: 20,
    };
    let mut stored = start;
    let m = update_position(&mut stored, WindowRole::Fixed, cur, vs, Point { x: 20, y: 20 }, Some(frame));
    assert_eq!(m, Some(OverlayMove::Place(Point { x: 2780, y: 20 })));
    assert_eq!(stored, StoredPositions { floating: start.floating, fixed: Point { x: 860, y: 20 } });
    let mut stored = start;
    assert_eq!(update_position(&mut stored, WindowRole::Fixed, cur, vs, Point { x: 0, y: 0 }, None), None);
    assert_eq!(stored, start);
}

#[test]
fn overlay_style_bits() {
    assert_eq!(popup_style(0), OVERLAY_STYLE);
    assert_eq!(overlay_ex_style(0), OVERLAY_EX_STYLE);
    assert_eq!(popup_style(0x00CF_0000), 0x900B_0000);
    assert_eq!(overlay_ex_style(0x0000_0100), 0x0828_01A8);
}
