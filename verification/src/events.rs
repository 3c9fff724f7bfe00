//! The event sources that ask for a new check of the input situation: the
//! system hooks, the tray menu, the settings file watcher, and the threads
//! that read the capability and the mode.
use vstd::prelude::*;
use crate::capability::InputCapability;
use crate::common::str_eq;
use crate::icon::{RawIcon, IconError, decoded_png_rgba8, decode_to_rgba};
use crate::text::{InputMode, InputModeView, spec_from_glyph};

verus! {

/// Virtual-key codes of the keys that switch input modes.
pub const VK_CAPITAL: u16 = 0x14;
pub const VK_IME_ON: u16 = 0x16;
pub const VK_KANJI: u16 = 0x19;
pub const VK_IME_OFF: u16 = 0x1a;
pub const VK_CONVERT: u16 = 0x1c;
pub const VK_NONCONVERT: u16 = 0x1d;
pub const VK_MODECHANGE: u16 = 0x1f;
pub const VK_OEM_AUTO: u16 = 0xf3;
pub const VK_OEM_ENLW: u16 = 0xf4;

/// Window messages and events that the hooks look at.
pub const WM_KEYUP: usize = 0x0101;
pub const WM_LBUTTONUP: usize = 0x0202;
pub const EVENT_OBJECT_FOCUS: u32 = 0x8005;
pub const WM_KEYDOWN: usize = 0x0100;
pub const WM_LBUTTONDOWN: usize = 0x0201;
pub const EVENT_SYSTEM_FOREGROUND: u32 = 0x0003;

/// Whether a key switches input modes: Kanji, OEM auto and OEM enlarge,
/// Caps Lock, Convert, Non-convert, Mode change, IME off and IME on.
pub open spec fn spec_is_ime_key(vk: u16) -> bool {
    vk == VK_KANJI || vk == VK_OEM_AUTO || vk == VK_OEM_ENLW || vk == VK_CAPITAL || vk
        == VK_CONVERT || vk == VK_NONCONVERT || vk == VK_MODECHANGE || vk == VK_IME_OFF || vk
        == VK_IME_ON
}

/// Whether a key switches input modes.
pub fn is_ime_key(vk: u16) -> (r: bool)
    ensures
        r == spec_is_ime_key(vk),
{
    vk == VK_KANJI || vk == VK_OEM_AUTO || vk == VK_OEM_ENLW || vk == VK_CAPITAL || vk
        == VK_CONVERT || vk == VK_NONCONVERT || vk == VK_MODECHANGE || vk == VK_IME_OFF || vk
        == VK_IME_ON
}

/// Whether the low-level keyboard hook asks for a check: a key that switches
/// input modes was released, in a call the hook is to process.
pub fn keyboard_should_notify(n_code: i32, w_param: usize, vk: u16) -> (r: bool)
    ensures
        r == (n_code >= 0 && w_param == WM_KEYUP && spec_is_ime_key(vk)),
{
    n_code >= 0 && w_param == WM_KEYUP && is_ime_key(vk)
}

/// Whether the low-level mouse hook asks for a check: the left button was
/// released.
pub fn mouse_should_notify(n_code: i32, w_param: usize) -> (r: bool)
    ensures
        r == (n_code >= 0 && w_param == WM_LBUTTONUP),
{
    n_code >= 0 && w_param == WM_LBUTTONUP
}

/// The same check on key presses, for the hook that reacts as soon as a
/// mode key goes down.
pub fn key_down_should_notify(n_code: i32, w_param: usize, vk: u16) -> (r: bool)
    ensures
        r == (n_code >= 0 && w_param == WM_KEYDOWN && spec_is_ime_key(vk)),
{
    n_code >= 0 && w_param == WM_KEYDOWN && is_ime_key(vk)
}

/// The same check on mouse presses: the left button went down.
pub fn mouse_down_should_notify(n_code: i32, w_param: usize) -> (r: bool)
    ensures
        r == (n_code >= 0 && w_param == WM_LBUTTONDOWN),
{
    n_code >= 0 && w_param == WM_LBUTTONDOWN
}

/// Whether the foreground hook asks for a check: another window, an actual
/// one, came to the foreground.
pub fn foreground_should_notify(event: u32, has_window: bool) -> (r: bool)
    ensures
        r == (event == EVENT_SYSTEM_FOREGROUND && has_window),
{
    event == EVENT_SYSTEM_FOREGROUND && has_window
}

/// Whether the window event hook asks for a check: the focus moved.
pub fn focus_should_notify(event: u32) -> (r: bool)
    ensures
        r == (event == EVENT_OBJECT_FOCUS),
{
    event == EVENT_OBJECT_FOCUS
}

/// Menu item ids of the tray icon.
pub const ID_QUIT: &'static str = "Quit";
pub const ID_SETTING: &'static str = "Setting";
pub const ID_RESTART: &'static str = "Restart";

/// What the tray shows: its menu entries (id, label, and whether the entry
/// can be chosen) in order, its tooltip, and its icon.
pub struct TrayPlan {
    pub entries: Vec<(&'static str, &'static str, bool)>,
    pub tooltip: &'static str,
    pub icon: RawIcon,
}

/// The tray menu: settings, restart and quit, each labelled by its id and
/// each enabled.
pub open spec fn tray_entries() -> Seq<(Seq<char>, Seq<char>, bool)> {
    seq![(ID_SETTING@, ID_SETTING@, true), (ID_RESTART@, ID_RESTART@, true), (ID_QUIT@, ID_QUIT@, true)]
}

/// The tray for the PNG icon image `bytes`: the menu of `tray_entries`, the
/// tooltip "Input Mode Viewer", and the decoded icon; an error when the
/// image cannot be decoded, as for empty bytes.
pub fn tray_icon(bytes: &[u8]) -> (r: Result<TrayPlan, IconError>)
    ensures
        match decoded_png_rgba8(bytes@) {
            Some((v, w, h)) => r matches Ok(p) && p.icon.rgba@ == v && p.icon.width == w
                && p.icon.height == h && p.tooltip@ == "Input Mode Viewer"@
                && p.entries@.map_values(|e: (&str, &str, bool)| (e.0@, e.1@, e.2)) == tray_entries(),
            None => r matches Err(e) && e == IconError::Decode,
        },
        r matches Ok(p) ==> p.icon.rgba@.len() == 4 * p.icon.width * p.icon.height,
        bytes@.len() == 0 ==> (r matches Err(e) && e == IconError::Decode),
{
    let mut entries: Vec<(&'static str, &'static str, bool)> = Vec::new();
    entries.push((ID_SETTING, ID_SETTING, true));
    entries.push((ID_RESTART, ID_RESTART, true));
    entries.push((ID_QUIT, ID_QUIT, true));
    let icon = match decode_to_rgba(bytes) {
        Ok(icon) => icon,
        Err(e) => return Err(e),
    };
    assert(entries@.map_values(|e: (&str, &str, bool)| (e.0@, e.1@, e.2)) =~= tray_entries());
    Ok(TrayPlan { entries, tooltip: "Input Mode Viewer", icon })
}

/// What a tray menu click asks for.
#[derive(Clone, Copy, Debug, PartialEq, Eq, Structural)]
pub enum TrayCommand {
    Quit,
    /// Restart without changing privileges.
    Restart,
    /// Open the settings screen.
    Setting,
    /// Not a known item.
    Ignore,
}

/// What the tray menu item `id` asks for.
pub fn tray_command(id: &str) -> (r: TrayCommand)
    ensures
        r == (if id@ == ID_QUIT@ {
            TrayCommand::Quit
        } else if id@ == ID_RESTART@ {
            TrayCommand::Restart
        } else if id@ == ID_SETTING@ {
            TrayCommand::Setting
        } else {
            TrayCommand::Ignore
        }),
{
    if str_eq(id, ID_QUIT) {
        TrayCommand::Quit
    } else if str_eq(id, ID_RESTART) {
        TrayCommand::Restart
    } else if str_eq(id, ID_SETTING) {
        TrayCommand::Setting
    } else {
        TrayCommand::Ignore
    }
}

/// The settings file's name.
pub const CONFIG_FILE_NAME: &'static str = "config.toml";

/// The kind of a file system event in the settings directory.
#[derive(Clone, Copy, Debug, PartialEq, Eq, Structural)]
pub enum FsEventKind {
    Create,
    Modify,
    Other,
}

/// Whether a path's last component is the settings file's name.
pub open spec fn is_config_name(n: Option<String>) -> bool {
    n matches Some(s) && s@ == CONFIG_FILE_NAME@
}

/// Whether a file system event means new settings: a file named
/// `config.toml` (`file_names` holds each path's last component) was
/// created or modified.
pub fn is_config_change(kind: FsEventKind, file_names: &Vec<Option<String>>) -> (r: bool)
    ensures
        r == ((kind == FsEventKind::Create || kind == FsEventKind::Modify) && exists|i: int|
            0 <= i < file_names.len() && #[trigger] is_config_name(file_names@[i])),
{
    let mut found = false;
    let mut i: usize = 0;
    while i < file_names.len()
        invariant
            i <= file_names.len(),
            found == exists|k: int| 0 <= k < i && #[trigger] is_config_name(file_names@[k]),
        decreases file_names.len() - i,
    {
        match &file_names[i] {
            Some(n) => {
                if str_eq(n.as_str(), CONFIG_FILE_NAME) {
                    found = true;
                }
            },
            None => {},
        }
        assert(found == exists|k: int| 0 <= k < i + 1 && #[trigger] is_config_name(file_names@[k]))
            by {
            if is_config_name(file_names@[i as int]) {
                assert(found);
            }
        }
        i += 1;
    }
    found && (kind == FsEventKind::Create || kind == FsEventKind::Modify)
}

/// The time between two checks of the same thread.
pub const DEBOUNCE_MS: u64 = 200;

/// Whether enough time passed since the last check for another one.
pub fn debounce_passed(elapsed_ms: u64) -> (r: bool)
    ensures
        r == (elapsed_ms >= DEBOUNCE_MS),
{
    elapsed_ms >= DEBOUNCE_MS
}

/// How long the settings saver waits for further changes before it writes.
pub const SAVE_DEBOUNCE_MS: u64 = 1000;

/// What reaches the settings saver.
pub enum SaveEvent<T> {
    /// New settings to save.
    Received(T),
    /// The wait ran out without new settings.
    Timeout,
    /// Nobody can send any more.
    Disconnected,
}

/// What the settings saver does next.
pub enum SaveStep<T> {
    /// Keep waiting.
    Wait,
    /// Write these settings.
    Save(T),
    /// End the saver.
    Stop,
}

/// The settings saver's memory: the settings received and not yet written.
pub struct SaveQueue<T> {
    pub pending: Option<T>,
}

impl<T> SaveQueue<T> {
    /// Nothing is pending.
    pub fn new() -> (r: Self)
        ensures
            r.pending is None,
    {
        SaveQueue { pending: None }
    }

    /// How long to wait for the next event: the debounce time while
    /// settings are pending, without limit otherwise.
    pub fn wait_ms(&self) -> (r: Option<u64>)
        ensures
            r == (if self.pending is Some {
                Some(SAVE_DEBOUNCE_MS)
            } else {
                None
            }),
    {
        if self.pending.is_some() {
            Some(SAVE_DEBOUNCE_MS)
        } else {
            None
        }
    }

    /// Handles an event: new settings replace the pending ones and restart
    /// the wait; a quiet wait writes the latest settings received, if any;
    /// a closed channel ends the saver.
    pub fn on_event(&mut self, ev: SaveEvent<T>) -> (r: SaveStep<T>)
        ensures
            match ev {
                SaveEvent::Received(c) => r is Wait && final(self).pending == Some(c),
                SaveEvent::Timeout => final(self).pending is None && match old(self).pending {
                    Some(c) => r == SaveStep::Save(c),
                    None => r is Wait,
                },
                SaveEvent::Disconnected => r is Stop && final(self).pending == old(self).pending,
            },
    {
        match ev {
            SaveEvent::Received(c) => {
                self.pending = Some(c);
                SaveStep::Wait
            },
            SaveEvent::Timeout => match self.pending.take() {
                Some(c) => SaveStep::Save(c),
                None => SaveStep::Wait,
            },
            SaveEvent::Disconnected => SaveStep::Stop,
        }
    }
}

/// The capability thread's memory: the capability it reported last.
#[derive(Clone, Copy, Debug, PartialEq, Eq, Structural)]
pub struct CapMonitor {
    pub cap: InputCapability,
}

impl CapMonitor {
    /// The memory at the thread's start: unknown.
    pub fn new() -> (r: Self)
        ensures
            r.cap == InputCapability::Unknown,
    {
        CapMonitor { cap: InputCapability::new() }
    }

    /// Records a checked capability; returns it to be reported when it
    /// differs from the last one.
    pub fn on_check(&mut self, cur: InputCapability) -> (r: Option<InputCapability>)
        ensures
            final(self).cap == cur,
            r == (if cur != old(self).cap {
                Some(cur)
            } else {
                None
            }),
    {
        let r = if self.cap != cur {
            Some(cur)
        } else {
            None
        };
        self.cap = cur;
        r
    }
}

/// How often the mode thread reads the taskbar after an event.
pub const MODE_ATTEMPTS: u32 = 3;

/// What the mode thread does after one reading.
#[derive(Debug)]
pub enum ModeStep {
    /// Report this new mode and stop reading.
    SendNew(InputMode),
    /// Report the unchanged mode (a key was pressed all the same) and stop.
    SendRepeat(InputMode),
    /// Read again after a short pause.
    Retry,
}

/// The mode thread's memory: the mode it reported last.
#[derive(Debug)]
pub struct ModeMonitor {
    pub mode: InputMode,
}

impl ModeMonitor {
    /// The memory at the thread's start: unknown.
    pub fn new() -> (r: Self)
        ensures
            r.mode@ == InputModeView::Unknown,
    {
        ModeMonitor { mode: InputMode::new() }
    }

    /// Handles the reading `fetched` of attempt `attempt` (counted from 0;
    /// a failed reading is unknown). Games switch modes late, so a reading
    /// equal to the last mode is repeated until the last attempt, which
    /// reports the mode anyway.
    pub fn on_fetch(&mut self, fetched: InputMode, attempt: u32) -> (r: ModeStep)
        ensures
            old(self).mode@ != fetched@ ==> (r matches ModeStep::SendNew(m) && m@ == fetched@
                && final(self).mode@ == fetched@),
            old(self).mode@ == fetched@ && attempt + 1 == MODE_ATTEMPTS ==> (r matches ModeStep::SendRepeat(
                m,
            ) && m@ == fetched@ && final(self).mode@ == old(self).mode@),
            old(self).mode@ == fetched@ && attempt + 1 != MODE_ATTEMPTS ==> (r is Retry
                && final(self).mode@ == old(self).mode@),
    {
        if !fetched.same_as(&self.mode) {
            let sent = fetched.duplicate();
            self.mode = fetched;
            ModeStep::SendNew(sent)
        } else if attempt == MODE_ATTEMPTS - 1 {
            ModeStep::SendRepeat(self.mode.duplicate())
        } else {
            ModeStep::Retry
        }
    }
}

/// What the cached UI Automation properties of a taskbar element hold;
/// `None` where a property could not be read.
pub struct CachedElement {
    pub automation_id: Option<String>,
    pub is_offscreen: Option<bool>,
    pub name: Option<String>,
}

/// Whether an element is the mode indicator: its automation id is `id`, it
/// is on screen, and its name reads as a mode other than unknown.
pub open spec fn is_indicator(el: CachedElement, id: Seq<char>) -> bool {
    &&& el.automation_id matches Some(a) && a@ == id
    &&& el.is_offscreen == Some(false)
    &&& el.name matches Some(n) && !(spec_from_glyph(n@) is Unknown)
}

/// The index of the first element of `elements` that is the mode
/// indicator with automation id `id`, if any.
pub fn find_element(elements: &Vec<CachedElement>, id: &str) -> (r: Option<usize>)
    ensures
        match r {
            Some(i) => i < elements.len() && is_indicator(elements@[i as int], id@) && forall|k: int|
                0 <= k < i ==> !is_indicator(#[trigger] elements@[k], id@),
            None => forall|k: int| 0 <= k < elements.len() ==> !is_indicator(#[trigger] elements@[k], id@),
        },
{
    let mut i: usize = 0;
    while i < elements.len()
        invariant
            i <= elements.len(),
            forall|k: int| 0 <= k < i ==> !is_indicator(#[trigger] elements@[k], id@),
        decreases elements.len() - i,
    {
        let el = &elements[i];
        let id_ok = match &el.automation_id {
            Some(a) => str_eq(a.as_str(), id),
            None => false,
        };
        let on_screen = el.is_offscreen == Some(false);
        let known = match &el.name {
            Some(n) => !InputMode::from_glyph(n.as_str()).is_unknown(),
            None => false,
        };
        if id_ok && on_screen && known {
            return Some(i);
        }
        i += 1;
    }
    None
}

} // verus!
