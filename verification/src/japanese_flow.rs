//! The overlay flow built on the Japanese modes: which focused controls take
//! text, when a reading is shown, what is sent on to the overlay, and how
//! the overlay fades in and out.
use vstd::prelude::*;
use crate::capability::{
    FocusedElement,
    InputCapability,
    UIA_CUSTOM_CONTROL_TYPE_ID,
    UIA_DOCUMENT_CONTROL_TYPE_ID,
    UIA_EDIT_CONTROL_TYPE_ID,
    UIA_GROUP_CONTROL_TYPE_ID,
    UIA_PANE_CONTROL_TYPE_ID,
    UIA_WINDOW_CONTROL_TYPE_ID,
};
use crate::common::str_eq;
use crate::events::CachedElement;
use crate::japanese::{InputMode, spec_from_glyph, spec_ime_status, get_ime_status_of};

verus! {

/// The capability that the live UI Automation check gives: `focused` is
/// what is known of the focused element (`None` when none could be had)
/// and `win32` the Win32 check used where UI Automation cannot tell. An
/// element with a text pattern takes text unless it is read-only; an edit
/// control or document does when writable; a custom control or window does
/// when writable under the I-beam; any other control cannot be told under
/// the I-beam and takes no text elsewhere.
pub open spec fn spec_text_input_capability(
    focused: Option<FocusedElement>,
    win32: InputCapability,
) -> InputCapability {
    match focused {
        None => win32,
        Some(el) => if el.enabled == Some(false) {
            InputCapability::No
        } else if el.has_text_pattern {
            if !el.read_only {
                InputCapability::Yes
            } else {
                InputCapability::No
            }
        } else {
            match el.control_type {
                None => InputCapability::No,
                Some(id) => if id == UIA_EDIT_CONTROL_TYPE_ID || id == UIA_DOCUMENT_CONTROL_TYPE_ID {
                    if !el.read_only {
                        InputCapability::Yes
                    } else {
                        win32
                    }
                } else if id == UIA_CUSTOM_CONTROL_TYPE_ID || id == UIA_WINDOW_CONTROL_TYPE_ID {
                    if !el.read_only && el.cursor_ibeam {
                        InputCapability::Yes
                    } else {
                        win32
                    }
                } else if el.cursor_ibeam {
                    InputCapability::Unknown
                } else {
                    InputCapability::No
                },
            }
        },
    }
}

/// Whether the focused control takes text, from the live UI Automation
/// properties.
pub fn text_input_capability(focused: &Option<FocusedElement>, win32: InputCapability) -> (r:
    InputCapability)
    ensures
        r == spec_text_input_capability(*focused, win32),
{
    let el = match focused {
        None => return win32,
        Some(el) => el,
    };
    if el.enabled == Some(false) {
        return InputCapability::No;
    }
    if el.has_text_pattern {
        if !el.read_only {
            return InputCapability::Yes;
        }
        return InputCapability::No;
    }
    let id = match el.control_type {
        None => return InputCapability::No,
        Some(id) => id,
    };
    if id == UIA_EDIT_CONTROL_TYPE_ID || id == UIA_DOCUMENT_CONTROL_TYPE_ID {
        if !el.read_only {
            return InputCapability::Yes;
        }
    } else if id == UIA_CUSTOM_CONTROL_TYPE_ID || id == UIA_WINDOW_CONTROL_TYPE_ID {
        if !el.read_only && el.cursor_ibeam {
            return InputCapability::Yes;
        }
    } else {
        if el.cursor_ibeam {
            return InputCapability::Unknown;
        } else {
            return InputCapability::No;
        }
    }
    win32
}

/// The capability that the cached UI Automation check gives: a disabled
/// element, or one whose type cannot be read, takes no text; an edit
/// control does when writable; a pane, group, custom control or window does
/// when writable and under the I-beam or with a text pattern; any other
/// control cannot be told under the I-beam. What cannot be told is left to
/// the Win32 check `win32`, as is a missing focused element.
pub open spec fn spec_cached_capability(
    focused: Option<FocusedElement>,
    win32: InputCapability,
) -> InputCapability {
    match focused {
        None => win32,
        Some(el) => if el.enabled == Some(false) {
            InputCapability::No
        } else {
            match el.control_type {
                None => InputCapability::No,
                Some(id) => {
                    let cap = if id == UIA_EDIT_CONTROL_TYPE_ID {
                        if !el.read_only {
                            InputCapability::Yes
                        } else {
                            InputCapability::No
                        }
                    } else if id == UIA_PANE_CONTROL_TYPE_ID || id == UIA_GROUP_CONTROL_TYPE_ID || id
                        == UIA_CUSTOM_CONTROL_TYPE_ID || id == UIA_WINDOW_CONTROL_TYPE_ID {
                        if !el.read_only && (el.cursor_ibeam || el.has_text_pattern) {
                            InputCapability::Yes
                        } else {
                            InputCapability::No
                        }
                    } else if el.cursor_ibeam {
                        InputCapability::Unknown
                    } else {
                        InputCapability::No
                    };
                    if cap == InputCapability::Unknown {
                        win32
                    } else {
                        cap
                    }
                },
            }
        },
    }
}

/// Whether the focused control takes text, from the cached UI Automation
/// properties.
pub fn input_capability(focused: &Option<FocusedElement>, win32: InputCapability) -> (r:
    InputCapability)
    ensures
        r == spec_cached_capability(*focused, win32),
{
    let el = match focused {
        None => return win32,
        Some(el) => el,
    };
    if el.enabled == Some(false) {
        return InputCapability::No;
    }
    let id = match el.control_type {
        None => return InputCapability::No,
        Some(id) => id,
    };
    let cap = if id == UIA_EDIT_CONTROL_TYPE_ID {
        if !el.read_only {
            InputCapability::Yes
        } else {
            InputCapability::No
        }
    } else if id == UIA_PANE_CONTROL_TYPE_ID || id == UIA_GROUP_CONTROL_TYPE_ID || id
        == UIA_CUSTOM_CONTROL_TYPE_ID || id == UIA_WINDOW_CONTROL_TYPE_ID {
        if !el.read_only && (el.cursor_ibeam || el.has_text_pattern) {
            InputCapability::Yes
        } else {
            InputCapability::No
        }
    } else if el.cursor_ibeam {
        InputCapability::Unknown
    } else {
        InputCapability::No
    };
    if cap == InputCapability::Unknown {
        return win32;
    }
    cap
}

/// Whether a cached taskbar element is the indicator for the Japanese
/// modes: its automation id is `id`, it is on screen, and its name is one
/// of the mode glyphs.
pub open spec fn is_japanese_indicator(el: CachedElement, id: Seq<char>) -> bool {
    &&& el.automation_id matches Some(a) && a@ == id
    &&& el.is_offscreen == Some(false)
    &&& el.name matches Some(n) && spec_from_glyph(n@) != InputMode::Unknown
}

/// The index of the first element of `elements` that is the indicator with
/// automation id `id`, if any.
pub fn find_indicator(elements: &Vec<CachedElement>, id: &str) -> (r: Option<usize>)
    ensures
        match r {
            Some(i) => i < elements.len() && is_japanese_indicator(elements@[i as int], id@)
                && forall|k: int| 0 <= k < i ==> !is_japanese_indicator(#[trigger] elements@[k], id@),
            None => forall|k: int|
                0 <= k < elements.len() ==> !is_japanese_indicator(#[trigger] elements@[k], id@),
        },
{
    let mut i: usize = 0;
    while i < elements.len()
        invariant
            i <= elements.len(),
            forall|k: int| 0 <= k < i ==> !is_japanese_indicator(#[trigger] elements@[k], id@),
        decreases elements.len() - i,
    {
        let el = &elements[i];
        let id_ok = match &el.automation_id {
            Some(a) => str_eq(a.as_str(), id),
            None => false,
        };
        let on_screen = el.is_offscreen == Some(false);
        let known = match &el.name {
            Some(n) => InputMode::from_glyph(n.as_str()) != InputMode::Unknown,
            None => false,
        };
        if id_ok && on_screen && known {
            return Some(i);
        }
        i += 1;
    }
    None
}

/// Whether element `i` is the first indicator with automation id `id`.
pub open spec fn is_first_indicator(s: Seq<CachedElement>, id: Seq<char>, i: int) -> bool {
    &&& 0 <= i < s.len()
    &&& is_japanese_indicator(s[i], id)
    &&& forall|k: int| 0 <= k < i ==> !is_japanese_indicator(#[trigger] s[k], id)
}

/// The mode shown by the first indicator with automation id `target_id`,
/// or `Unknown` when there is none.
pub fn find_id(elements: &Vec<CachedElement>, target_id: &str) -> (r: InputMode)
    ensures
        (forall|k: int| 0 <= k < elements.len() ==> !is_japanese_indicator(#[trigger] elements@[k], target_id@))
            ==> r == InputMode::Unknown,
        forall|i: int| #[trigger]
            is_first_indicator(elements@, target_id@, i) ==> (elements@[i].name matches Some(n)
                && r == spec_from_glyph(n@)),
{
    match find_indicator(elements, target_id) {
        Some(i) => {
            proof {
                assert forall|j: int| #[trigger] is_first_indicator(elements@, target_id@, j) implies j
                    == i by {
                    if j < i {
                        assert(!is_japanese_indicator(elements@[j], target_id@));
                    } else if j > i {
                        assert(!is_japanese_indicator(elements@[i as int], target_id@));
                    }
                }
            }
            match &elements[i].name {
                Some(n) => InputMode::from_glyph(n.as_str()),
                None => InputMode::Unknown,
            }
        },
        None => InputMode::Unknown,
    }
}

/// Whether a reading is shown: always in a text field, never where no text
/// can be typed, and only with the IME on where that cannot be told.
pub open spec fn spec_should_show(cap: InputCapability, ime_on: bool) -> bool {
    match cap {
        InputCapability::Yes => true,
        InputCapability::No => false,
        InputCapability::Unknown => ime_on,
    }
}

/// Whether a reading is shown.
pub fn should_show(cap: InputCapability, ime_on: bool) -> (r: bool)
    ensures
        r == spec_should_show(cap, ime_on),
{
    match cap {
        InputCapability::Yes => true,
        InputCapability::No => false,
        InputCapability::Unknown => ime_on,
    }
}

/// What one reading of the taskbar does to the last mode sent, `last`: the
/// mode sent, if any, and the new last mode. A shown mode is sent when it
/// changed or the user just acted; once a reading is not shown, `Unknown`
/// is sent a single time to hide the overlay.
pub open spec fn spec_mode_feed(
    last: InputMode,
    mode: InputMode,
    cap: InputCapability,
    interaction: bool,
) -> (Option<InputMode>, InputMode) {
    if spec_should_show(cap, !(mode is HalfAlpha)) {
        if mode != last || interaction {
            (Some(mode), mode)
        } else {
            (None, last)
        }
    } else if last != InputMode::Unknown {
        (Some(InputMode::Unknown), InputMode::Unknown)
    } else {
        (None, last)
    }
}

/// The last mode sent to the overlay.
#[derive(Clone, Copy, Debug, PartialEq, Eq, Structural)]
pub struct ModeFeed {
    pub last: InputMode,
}

impl ModeFeed {
    /// Nothing has been sent yet.
    pub fn new() -> (r: Self)
        ensures
            r.last == InputMode::Unknown,
    {
        ModeFeed { last: InputMode::new() }
    }

    /// Handles a reading `mode` of the taskbar, with the focused control's
    /// capability `cap`; `interaction` tells whether the user just acted.
    /// Returns the mode to send to the overlay, if any.
    pub fn on_reading(&mut self, mode: InputMode, cap: InputCapability, interaction: bool) -> (r:
        Option<InputMode>)
        ensures
            (r, final(self).last) == spec_mode_feed(old(self).last, mode, cap, interaction),
    {
        if should_show(cap, mode.is_on()) {
            if mode != self.last || interaction {
                self.last = mode;
                Some(mode)
            } else {
                None
            }
        } else if self.last != InputMode::Unknown {
            self.last = InputMode::Unknown;
            Some(InputMode::Unknown)
        } else {
            None
        }
    }
}

/// Without a change and without the user acting, a second identical
/// reading sends nothing and changes nothing.
pub proof fn law_mode_feed_quiet_on_repeat(last: InputMode, mode: InputMode, cap: InputCapability)
    ensures
        ({
            let first = spec_mode_feed(last, mode, cap, false);
            let second = spec_mode_feed(first.1, mode, cap, false);
            second.0 is None && second.1 == first.1
        }),
{
}

/// The text shown for a glyph: the status of its first character, U+0000
/// for empty text.
pub open spec fn glyph_status(glyph: Seq<char>) -> (bool, Seq<char>) {
    spec_ime_status(if glyph.len() > 0 { glyph[0] } else { '\0' })
}

/// What one search for the taskbar glyph does to the last glyph shown,
/// `last` (empty when the overlay is hidden): the text sent, if any, and
/// the new last glyph. Nothing happens when no glyph was found; a shown
/// glyph's text is sent when the glyph changed or the user just acted; once
/// a glyph is not shown, empty text is sent a single time to hide the
/// overlay.
pub open spec fn spec_glyph_feed(
    last: Seq<char>,
    glyph: Option<Seq<char>>,
    cap: InputCapability,
    interaction: bool,
) -> (Option<Seq<char>>, Seq<char>) {
    match glyph {
        None => (None, last),
        Some(g) => if spec_should_show(cap, glyph_status(g).0) {
            if g != last || interaction {
                (Some(glyph_status(g).1), g)
            } else {
                (None, last)
            }
        } else if last.len() > 0 {
            (Some(Seq::empty()), Seq::empty())
        } else {
            (None, last)
        },
    }
}

/// The last glyph whose text was sent to the overlay; empty while hidden.
pub struct GlyphFeed {
    pub last_glyph: String,
}

impl GlyphFeed {
    /// Nothing has been shown yet.
    pub fn new() -> (r: Self)
        ensures
            r.last_glyph@ == Seq::<char>::empty(),
    {
        GlyphFeed { last_glyph: String::new() }
    }

    /// Handles the glyph found in the taskbar (`None` when none was), with
    /// the focused control's capability `cap`; `interaction` tells whether
    /// the user just acted. Returns the text to send to the overlay, if
    /// any.
    pub fn on_reading(&mut self, glyph: Option<String>, cap: InputCapability, interaction: bool) -> (r:
        Option<String>)
        ensures
            ({
                let expected = spec_glyph_feed(
                    old(self).last_glyph@,
                    match glyph {
                        Some(g) => Some(g@),
                        None => None,
                    },
                    cap,
                    interaction,
                );
                &&& final(self).last_glyph@ == expected.1
                &&& match r {
                    Some(t) => expected.0 == Some(t@),
                    None => expected.0 is None,
                }
            }),
    {
        let g = match glyph {
            None => return None,
            Some(g) => g,
        };
        let (on, text) = get_ime_status_of(&g);
        if should_show(cap, on) {
            if g != self.last_glyph || interaction {
                self.last_glyph = g;
                Some(text.to_owned())
            } else {
                None
            }
        } else if self.last_glyph.as_str().unicode_len() > 0 {
            self.last_glyph = String::new();
            Some(String::new())
        } else {
            None
        }
    }
}

/// Without a change and without the user acting, a second identical
/// search sends nothing and changes nothing.
pub proof fn law_glyph_feed_quiet_on_repeat(last: Seq<char>, glyph: Option<Seq<char>>, cap: InputCapability)
    ensures
        ({
            let first = spec_glyph_feed(last, glyph, cap, false);
            let second = spec_glyph_feed(first.1, glyph, cap, false);
            second.0 is None && second.1 == first.1
        }),
{
}

/// The last mode relayed from the taskbar's cached elements.
#[derive(Clone, Copy, Debug, PartialEq, Eq, Structural)]
pub struct ModeRelay {
    pub last_sent: InputMode,
}

impl ModeRelay {
    /// Nothing has been relayed yet.
    pub fn new() -> (r: Self)
        ensures
            r.last_sent == InputMode::Unknown,
    {
        ModeRelay { last_sent: InputMode::Unknown }
    }

    /// Handles the indicator's name read as a mode (`None` when the name
    /// could not be read, which forgets the last mode). Every reading is
    /// relayed, changed or not.
    pub fn on_reading(&mut self, mode: Option<InputMode>) -> (r: Option<InputMode>)
        ensures
            r == mode,
            final(self).last_sent == (match mode {
                Some(m) => m,
                None => InputMode::Unknown,
            }),
    {
        match mode {
            Some(current) => {
                if current != self.last_sent {
                    self.last_sent = current;
                    Some(current)
                } else {
                    Some(self.last_sent)
                }
            },
            None => {
                self.last_sent = InputMode::Unknown;
                None
            },
        }
    }
}

/// How long the popup stays after its last update, in milliseconds.
pub const POPUP_HIDE_MS: u64 = 2000;

/// The popup's text and the number of its updates; a hide timer that
/// finds the number changed belongs to an older update and does nothing.
pub struct Popup {
    pub text: String,
    pub display_id: i32,
}

impl Popup {
    /// A popup showing `text`, not yet updated.
    pub fn new(text: String) -> (r: Self)
        ensures
            r.text@ == text@,
            r.display_id == 0,
    {
        Popup { text, display_id: 0 }
    }

    /// Shows `new_text`: a different text replaces the old one and counts
    /// as a new update. Returns the update to hide after the wait.
    pub fn on_update(&mut self, new_text: String) -> (r: i32)
        ensures
            final(self).text@ == new_text@,
            final(self).display_id == (if old(self).text@ == new_text@ {
                old(self).display_id
            } else if old(self).display_id == i32::MAX {
                i32::MIN
            } else {
                (old(self).display_id + 1) as i32
            }),
            r == final(self).display_id,
    {
        if self.text != new_text {
            self.text = new_text;
            self.display_id = self.display_id.wrapping_add(1);
        }
        self.display_id
    }

    /// Whether the hide timer of update `id` hides the popup: only when no
    /// later update came.
    pub fn hide_due(&self, id: i32) -> (r: bool)
        ensures
            r == (self.display_id == id),
    {
        self.display_id == id
    }
}

/// A message from the watcher threads to the overlay.
#[derive(Clone, Copy, Debug, PartialEq, Eq, Structural)]
pub enum OverlayMessage {
    Cap(InputCapability),
    Mode(InputMode),
}

/// The overlay's fade: hidden, fading in, or shown.
#[derive(Clone, Copy, Debug, PartialEq, Eq, Structural)]
pub enum Fade {
    Hidden,
    FadeIn,
    Visible,
}

/// What a redraw does.
#[derive(Clone, Copy, Debug, PartialEq, Eq, Structural)]
pub enum RedrawStep {
    /// Draw, move the window off screen and make it transparent.
    Hide,
    /// Draw, start the fade-in and ask for another redraw.
    StartFade,
    /// Draw at the fade's opacity; ask for another redraw until `done`.
    Fade { done: bool },
    /// Draw and ask for another redraw.
    Steady,
}

/// Whether the overlay is drawn at a redraw: never where no text can be
/// typed, for any known mode in a text field, and with the IME on where
/// that cannot be told.
pub open spec fn spec_redraw_shows(cap: InputCapability, mode: InputMode) -> bool {
    match cap {
        InputCapability::No => false,
        InputCapability::Yes => mode != InputMode::Unknown,
        InputCapability::Unknown => !(mode is HalfAlpha),
    }
}

/// The overlay after a message: a capability is remembered; a mode is
/// remembered and makes the overlay follow the mouse unless the control
/// takes no text.
pub open spec fn spec_user_event(o: Overlay, msg: OverlayMessage) -> Overlay {
    match msg {
        OverlayMessage::Cap(c) => Overlay { last_cap: c, ..o },
        OverlayMessage::Mode(m) => Overlay {
            last_mode: m,
            is_visible: o.is_visible || o.last_cap != InputCapability::No,
            ..o
        },
    }
}

/// A redraw of the overlay `o`: what it does and the overlay after it. An
/// overlay that is not wanted is hidden and stops following the mouse; a
/// wanted one starts fading in when hidden, fades until `fade_done`, then
/// stays shown.
pub open spec fn spec_redraw(o: Overlay, fade_done: bool) -> (RedrawStep, Overlay) {
    if !spec_redraw_shows(o.last_cap, o.last_mode) {
        (RedrawStep::Hide, Overlay { show_state: Fade::Hidden, is_visible: false, ..o })
    } else {
        match o.show_state {
            Fade::Hidden => (RedrawStep::StartFade, Overlay { show_state: Fade::FadeIn, ..o }),
            Fade::FadeIn => (
                RedrawStep::Fade { done: fade_done },
                Overlay {
                    show_state: if fade_done {
                        Fade::Visible
                    } else {
                        Fade::FadeIn
                    },
                    ..o
                },
            ),
            Fade::Visible => (RedrawStep::Steady, o),
        }
    }
}

/// The overlay's state: the last capability and mode received, whether it
/// follows the mouse, and its fade.
#[derive(Clone, Copy, Debug, PartialEq, Eq, Structural)]
pub struct Overlay {
    pub last_cap: InputCapability,
    pub last_mode: InputMode,
    pub is_visible: bool,
    pub show_state: Fade,
}

impl Overlay {
    /// Hidden, with nothing known.
    pub fn new() -> (r: Self)
        ensures
            r == (Overlay {
                last_cap: InputCapability::Unknown,
                last_mode: InputMode::Unknown,
                is_visible: false,
                show_state: Fade::Hidden,
            }),
    {
        Overlay {
            last_cap: InputCapability::Unknown,
            last_mode: InputMode::Unknown,
            is_visible: false,
            show_state: Fade::Hidden,
        }
    }

    /// Takes a message: a capability is remembered; a mode is remembered
    /// and makes the overlay follow the mouse unless the control takes no
    /// text.
    pub fn user_event(&mut self, msg: OverlayMessage)
        ensures
            *final(self) == spec_user_event(*old(self), msg),
    {
        match msg {
            OverlayMessage::Cap(c) => {
                self.last_cap = c;
            },
            OverlayMessage::Mode(m) => {
                self.last_mode = m;
                if self.last_cap != InputCapability::No {
                    self.is_visible = true;
                }
            },
        }
    }

    /// Whether the event loop polls (to follow the mouse) rather than waits.
    pub fn polls(&self) -> (r: bool)
        ensures
            r == self.is_visible,
    {
        self.is_visible
    }

    /// Handles a redraw; `fade_done` tells whether the fade-in has run its
    /// whole duration.
    pub fn on_redraw(&mut self, fade_done: bool) -> (r: RedrawStep)
        ensures
            (r, *final(self)) == spec_redraw(*old(self), fade_done),
    {
        let shows = match self.last_cap {
            InputCapability::No => false,
            InputCapability::Yes => self.last_mode != InputMode::Unknown,
            InputCapability::Unknown => self.last_mode.is_on(),
        };
        if !shows {
            self.show_state = Fade::Hidden;
            self.is_visible = false;
            return RedrawStep::Hide;
        }
        match self.show_state {
            Fade::Hidden => {
                self.show_state = Fade::FadeIn;
                RedrawStep::StartFade
            },
            Fade::FadeIn => {
                if fade_done {
                    self.show_state = Fade::Visible;
                }
                RedrawStep::Fade { done: fade_done }
            },
            Fade::Visible => RedrawStep::Steady,
        }
    }
}

/// Once the overlay is wanted, redraws bring it from hidden to shown: the
/// first starts the fade, and the fade ends at the first redraw after its
/// duration; while it is not wanted, every redraw leaves it hidden.
pub proof fn law_fade_in_then_shown(o: Overlay)
    ensures
        spec_redraw_shows(o.last_cap, o.last_mode) && o.show_state == Fade::Hidden ==> {
            let first = spec_redraw(o, false);
            let second = spec_redraw(first.1, true);
            &&& first.0 == RedrawStep::StartFade
            &&& second.0 == (RedrawStep::Fade { done: true })
            &&& second.1.show_state == Fade::Visible
            &&& spec_redraw(second.1, false).0 == RedrawStep::Steady
        },
        !spec_redraw_shows(o.last_cap, o.last_mode) ==> {
            let first = spec_redraw(o, false);
            &&& first.1.show_state == Fade::Hidden
            &&& spec_redraw(first.1, true).0 == RedrawStep::Hide
        },
{
}

} // verus!
