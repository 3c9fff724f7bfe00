//! Whether the focused control accepts text, decided from what UI Automation
//! and the Win32 GUI thread report about it.
use vstd::prelude::*;

verus! {

/// Whether the focused control accepts typed text.
#[derive(Clone, Copy, Debug, PartialEq, Eq, Structural)]
pub enum InputCapability {
    /// A text field: confirmed by UI Automation, or a caret is shown.
    Yes,
    /// Not a text field: a button, the desktop, a read-only control.
    No,
    /// Cannot be told.
    Unknown,
}

impl Default for InputCapability {
    fn default() -> (r: Self)
        ensures
            r == InputCapability::Unknown,
    {
        InputCapability::Unknown
    }
}

impl InputCapability {
    /// The capability before anything has been checked: unknown.
    pub fn new() -> (r: Self)
        ensures
            r == InputCapability::Unknown,
    {
        InputCapability::default()
    }
}

/// UI Automation control type ids.
pub const UIA_EDIT_CONTROL_TYPE_ID: i32 = 50004;
pub const UIA_CUSTOM_CONTROL_TYPE_ID: i32 = 50025;
pub const UIA_GROUP_CONTROL_TYPE_ID: i32 = 50026;
pub const UIA_DOCUMENT_CONTROL_TYPE_ID: i32 = 50030;
pub const UIA_WINDOW_CONTROL_TYPE_ID: i32 = 50032;
pub const UIA_PANE_CONTROL_TYPE_ID: i32 = 50033;

/// What UI Automation reports of the focused element.
#[derive(Clone, Copy, Debug, PartialEq, Eq, Structural)]
pub struct FocusedElement {
    /// Whether it is enabled; `None` when that could not be read.
    pub enabled: Option<bool>,
    /// Whether it offers the text or the text-edit pattern.
    pub has_text_pattern: bool,
    /// Its control type id; `None` when that could not be read.
    pub control_type: Option<i32>,
    /// Whether its value pattern reports it read-only (false without one).
    pub read_only: bool,
    /// Whether the mouse cursor is shown as the text I-beam.
    pub cursor_ibeam: bool,
}

/// What the focused element alone says: a disabled element, or one whose
/// type cannot be read, is no text field; an edit control is one unless it
/// is read-only; a pane, custom control or window is one when it is
/// writable and shows the I-beam or offers a text pattern, and cannot be
/// told otherwise; any other control cannot be told under the I-beam and is
/// no text field elsewhere.
pub open spec fn spec_classify(el: FocusedElement) -> InputCapability {
    if el.enabled == Some(false) {
        InputCapability::No
    } else {
        match el.control_type {
            None => InputCapability::No,
            Some(id) => if id == UIA_EDIT_CONTROL_TYPE_ID {
                if !el.read_only {
                    InputCapability::Yes
                } else {
                    InputCapability::No
                }
            } else if id == UIA_PANE_CONTROL_TYPE_ID || id == UIA_CUSTOM_CONTROL_TYPE_ID || id
                == UIA_WINDOW_CONTROL_TYPE_ID {
                if !el.read_only && (el.cursor_ibeam || el.has_text_pattern) {
                    InputCapability::Yes
                } else {
                    InputCapability::Unknown
                }
            } else if el.cursor_ibeam {
                InputCapability::Unknown
            } else {
                InputCapability::No
            },
        }
    }
}

/// What the focused element says; `Unknown` asks for the Win32 fallback.
pub fn classify_element(el: &FocusedElement) -> (r: InputCapability)
    ensures
        r == spec_classify(*el),
{
    if el.enabled == Some(false) {
        return InputCapability::No;
    }
    match el.control_type {
        None => InputCapability::No,
        Some(id) => {
            if id == UIA_EDIT_CONTROL_TYPE_ID {
                if !el.read_only {
                    InputCapability::Yes
                } else {
                    InputCapability::No
                }
            } else if id == UIA_PANE_CONTROL_TYPE_ID || id == UIA_CUSTOM_CONTROL_TYPE_ID || id
                == UIA_WINDOW_CONTROL_TYPE_ID {
                if !el.read_only && (el.cursor_ibeam || el.has_text_pattern) {
                    InputCapability::Yes
                } else {
                    InputCapability::Unknown
                }
            } else if el.cursor_ibeam {
                InputCapability::Unknown
            } else {
                InputCapability::No
            }
        },
    }
}

/// The capability of the focused control. `first_win32` is the Win32 check
/// made before anything else, `focused` what UI Automation reports (`None`
/// when no focused element could be had) and `fallback_win32` the Win32
/// check used when UI Automation cannot tell.
pub open spec fn spec_input_capability(
    first_win32: InputCapability,
    focused: Option<FocusedElement>,
    fallback_win32: InputCapability,
) -> InputCapability {
    if first_win32 == InputCapability::Yes {
        InputCapability::Yes
    } else {
        match focused {
            None => fallback_win32,
            Some(el) => if spec_classify(el) == InputCapability::Unknown {
                fallback_win32
            } else {
                spec_classify(el)
            },
        }
    }
}

/// The capability of the focused control, from the Win32 checks and what
/// UI Automation reports.
pub fn input_capability(
    first_win32: InputCapability,
    focused: Option<FocusedElement>,
    fallback_win32: InputCapability,
) -> (r: InputCapability)
    ensures
        r == spec_input_capability(first_win32, focused, fallback_win32),
{
    if first_win32 == InputCapability::Yes {
        return InputCapability::Yes;
    }
    match focused {
        None => fallback_win32,
        Some(el) => {
            let cap = classify_element(&el);
            if cap == InputCapability::Unknown {
                fallback_win32
            } else {
                cap
            }
        },
    }
}

/// What `GetGUIThreadInfo` reports of the foreground window's thread.
#[derive(Clone, Copy, Debug, PartialEq, Eq, Structural)]
pub struct GuiThreadState {
    /// Whether the thread has a caret window.
    pub caret_window: bool,
    /// Whether the thread's caret is blinking or it is in menu mode.
    pub caret_active: bool,
}

/// The Win32 check: without a foreground window, no text field; with a
/// caret window or a blinking caret or menu mode in the foreground thread
/// (`gui` is `None` when the thread's GUI state could not be read), or an
/// input context of the IME, a text field; otherwise it cannot be told.
pub open spec fn spec_win32(
    has_foreground: bool,
    gui: Option<GuiThreadState>,
    has_ime_context: bool,
) -> InputCapability {
    if !has_foreground {
        InputCapability::No
    } else if (gui matches Some(g) && (g.caret_window || g.caret_active)) || has_ime_context {
        InputCapability::Yes
    } else {
        InputCapability::Unknown
    }
}

/// The Win32 check of the foreground window.
pub fn win32_input_capability(
    has_foreground: bool,
    gui: Option<GuiThreadState>,
    has_ime_context: bool,
) -> (r: InputCapability)
    ensures
        r == spec_win32(has_foreground, gui, has_ime_context),
{
    if !has_foreground {
        return InputCapability::No;
    }
    if let Some(g) = gui {
        if g.caret_window || g.caret_active {
            return InputCapability::Yes;
        }
    }
    if has_ime_context {
        return InputCapability::Yes;
    }
    InputCapability::Unknown
}

/// UI Automation never lets a disabled element, or a read-only edit
/// control, count as a text field; only the Win32 check made first can.
pub proof fn law_disabled_or_read_only_is_no_field(
    first_win32: InputCapability,
    el: FocusedElement,
    fallback_win32: InputCapability,
)
    requires
        first_win32 != InputCapability::Yes,
        el.enabled == Some(false) || (el.control_type == Some(UIA_EDIT_CONTROL_TYPE_ID)
            && el.read_only),
    ensures
        spec_input_capability(first_win32, Some(el), fallback_win32) == InputCapability::No,
{
}

/// The answer is `Unknown` only when the Win32 fallback is asked and cannot
/// tell either.
pub proof fn law_unknown_only_from_fallback(
    first_win32: InputCapability,
    focused: Option<FocusedElement>,
    fallback_win32: InputCapability,
)
    requires
        spec_input_capability(first_win32, focused, fallback_win32) == InputCapability::Unknown,
    ensures
        fallback_win32 == InputCapability::Unknown,
{
}

} // verus!
