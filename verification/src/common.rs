//! The application's settings model: window placement, roles, themes,
//! rendering quality and the process filter lists.
//!
//! Values that are floating point in the settings file (paddings, opacities,
//! font sizes, colours, auto-hide durations) are not part of this model: the
//! application keeps them next to it and hands the library only what its
//! decisions read.
use vstd::prelude::*;

verus! {

/// Whether two strings hold the same characters.
pub fn str_eq(a: &str, b: &str) -> (r: bool)
    ensures
        r == (a@ == b@),
{
    a.to_owned() == b.to_owned()
}

/// Where the fixed window is placed inside the monitor's work area.
#[derive(Clone, Copy, Debug, PartialEq, Eq, Structural)]
pub enum WindowPos {
    Top,
    TopLeft,
    TopRight,
    Center,
    CenterLeft,
    CenterRight,
    Bottom,
    BottomLeft,
    BottomRight,
}

impl Default for WindowPos {
    fn default() -> (r: Self)
        ensures
            r == WindowPos::Top,
    {
        WindowPos::Top
    }
}

/// How much text the overlay shows for a mode.
#[derive(Clone, Copy, Debug, PartialEq, Eq, Structural)]
pub enum TextFormat {
    /// A single character, such as "あ".
    Compact,
    /// The mode's name followed by its character, such as "ひらがな (あ)".
    Full,
}

impl Default for TextFormat {
    fn default() -> (r: Self)
        ensures
            r == TextFormat::Full,
    {
        TextFormat::Full
    }
}

/// The same choice under the name that the per-window settings use.
pub type TextStyle = TextFormat;

/// Which of the two windows is active.
#[derive(Clone, Copy, Debug, PartialEq, Eq, Structural)]
pub enum WindowRole {
    /// A window at a fixed place of the monitor's work area.
    Fixed,
    /// A window that follows the mouse.
    Floating,
}

impl Default for WindowRole {
    fn default() -> (r: Self)
        ensures
            r == WindowRole::Fixed,
    {
        WindowRole::Fixed
    }
}

/// The colour theme of the settings screen.
#[derive(Clone, Copy, Debug, PartialEq, Eq, Structural)]
pub enum ConfigTheme {
    System,
    Dark,
    Light,
}

impl Default for ConfigTheme {
    fn default() -> (r: Self)
        ensures
            r == ConfigTheme::System,
    {
        ConfigTheme::System
    }
}

/// How the process lists filter where the overlay may appear.
#[derive(Clone, Copy, Debug, PartialEq, Eq, Structural)]
pub enum PolicyMode {
    /// Shown everywhere except for the listed processes.
    BlackList,
    /// Shown only for the listed processes.
    WhiteList,
}

impl Default for PolicyMode {
    fn default() -> (r: Self)
        ensures
            r == PolicyMode::BlackList,
    {
        PolicyMode::BlackList
    }
}

/// Rendering quality: it chooses animations and the mouse-tracking rate.
#[derive(Clone, Copy, Debug, PartialEq, Eq, Structural)]
pub enum RenderingQuality {
    Performance,
    Balanced,
    HighQuality,
    Ultra,
}

impl Default for RenderingQuality {
    fn default() -> (r: Self)
        ensures
            r == RenderingQuality::Balanced,
    {
        RenderingQuality::Balanced
    }
}

/// Whether a window is always shown or only while text can be typed.
/// The auto-hide parameters that go with `Smart` are kept by the application.
#[derive(Clone, Copy, Debug, PartialEq, Eq, Structural)]
pub enum DisplayStyle {
    Always,
    Smart,
}

impl Default for DisplayStyle {
    fn default() -> (r: Self)
        ensures
            r == DisplayStyle::Smart,
    {
        DisplayStyle::Smart
    }
}

/// A point in physical screen coordinates.
#[derive(Clone, Copy, Debug, PartialEq, Eq, Structural)]
pub struct Point {
    pub x: i32,
    pub y: i32,
}

/// A rectangle in physical screen coordinates (right and bottom exclusive).
#[derive(Clone, Copy, Debug, PartialEq, Eq, Structural)]
pub struct Rect {
    pub left: i32,
    pub top: i32,
    pub right: i32,
    pub bottom: i32,
}

/// `s` with `name` appended unless it is already there.
pub open spec fn inserted(s: Seq<Seq<char>>, name: Seq<char>) -> Seq<Seq<char>> {
    if s.contains(name) {
        s
    } else {
        s.push(name)
    }
}

/// `s` without any occurrence of `name`, the others kept in order.
pub open spec fn without(s: Seq<Seq<char>>, name: Seq<char>) -> Seq<Seq<char>>
    decreases s.len(),
{
    if s.len() == 0 {
        Seq::empty()
    } else {
        let rest = without(s.drop_last(), name);
        if s.last() == name {
            rest
        } else {
            rest.push(s.last())
        }
    }
}

/// Membership after a removal: a name is left exactly when it was there and
/// is not the removed one.
proof fn lemma_without_contains(s: Seq<Seq<char>>, name: Seq<char>, x: Seq<char>)
    ensures
        without(s, name).contains(x) <==> (s.contains(x) && x != name),
    decreases s.len(),
{
    if s.len() > 0 {
        let init = s.drop_last();
        lemma_without_contains(init, name, x);
        let rest = without(init, name);
        assert(s =~= init.push(s.last()));
        if s.contains(x) {
            let j = choose|j: int| 0 <= j < s.len() && s[j] == x;
            if j < s.len() - 1 {
                assert(init[j] == x);
            }
        }
        if init.contains(x) {
            let j = choose|j: int| 0 <= j < init.len() && init[j] == x;
            assert(s[j] == x);
        }
        if s.last() != name {
            assert(rest.push(s.last())[rest.len() as int] == s.last());
            if rest.contains(x) {
                let j = choose|j: int| 0 <= j < rest.len() && rest[j] == x;
                assert(rest.push(s.last())[j] == x);
            }
            if rest.push(s.last()).contains(x) {
                let j = choose|j: int| 0 <= j < rest.len() + 1 && rest.push(s.last())[j] == x;
                if j < rest.len() {
                    assert(rest[j] == x);
                }
            }
        }
    }
}

/// Inserting a name leaves the list holding it.
pub proof fn law_insert_then_contains(s: Seq<Seq<char>>, name: Seq<char>)
    ensures
        inserted(s, name).contains(name),
{
    if !s.contains(name) {
        assert(s.push(name)[s.len() as int] == name);
    }
}

/// Inserting the same name twice is inserting it once.
pub proof fn law_insert_idempotent(s: Seq<Seq<char>>, name: Seq<char>)
    ensures
        inserted(inserted(s, name), name) == inserted(s, name),
{
    law_insert_then_contains(s, name);
}

/// Inserting keeps a list of distinct names distinct.
pub proof fn law_insert_keeps_distinct(s: Seq<Seq<char>>, name: Seq<char>)
    requires
        s.no_duplicates(),
    ensures
        inserted(s, name).no_duplicates(),
{
    if !s.contains(name) {
        let t = s.push(name);
        assert forall|i: int, j: int| 0 <= i < t.len() && 0 <= j < t.len() && i != j implies t[i]
            != t[j] by {
            if i == s.len() as int {
                assert(s[j] == t[j]);
            } else if j == s.len() as int {
                assert(s[i] == t[i]);
            }
        }
    }
}

/// After a removal the name is gone, and every other name is there exactly
/// when it was there before.
pub proof fn law_remove_excludes(s: Seq<Seq<char>>, name: Seq<char>)
    ensures
        !without(s, name).contains(name),
        forall|x: Seq<char>| x != name ==> (without(s, name).contains(x) <==> s.contains(x)),
{
    lemma_without_contains(s, name, name);
    assert forall|x: Seq<char>| x != name implies (without(s, name).contains(x) <==> s.contains(
        x,
    )) by {
        lemma_without_contains(s, name, x);
    }
}

/// Removing a name right after inserting it is removing it.
pub proof fn law_remove_undoes_insert(s: Seq<Seq<char>>, name: Seq<char>)
    ensures
        without(inserted(s, name), name) == without(s, name),
{
    if !s.contains(name) {
        let t = s.push(name);
        assert(t.drop_last() =~= s);
    }
}

/// Removing keeps a list of distinct names distinct.
pub proof fn law_remove_keeps_distinct(s: Seq<Seq<char>>, name: Seq<char>)
    requires
        s.no_duplicates(),
    ensures
        without(s, name).no_duplicates(),
    decreases s.len(),
{
    if s.len() > 0 {
        let init = s.drop_last();
        assert(init.no_duplicates()) by {
            assert forall|i: int, j: int|
                0 <= i < init.len() && 0 <= j < init.len() && i != j implies init[i] != init[j] by {
                assert(s[i] == init[i] && s[j] == init[j]);
            }
        }
        law_remove_keeps_distinct(init, name);
        let rest = without(init, name);
        if s.last() != name {
            lemma_without_contains(init, name, s.last());
            if init.contains(s.last()) {
                let k = choose|k: int| 0 <= k < init.len() && init[k] == s.last();
                assert(s[k] == s[s.len() - 1]);
            }
            let t = rest.push(s.last());
            assert forall|i: int, j: int| 0 <= i < t.len() && 0 <= j < t.len() && i != j implies t[i]
                != t[j] by {
                if i == rest.len() as int {
                    assert(rest.contains(rest[j]));
                } else if j == rest.len() as int {
                    assert(rest.contains(rest[i]));
                } else {
                    assert(t[i] == rest[i] && t[j] == rest[j]);
                }
            }
        }
    }
}

/// A list of process names (executable file names).
#[derive(Debug, Clone, PartialEq, Eq)]
pub struct ProcessSet {
    pub processes: Vec<String>,
}

impl View for ProcessSet {
    type V = Seq<Seq<char>>;

    open spec fn view(&self) -> Seq<Seq<char>> {
        self.processes@.map_values(|s: String| s@)
    }
}

impl Default for ProcessSet {
    fn default() -> (r: Self)
        ensures
            r@ == Seq::<Seq<char>>::empty(),
    {
        let r = ProcessSet { processes: Vec::new() };
        assert(r@ =~= Seq::<Seq<char>>::empty());
        r
    }
}

impl ProcessSet {
    /// Whether the list holds `proc_name`.
    pub fn contains(&self, proc_name: &str) -> (r: bool)
        ensures
            r == self@.contains(proc_name@),
    {
        let target = proc_name.to_owned();
        let mut i: usize = 0;
        while i < self.processes.len()
            invariant
                i <= self.processes.len(),
                target@ == proc_name@,
                forall|j: int| 0 <= j < i ==> self@[j] != proc_name@,
            decreases self.processes.len() - i,
        {
            if self.processes[i] == target {
                assert(self@[i as int] == proc_name@);
                return true;
            }
            i += 1;
        }
        false
    }

    /// Appends `proc_name` unless the list already holds it.
    pub fn insert(&mut self, proc_name: &str)
        ensures
            final(self)@ == inserted(old(self)@, proc_name@),
    {
        if !self.contains(proc_name) {
            let ghost before = self@;
            self.processes.push(proc_name.to_owned());
            assert(self@ =~= before.push(proc_name@));
        }
    }

    /// Removes every occurrence of `proc_name`, keeping the others in order.
    pub fn remove(&mut self, proc_name: &str)
        ensures
            final(self)@ == without(old(self)@, proc_name@),
    {
        let ghost s = self@;
        let target = proc_name.to_owned();
        let mut kept: Vec<String> = Vec::new();
        let mut i: usize = 0;
        while i < self.processes.len()
            invariant
                i <= self.processes.len(),
                self@ == s,
                target@ == proc_name@,
                kept@.map_values(|x: String| x@) == without(s.take(i as int), proc_name@),
            decreases self.processes.len() - i,
        {
            assert(s.take(i + 1).drop_last() =~= s.take(i as int));
            assert(s.take(i + 1).last() == s[i as int]);
            if self.processes[i] != target {
                let ghost k = kept@.map_values(|x: String| x@);
                kept.push(self.processes[i].clone());
                assert(kept@.map_values(|x: String| x@) =~= k.push(s[i as int]));
            }
            i += 1;
        }
        assert(s.take(i as int) =~= s);
        self.processes = kept;
    }
}

/// The process filter: which list applies, and both lists.
#[derive(Debug, Clone, PartialEq, Eq)]
pub struct ProcessConfig {
    pub mode: PolicyMode,
    pub blacklist: ProcessSet,
    pub whitelist: ProcessSet,
}

impl Default for ProcessConfig {
    fn default() -> (r: Self)
        ensures
            r.mode == PolicyMode::BlackList,
            r.blacklist@ == Seq::<Seq<char>>::empty(),
            r.whitelist@ == Seq::<Seq<char>>::empty(),
    {
        ProcessConfig {
            mode: PolicyMode::default(),
            blacklist: ProcessSet::default(),
            whitelist: ProcessSet::default(),
        }
    }
}

/// Settings of the window that follows the mouse.
#[derive(Debug, Clone, Copy, PartialEq, Eq)]
pub struct FloatingWindow {
    pub role: WindowRole,
    /// Distance from the mouse pointer, in logical pixels.
    pub offset: Point,
    pub display_style: DisplayStyle,
    pub auto_hide_enabled: bool,
}

impl Default for FloatingWindow {
    fn default() -> (r: Self)
        ensures
            r.role == WindowRole::Floating,
            r.offset == (Point { x: 20, y: 20 }),
            r.display_style == DisplayStyle::Smart,
            !r.auto_hide_enabled,
    {
        FloatingWindow {
            role: WindowRole::Floating,
            offset: Point { x: 20, y: 20 },
            display_style: DisplayStyle::default(),
            auto_hide_enabled: false,
        }
    }
}

/// Settings of the window at a fixed place.
#[derive(Debug, Clone, Copy, PartialEq, Eq)]
pub struct FixedWindow {
    pub role: WindowRole,
    pub pos: WindowPos,
    /// Distance from the work area's edges, in logical pixels.
    pub margin: i32,
    pub display_style: DisplayStyle,
    pub auto_hide_enabled: bool,
}

impl Default for FixedWindow {
    fn default() -> (r: Self)
        ensures
            r.role == WindowRole::Fixed,
            r.pos == WindowPos::Top,
            r.margin == 20,
            r.display_style == DisplayStyle::Smart,
            !r.auto_hide_enabled,
    {
        FixedWindow {
            role: WindowRole::Fixed,
            pos: WindowPos::default(),
            margin: 20,
            display_style: DisplayStyle::default(),
            auto_hide_enabled: false,
        }
    }
}

/// The settings that the library's decisions read.
#[derive(Debug, Clone, PartialEq, Eq)]
pub struct AppConfig {
    /// Registered as a task that runs at logon.
    pub startup: bool,
    /// Runs with administrative rights.
    pub administrator: bool,
    /// The window background is transparent.
    pub transparent: bool,
    pub quality: RenderingQuality,
    pub cfg_theme: ConfigTheme,
    pub floating: FloatingWindow,
    pub fixed: FixedWindow,
    pub active_role: WindowRole,
    pub process_cfg: ProcessConfig,
}

impl Default for AppConfig {
    fn default() -> (r: Self)
        ensures
            !r.startup,
            !r.administrator,
            !r.transparent,
            r.quality == RenderingQuality::Balanced,
            r.cfg_theme == ConfigTheme::System,
            r.active_role == WindowRole::Fixed,
            r.floating.role == WindowRole::Floating,
            r.floating.offset == (Point { x: 20, y: 20 }),
            r.floating.display_style == DisplayStyle::Smart,
            !r.floating.auto_hide_enabled,
            r.fixed.role == WindowRole::Fixed,
            r.fixed.pos == WindowPos::Top,
            r.fixed.margin == 20,
            r.fixed.display_style == DisplayStyle::Smart,
            !r.fixed.auto_hide_enabled,
            r.process_cfg.mode == PolicyMode::BlackList,
            r.process_cfg.blacklist@ == Seq::<Seq<char>>::empty(),
            r.process_cfg.whitelist@ == Seq::<Seq<char>>::empty(),
    {
        AppConfig {
            startup: false,
            administrator: false,
            transparent: false,
            quality: RenderingQuality::default(),
            cfg_theme: ConfigTheme::default(),
            floating: FloatingWindow::default(),
            fixed: FixedWindow::default(),
            active_role: WindowRole::default(),
            process_cfg: ProcessConfig::default(),
        }
    }
}

impl AppConfig {
    /// The display style of the active window.
    pub fn active_display_style(&self) -> (r: DisplayStyle)
        ensures
            r == (match self.active_role {
                WindowRole::Fixed => self.fixed.display_style,
                WindowRole::Floating => self.floating.display_style,
            }),
    {
        match self.active_role {
            WindowRole::Fixed => self.fixed.display_style,
            WindowRole::Floating => self.floating.display_style,
        }
    }

    /// Whether auto-hide is on for the active window.
    pub open spec fn spec_active_auto_hide(&self) -> bool {
        match self.active_role {
            WindowRole::Fixed => self.fixed.auto_hide_enabled,
            WindowRole::Floating => self.floating.auto_hide_enabled,
        }
    }

    /// Whether auto-hide is on for the active window.
    #[verifier::when_used_as_spec(spec_active_auto_hide)]
    pub fn active_auto_hide(&self) -> (r: bool)
        ensures
            r == self.spec_active_auto_hide(),
    {
        match self.active_role {
            WindowRole::Fixed => self.fixed.auto_hide_enabled,
            WindowRole::Floating => self.floating.auto_hide_enabled,
        }
    }
}

} // verus!
