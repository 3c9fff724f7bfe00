//! The overlay's display decisions: whether it is shown, which opacity
//! animation runs, and what a settings change asks of the process.
use vstd::prelude::*;
use crate::capability::InputCapability;
use crate::common::{AppConfig, DisplayStyle, PolicyMode, ProcessSet, RenderingQuality, WindowRole};
use crate::process::{included_in_running_process, lowercase_of, lowered, names, vec_to_set};
use crate::show_state::{ShowState, becomes_visible, state_for};
use crate::text::{InputMode, InputModeView, spec_is_on};

verus! {

/// What to do with the overlay's opacity.
#[derive(Clone, Copy, Debug, PartialEq, Eq, Structural)]
pub enum OpacityCommand {
    /// Leave it as it is.
    NoChange,
    /// Fade in to the style's opacity.
    FadeIn,
    /// Fade out to fully transparent.
    FadeOut,
    /// Set the style's opacity at once.
    ShowAtStyleOpacity,
    /// Set full transparency at once.
    Transparent,
    /// Show for the auto-hide time, then fade out; `is_refresh` continues an
    /// overlay that is already shown instead of fading in from transparent.
    AutoHide { is_refresh: bool },
    /// Show at once for the auto-hide time, then vanish at once.
    AutoHideInstant,
}

/// Whether the input situation asks for the overlay: never outside a text
/// field; in a text field whenever a mode is known; when it cannot be told,
/// only while the IME is on.
pub open spec fn spec_is_active_mode(cap: InputCapability, mode: InputModeView) -> bool {
    match cap {
        InputCapability::No => false,
        InputCapability::Yes => !(mode is Unknown),
        InputCapability::Unknown => spec_is_on(mode),
    }
}

/// Whether the input situation asks for the overlay.
pub fn is_active_mode(cap: InputCapability, mode: &InputMode) -> (r: bool)
    ensures
        r == spec_is_active_mode(cap, mode@),
        cap == InputCapability::Yes ==> (r <==> !(mode@ is Unknown)),
        cap == InputCapability::No ==> !r,
{
    match cap {
        InputCapability::No => false,
        InputCapability::Yes => !mode.is_unknown(),
        InputCapability::Unknown => mode.is_on(),
    }
}

/// Whether one of the `focused` names is one of the `list` names, compared
/// in lower case.
pub open spec fn spec_listed(list: Seq<Seq<char>>, focused: Seq<Seq<char>>) -> bool {
    exists|i: int| 0 <= i < focused.len() && #[trigger] lowered(list).contains(focused[i])
}

/// Whether the process filter lets the overlay appear. `focused` holds the
/// names of the focused process and its children, or `None` when they could
/// not be read: a black list then lets it appear, a white list does not.
pub open spec fn spec_allowed_by_policy(
    mode: PolicyMode,
    blacklist: Seq<Seq<char>>,
    whitelist: Seq<Seq<char>>,
    focused: Option<Seq<Seq<char>>>,
) -> bool {
    match mode {
        PolicyMode::BlackList => !(focused is Some && spec_listed(blacklist, focused->0)),
        PolicyMode::WhiteList => focused is Some && spec_listed(whitelist, focused->0),
    }
}

/// The names of an optional list of names.
pub open spec fn opt_names(v: Option<Vec<String>>) -> Option<Seq<Seq<char>>> {
    match v {
        Some(v) => Some(names(v@)),
        None => None,
    }
}

/// The lower-cased set of a filter list's names.
fn lowered_set(list: &ProcessSet) -> (r: Vec<String>)
    ensures
        forall|x: Seq<char>| names(r@).contains(x) <==> lowered(list@).contains(x),
{
    let mut copy: Vec<String> = Vec::new();
    let mut i: usize = 0;
    while i < list.processes.len()
        invariant
            i <= list.processes.len(),
            names(copy@) == list@.take(i as int),
        decreases list.processes.len() - i,
    {
        let ghost before = names(copy@);
        let c = list.processes[i].clone();
        assert(c@ == list@[i as int]);
        copy.push(c);
        assert(names(copy@) =~= before.push(c@));
        assert(list@.take(i + 1) =~= list@.take(i as int).push(list@[i as int]));
        i += 1;
    }
    assert(list@.take(i as int) =~= list@);
    vec_to_set(copy)
}

/// Whether one of the `focused` names is on the filter list `list`.
fn listed(list: &ProcessSet, focused: &Vec<String>) -> (r: bool)
    ensures
        r == spec_listed(list@, names(focused@)),
{
    let set = lowered_set(list);
    let r = included_in_running_process(&set, focused);
    proof {
        if r {
            let i = choose|i: int|
                0 <= i < focused.len() && #[trigger] names(set@).contains(names(focused@)[i]);
            assert(lowered(list@).contains(names(focused@)[i]));
        }
        if spec_listed(list@, names(focused@)) {
            let i = choose|i: int|
                0 <= i < names(focused@).len() && #[trigger] lowered(list@).contains(
                    names(focused@)[i],
                );
            assert(names(set@).contains(names(focused@)[i]));
        }
    }
    r
}

/// Whether the process filter of `cfg` lets the overlay appear.
pub fn allowed_by_policy(cfg: &AppConfig, focused: &Option<Vec<String>>) -> (r: bool)
    ensures
        r == spec_allowed_by_policy(
            cfg.process_cfg.mode,
            cfg.process_cfg.blacklist@,
            cfg.process_cfg.whitelist@,
            opt_names(*focused),
        ),
{
    match cfg.process_cfg.mode {
        PolicyMode::BlackList => match focused {
            Some(f) => !listed(&cfg.process_cfg.blacklist, f),
            None => true,
        },
        PolicyMode::WhiteList => match focused {
            Some(f) => listed(&cfg.process_cfg.whitelist, f),
            None => false,
        },
    }
}

/// Whether the overlay is shown: the input situation asks for it, or the
/// active window is always shown, and the process filter lets it appear.
pub open spec fn spec_check_displayed(
    cap: InputCapability,
    mode: InputModeView,
    cfg: AppConfig,
    focused: Option<Seq<Seq<char>>>,
) -> bool {
    let always = match cfg.active_role {
        WindowRole::Fixed => cfg.fixed.display_style == DisplayStyle::Always,
        WindowRole::Floating => cfg.floating.display_style == DisplayStyle::Always,
    };
    (spec_is_active_mode(cap, mode) || always) && spec_allowed_by_policy(
        cfg.process_cfg.mode,
        cfg.process_cfg.blacklist@,
        cfg.process_cfg.whitelist@,
        focused,
    )
}

/// Whether the overlay is shown, for the capability `cap`, the mode `mode`,
/// the settings `cfg` and the names `focused` of the focused processes.
pub fn check_displayed(
    cap: InputCapability,
    mode: &InputMode,
    cfg: &AppConfig,
    focused: &Option<Vec<String>>,
) -> (r: bool)
    ensures
        r == spec_check_displayed(cap, mode@, *cfg, opt_names(*focused)),
{
    let is_active = is_active_mode(cap, mode);
    let is_always = cfg.active_display_style() == DisplayStyle::Always;
    let want_to_display = is_active || is_always;
    let allowed = allowed_by_policy(cfg, focused);
    want_to_display && allowed
}

/// The opacity command of an animated overlay, and the refresh request
/// that is left: an auto-hiding overlay that is shown with a pending
/// refresh runs its auto-hide animation (continuing when it was already
/// shown) and the request is served; a hidden one becomes transparent when
/// nothing is pending and fades out otherwise. Without auto-hide a shown
/// overlay fades in when asked to, and a hidden one fades out.
pub open spec fn spec_with_animation(
    refresh_requested: bool,
    displayed: bool,
    fade_in: bool,
    auto_hide: bool,
) -> (OpacityCommand, bool) {
    if auto_hide {
        if displayed && refresh_requested {
            (OpacityCommand::AutoHide { is_refresh: !fade_in }, false)
        } else if !refresh_requested {
            (OpacityCommand::Transparent, refresh_requested)
        } else {
            (OpacityCommand::FadeOut, refresh_requested)
        }
    } else if displayed {
        if fade_in {
            (OpacityCommand::FadeIn, refresh_requested)
        } else {
            (OpacityCommand::NoChange, refresh_requested)
        }
    } else {
        (OpacityCommand::FadeOut, refresh_requested)
    }
}

/// The same for the performance quality, which sets opacities at once: an
/// auto-hiding overlay that is shown with a pending refresh shows at once
/// only when it fades in; a hidden one becomes transparent when nothing is
/// pending.
pub open spec fn spec_no_animation(
    refresh_requested: bool,
    displayed: bool,
    fade_in: bool,
    auto_hide: bool,
) -> (OpacityCommand, bool) {
    if auto_hide {
        if displayed && refresh_requested {
            if fade_in {
                (OpacityCommand::AutoHideInstant, false)
            } else {
                (OpacityCommand::NoChange, refresh_requested)
            }
        } else if !refresh_requested {
            (OpacityCommand::Transparent, refresh_requested)
        } else {
            (OpacityCommand::NoChange, refresh_requested)
        }
    } else if displayed {
        if fade_in {
            (OpacityCommand::ShowAtStyleOpacity, refresh_requested)
        } else {
            (OpacityCommand::NoChange, refresh_requested)
        }
    } else {
        (OpacityCommand::Transparent, refresh_requested)
    }
}

/// The opacity command when the visibility is applied: the overlay fades in
/// when it becomes visible or when that is forced; the performance quality
/// sets opacities at once, the others animate.
pub open spec fn spec_trigger(
    refresh_requested: bool,
    show_state: ShowState,
    displayed: bool,
    force_fade_in: bool,
    quality: RenderingQuality,
    auto_hide: bool,
) -> (OpacityCommand, bool) {
    let fade_in = becomes_visible(show_state, displayed) || force_fade_in;
    if quality == RenderingQuality::Performance {
        spec_no_animation(refresh_requested, displayed, fade_in, auto_hide)
    } else {
        spec_with_animation(refresh_requested, displayed, fade_in, auto_hide)
    }
}

/// The main thread's view of the overlay.
#[derive(Debug)]
pub struct AppState {
    /// The last capability reported.
    pub cap: InputCapability,
    /// The last mode reported.
    pub mode: InputMode,
    pub currently_visible: bool,
    pub show_state: ShowState,
    /// A change that the next auto-hide animation is to show.
    pub refresh_requested: bool,
    /// Whether the overlay is to be shown; the position thread reads it.
    pub displayed: bool,
}

/// What the main thread does after a new mode is reported.
#[derive(Clone, Copy, Debug, PartialEq, Eq, Structural)]
pub struct ModeOutcome {
    /// The window is resized for the new mode's text.
    pub resize: bool,
    /// The position thread is told to place the overlay again.
    pub send_refresh: bool,
    /// The opacity command to run.
    pub command: OpacityCommand,
}

impl AppState {
    /// The state at start: nothing known, nothing shown.
    pub fn new() -> (r: Self)
        ensures
            r.cap == InputCapability::Unknown,
            r.mode@ == InputModeView::Unknown,
            !r.currently_visible,
            r.show_state == ShowState::Hidden,
            !r.refresh_requested,
            !r.displayed,
    {
        AppState {
            cap: InputCapability::new(),
            mode: InputMode::new(),
            currently_visible: false,
            show_state: ShowState::Hidden,
            refresh_requested: false,
            displayed: false,
        }
    }

    /// Records a reported capability; a change asks for a refresh.
    pub fn on_cap(&mut self, cap: InputCapability)
        ensures
            final(self).cap == cap,
            final(self).refresh_requested == (old(self).refresh_requested || old(self).cap != cap),
            final(self).mode@ == old(self).mode@,
            final(self).show_state == old(self).show_state,
            final(self).displayed == old(self).displayed,
            final(self).currently_visible == old(self).currently_visible,
    {
        if self.cap != cap {
            self.refresh_requested = true;
            self.cap = cap;
        }
    }

    /// Runs the animated opacity decision and serves the refresh request
    /// when the decision does.
    pub fn with_animation(&mut self, displayed: bool, fade_in: bool, auto_hide: bool) -> (r: OpacityCommand)
        ensures
            (r, final(self).refresh_requested) == spec_with_animation(
                old(self).refresh_requested,
                displayed,
                fade_in,
                auto_hide,
            ),
            final(self).cap == old(self).cap,
            final(self).mode@ == old(self).mode@,
            final(self).show_state == old(self).show_state,
            final(self).displayed == old(self).displayed,
            final(self).currently_visible == old(self).currently_visible,
    {
        if auto_hide {
            if displayed && self.refresh_requested {
                self.refresh_requested = false;
                OpacityCommand::AutoHide { is_refresh: !fade_in }
            } else if !self.refresh_requested {
                OpacityCommand::Transparent
            } else {
                OpacityCommand::FadeOut
            }
        } else if displayed {
            if fade_in {
                OpacityCommand::FadeIn
            } else {
                OpacityCommand::NoChange
            }
        } else {
            OpacityCommand::FadeOut
        }
    }

    /// Runs the immediate opacity decision of the performance quality.
    pub fn no_animation(&mut self, displayed: bool, fade_in: bool, auto_hide: bool) -> (r: OpacityCommand)
        ensures
            (r, final(self).refresh_requested) == spec_no_animation(
                old(self).refresh_requested,
                displayed,
                fade_in,
                auto_hide,
            ),
            final(self).cap == old(self).cap,
            final(self).mode@ == old(self).mode@,
            final(self).show_state == old(self).show_state,
            final(self).displayed == old(self).displayed,
            final(self).currently_visible == old(self).currently_visible,
    {
        if auto_hide {
            if displayed && self.refresh_requested {
                if fade_in {
                    self.refresh_requested = false;
                    OpacityCommand::AutoHideInstant
                } else {
                    OpacityCommand::NoChange
                }
            } else if !self.refresh_requested {
                OpacityCommand::Transparent
            } else {
                OpacityCommand::NoChange
            }
        } else if displayed {
            if fade_in {
                OpacityCommand::ShowAtStyleOpacity
            } else {
                OpacityCommand::NoChange
            }
        } else {
            OpacityCommand::Transparent
        }
    }

    /// Applies the current visibility: records it in the show state and
    /// returns the opacity command.
    pub fn trigger_display(
        &mut self,
        force_fade_in: bool,
        quality: RenderingQuality,
        auto_hide: bool,
    ) -> (r: OpacityCommand)
        ensures
            (r, final(self).refresh_requested) == spec_trigger(
                old(self).refresh_requested,
                old(self).show_state,
                old(self).displayed,
                force_fade_in,
                quality,
                auto_hide,
            ),
            final(self).show_state == state_for(old(self).displayed),
            final(self).cap == old(self).cap,
            final(self).mode@ == old(self).mode@,
            final(self).displayed == old(self).displayed,
            final(self).currently_visible == old(self).currently_visible,
    {
        let displayed = self.displayed;
        let update = self.show_state.update(displayed);
        let result_fade_in = update || force_fade_in;
        if quality == RenderingQuality::Performance {
            self.no_animation(displayed, result_fade_in, auto_hide)
        } else {
            self.with_animation(displayed, result_fade_in, auto_hide)
        }
    }

    /// Records the visibility `new_displayed` and applies it with a forced
    /// fade-in. Returns whether the position thread is to place the overlay
    /// again (it became visible), and the opacity command.
    pub fn update_display_state(
        &mut self,
        new_displayed: bool,
        quality: RenderingQuality,
        auto_hide: bool,
    ) -> (r: (bool, OpacityCommand))
        ensures
            r.0 == (new_displayed && !old(self).displayed),
            final(self).displayed == new_displayed,
            final(self).show_state == state_for(new_displayed),
            (r.1, final(self).refresh_requested) == spec_trigger(
                old(self).refresh_requested || old(self).displayed != new_displayed,
                old(self).show_state,
                new_displayed,
                true,
                quality,
                auto_hide,
            ),
            final(self).cap == old(self).cap,
            final(self).mode@ == old(self).mode@,
            final(self).currently_visible == old(self).currently_visible,
    {
        let mut send_refresh = false;
        if self.displayed != new_displayed {
            self.displayed = new_displayed;
            self.refresh_requested = true;
            if new_displayed {
                send_refresh = true;
            }
        }
        let command = self.trigger_display(true, quality, auto_hide);
        (send_refresh, command)
    }

    /// Handles a newly reported mode: a change asks for a resize and a
    /// refresh; then the visibility is checked against `cfg` and the
    /// focused processes' names and applied.
    pub fn on_mode(&mut self, mode: InputMode, cfg: &AppConfig, focused: &Option<Vec<String>>) -> (r: ModeOutcome)
        ensures
            r.resize == (old(self).mode@ != mode@),
            final(self).mode@ == mode@,
            final(self).displayed == spec_check_displayed(
                old(self).cap,
                mode@,
                *cfg,
                opt_names(*focused),
            ),
            final(self).show_state == state_for(final(self).displayed),
            r.send_refresh == (final(self).displayed && !old(self).displayed),
            (r.command, final(self).refresh_requested) == spec_trigger(
                old(self).refresh_requested || old(self).mode@ != mode@ || old(self).displayed
                    != final(self).displayed,
                old(self).show_state,
                final(self).displayed,
                true,
                cfg.quality,
                cfg.active_auto_hide(),
            ),
            final(self).cap == old(self).cap,
            final(self).currently_visible == old(self).currently_visible,
    {
        let mut resize = false;
        if !self.mode.same_as(&mode) {
            resize = true;
            self.refresh_requested = true;
            self.mode = mode;
        }
        let new_displayed = check_displayed(self.cap, &self.mode, cfg, focused);
        let (send_refresh, command) = self.update_display_state(
            new_displayed,
            cfg.quality,
            cfg.active_auto_hide(),
        );
        ModeOutcome { resize, send_refresh, command }
    }
}

/// What a settings change asks of the process.
#[derive(Clone, Copy, Debug, PartialEq, Eq, Structural)]
pub enum PrivilegeAction {
    NoAction,
    /// Start a new instance and end this one; `dropping_privileges` starts
    /// it through the shell so that it runs without administrative rights.
    Restart { dropping_privileges: bool },
    /// Register the logon task; `admin_required` runs it elevated.
    RegisterStartup { admin_required: bool },
    /// Remove the logon task.
    UnregisterStartup,
}

/// The administrator setting changed: restart, dropping privileges when the
/// setting disagrees with the current elevation.
pub fn apply_admin_changed(administrator: bool, elevated: bool) -> (r: PrivilegeAction)
    ensures
        r == (PrivilegeAction::Restart { dropping_privileges: administrator != elevated }),
{
    PrivilegeAction::Restart { dropping_privileges: administrator != elevated }
}

/// The startup setting changed: an elevated process registers (elevated)
/// or removes the logon task itself; otherwise it restarts to be elevated.
pub open spec fn spec_startup_changed(startup: bool, elevated: bool) -> PrivilegeAction {
    if elevated {
        if startup {
            PrivilegeAction::RegisterStartup { admin_required: true }
        } else {
            PrivilegeAction::UnregisterStartup
        }
    } else {
        PrivilegeAction::Restart { dropping_privileges: false }
    }
}

/// What a change of the startup setting asks for.
pub fn apply_startup_changed(startup: bool, elevated: bool) -> (r: PrivilegeAction)
    ensures
        r == spec_startup_changed(startup, elevated),
{
    if elevated {
        if startup {
            PrivilegeAction::RegisterStartup { admin_required: true }
        } else {
            PrivilegeAction::UnregisterStartup
        }
    } else {
        PrivilegeAction::Restart { dropping_privileges: false }
    }
}

/// What applying new settings asks of the process: a change of the
/// administrator setting is handled first and alone, then one of the
/// startup setting; nothing is compared without previous settings.
pub open spec fn spec_config_update(previous: Option<AppConfig>, new: AppConfig, elevated: bool) -> PrivilegeAction {
    match previous {
        None => PrivilegeAction::NoAction,
        Some(old) => if old.administrator != new.administrator {
            PrivilegeAction::Restart { dropping_privileges: new.administrator != elevated }
        } else if old.startup != new.startup {
            spec_startup_changed(new.startup, elevated)
        } else {
            PrivilegeAction::NoAction
        },
    }
}

/// What applying the settings `new` over `previous` asks of the process.
pub fn config_update(previous: Option<&AppConfig>, new: &AppConfig, elevated: bool) -> (r: PrivilegeAction)
    ensures
        r == spec_config_update(
            match previous {
                Some(p) => Some(*p),
                None => None,
            },
            *new,
            elevated,
        ),
{
    match previous {
        None => PrivilegeAction::NoAction,
        Some(old) => {
            if old.administrator != new.administrator {
                apply_admin_changed(new.administrator, elevated)
            } else if old.startup != new.startup {
                apply_startup_changed(new.startup, elevated)
            } else {
                PrivilegeAction::NoAction
            }
        },
    }
}

/// Whether the position thread is to place the overlay again after the
/// active role changed: when it changed to the floating window.
pub fn position_reset_needed(old_role: WindowRole, new_role: WindowRole) -> (r: bool)
    ensures
        r == (old_role != new_role && new_role == WindowRole::Floating),
{
    old_role != new_role && new_role == WindowRole::Floating
}

/// The overlay is shown only when the input situation or the always-shown
/// style asks for it and the process filter lets it appear; outside a text
/// field it is shown only for an always-shown window.
pub proof fn law_shown_only_when_wanted_and_allowed(
    cap: InputCapability,
    mode: InputModeView,
    cfg: AppConfig,
    focused: Option<Seq<Seq<char>>>,
)
    requires
        spec_check_displayed(cap, mode, cfg, focused),
    ensures
        spec_allowed_by_policy(
            cfg.process_cfg.mode,
            cfg.process_cfg.blacklist@,
            cfg.process_cfg.whitelist@,
            focused,
        ),
        cap == InputCapability::No ==> (match cfg.active_role {
            WindowRole::Fixed => cfg.fixed.display_style == DisplayStyle::Always,
            WindowRole::Floating => cfg.floating.display_style == DisplayStyle::Always,
        }),
{
}

/// With the same list, a black list lets the overlay appear exactly where a
/// white list does not, as long as the focused processes could be read;
/// when they could not, a black list lets it appear and a white list not.
pub proof fn law_black_and_white_lists_complement(
    list: Seq<Seq<char>>,
    other: Seq<Seq<char>>,
    focused: Option<Seq<Seq<char>>>,
)
    ensures
        focused is Some ==> (spec_allowed_by_policy(PolicyMode::BlackList, list, other, focused)
            == !spec_allowed_by_policy(PolicyMode::WhiteList, other, list, focused)),
        focused is None ==> spec_allowed_by_policy(PolicyMode::BlackList, list, other, focused),
        focused is None ==> !spec_allowed_by_policy(PolicyMode::WhiteList, other, list, focused),
{
}

/// A refresh request is served only by starting an auto-hide animation, and
/// an overlay that is not to be shown is never made visible.
pub proof fn law_refresh_served_only_by_auto_hide(
    refresh_requested: bool,
    show_state: ShowState,
    displayed: bool,
    force_fade_in: bool,
    quality: RenderingQuality,
    auto_hide: bool,
)
    ensures
        ({
            let (cmd, left) = spec_trigger(
                refresh_requested,
                show_state,
                displayed,
                force_fade_in,
                quality,
                auto_hide,
            );
            &&& (refresh_requested && !left) ==> (cmd is AutoHide || cmd is AutoHideInstant)
            &&& (!refresh_requested ==> !left)
            &&& (cmd is FadeIn || cmd is ShowAtStyleOpacity || cmd is AutoHide
                || cmd is AutoHideInstant) ==> displayed
        }),
{
}

/// A change of the administrator setting takes precedence: it always
/// restarts, whatever happened to the startup setting.
pub proof fn law_admin_change_wins(old: AppConfig, new: AppConfig, elevated: bool)
    requires
        old.administrator != new.administrator,
    ensures
        spec_config_update(Some(old), new, elevated) is Restart,
{
}

/// In a control that takes text every known mode asks for the overlay,
/// keyboard layouts included; where no text can be typed none does; where
/// that cannot be told, exactly the modes with the IME on do.
pub proof fn law_active_modes(mode: InputModeView)
    ensures
        !(mode is Unknown) ==> spec_is_active_mode(InputCapability::Yes, mode),
        mode is Unknown ==> !spec_is_active_mode(InputCapability::Yes, mode),
        !spec_is_active_mode(InputCapability::No, mode),
        spec_is_active_mode(InputCapability::Unknown, mode) == !(mode is HalfAlpha || mode is QwertyOff
            || mode is Layout),
{
}

/// A settings change with the administrator setting unchanged acts on the
/// startup setting alone: an elevated process registers the logon task
/// (elevated) when startup was turned on and removes it when turned off; a
/// process without elevation restarts itself keeping its privileges; with
/// neither setting changed nothing is asked.
pub proof fn law_startup_change_acts(old: AppConfig, new: AppConfig, elevated: bool)
    requires
        old.administrator == new.administrator,
    ensures
        old.startup != new.startup && elevated && new.startup ==> spec_config_update(Some(old), new, elevated)
            == (PrivilegeAction::RegisterStartup { admin_required: true }),
        old.startup != new.startup && elevated && !new.startup ==> spec_config_update(
            Some(old),
            new,
            elevated,
        ) == PrivilegeAction::UnregisterStartup,
        old.startup != new.startup && !elevated ==> spec_config_update(Some(old), new, elevated)
            == (PrivilegeAction::Restart { dropping_privileges: false }),
        old.startup == new.startup ==> spec_config_update(Some(old), new, elevated)
            == PrivilegeAction::NoAction,
{
}

} // verus!
