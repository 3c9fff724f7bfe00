//! Whether the overlay is shown, and which opacity animation a change of
//! visibility starts.
use vstd::prelude::*;

verus! {

/// Whether the overlay is currently shown.
#[derive(Clone, Copy, Debug, PartialEq, Eq, Structural)]
pub enum ShowState {
    Hidden,
    Visible,
}

/// The opacity animation to start.
#[derive(Clone, Copy, Debug, PartialEq, Eq, Structural)]
pub enum AnimationAction {
    NoChange,
    /// Fade in from fully transparent.
    StartFadeIn,
    /// Start over from full opacity.
    Refresh,
    /// Fade out to fully transparent.
    Hide,
}

/// The state that matches `displayed`.
pub open spec fn state_for(displayed: bool) -> ShowState {
    if displayed {
        ShowState::Visible
    } else {
        ShowState::Hidden
    }
}

/// Whether the overlay becomes visible: it was hidden and is to be shown.
pub open spec fn becomes_visible(s: ShowState, displayed: bool) -> bool {
    displayed && s == ShowState::Hidden
}

/// The animation for a visibility of `displayed`, from state `s`.
pub open spec fn spec_action(s: ShowState, displayed: bool, refresh_requested: bool) -> AnimationAction {
    match (s, displayed) {
        (ShowState::Hidden, true) => AnimationAction::StartFadeIn,
        (ShowState::Visible, true) => if refresh_requested {
            AnimationAction::Refresh
        } else {
            AnimationAction::NoChange
        },
        (ShowState::Visible, false) => AnimationAction::Hide,
        (ShowState::Hidden, false) => AnimationAction::NoChange,
    }
}

/// What auto-hide is told: `None` when hidden, else whether it continues
/// an overlay that was already shown.
pub open spec fn spec_auto_hide(s: ShowState, displayed: bool) -> Option<bool> {
    if !displayed {
        None
    } else {
        Some(s == ShowState::Visible)
    }
}

impl ShowState {
    /// Records the visibility `displayed`; returns whether the overlay was
    /// hidden and is now shown.
    pub fn update(&mut self, displayed: bool) -> (r: bool)
        ensures
            *final(self) == state_for(displayed),
            r == becomes_visible(*old(self), displayed),
    {
        match (displayed, *self) {
            (false, _) => {
                *self = ShowState::Hidden;
                false
            },
            (true, ShowState::Hidden) => {
                *self = ShowState::Visible;
                true
            },
            (true, ShowState::Visible) => false,
        }
    }

    /// Records the visibility `displayed` and returns the animation that the
    /// change starts; a shown overlay is refreshed when that is requested.
    pub fn is_action(&mut self, displayed: bool, refresh_requested: bool) -> (r: AnimationAction)
        ensures
            *final(self) == state_for(displayed),
            r == spec_action(*old(self), displayed, refresh_requested),
    {
        match (*self, displayed) {
            (ShowState::Hidden, true) => {
                *self = ShowState::Visible;
                AnimationAction::StartFadeIn
            },
            (ShowState::Visible, true) => {
                if refresh_requested {
                    AnimationAction::Refresh
                } else {
                    AnimationAction::NoChange
                }
            },
            (ShowState::Visible, false) => {
                *self = ShowState::Hidden;
                AnimationAction::Hide
            },
            (ShowState::Hidden, false) => AnimationAction::NoChange,
        }
    }

    /// Records the visibility `displayed` for an auto-hiding overlay:
    /// `Some(false)` starts a new fade-in, `Some(true)` keeps a shown overlay
    /// and restarts its timer, `None` hides it.
    pub fn prepare_auto_hide(&mut self, displayed: bool) -> (r: Option<bool>)
        ensures
            *final(self) == state_for(displayed),
            r == spec_auto_hide(*old(self), displayed),
    {
        match (displayed, *self) {
            (true, ShowState::Hidden) => {
                *self = ShowState::Visible;
                Some(false)
            },
            (true, ShowState::Visible) => Some(true),
            (false, _) => {
                *self = ShowState::Hidden;
                None
            },
        }
    }
}

/// Recording the same visibility twice reports a change at most once: the
/// second time nothing becomes visible.
pub proof fn law_update_reports_once(displayed: bool)
    ensures
        !becomes_visible(state_for(displayed), displayed),
{
}

/// A fade-in is started exactly when a hidden overlay is to be shown, and a
/// fade-out exactly when a shown one is to be hidden; a second call with the
/// same visibility never fades in or out again.
pub proof fn law_fades_follow_changes(s: ShowState, displayed: bool, refresh: bool, again: bool)
    ensures
        (spec_action(s, displayed, refresh) == AnimationAction::StartFadeIn) == becomes_visible(
            s,
            displayed,
        ),
        (spec_action(s, displayed, refresh) == AnimationAction::Hide) == (!displayed && s
            == ShowState::Visible),
        spec_action(state_for(displayed), displayed, again) != AnimationAction::StartFadeIn,
        spec_action(state_for(displayed), displayed, again) != AnimationAction::Hide,
{
}

/// The three ways of recording a visibility agree: each reaches the state
/// that matches it, and each reports a new appearance in the same case.
pub proof fn law_recorders_agree(s: ShowState, displayed: bool, refresh: bool)
    ensures
        becomes_visible(s, displayed) == (spec_action(s, displayed, refresh)
            == AnimationAction::StartFadeIn),
        becomes_visible(s, displayed) == (spec_auto_hide(s, displayed) == Some(false)),
{
}

} // verus!
