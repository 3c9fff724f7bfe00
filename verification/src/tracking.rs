//! The decisions of the position thread, which keeps the overlay at the
//! mouse: what it waits for, when it moves the overlay, when it stops
//! following the mouse, and how often its timer fires.
//!
//! The thread itself (waiting on handles, draining messages, reading the
//! cursor, setting the timer) belongs to the application; it hands each
//! observation to a [`Tracker`] and carries out what comes back.
use vstd::prelude::*;
use crate::common::{Point, RenderingQuality, WindowRole};

verus! {

/// A message from the main thread to the position thread.
#[derive(Clone, Copy, Debug, PartialEq, Eq, Structural)]
pub enum ControlMessage {
    /// The active role changed: place the overlay again.
    ResetPosition,
    /// End the thread.
    Terminate,
    /// The overlay became visible: place it again.
    Refresh,
}

/// What the thread waits for next.
#[derive(Clone, Copy, Debug, PartialEq, Eq, Structural)]
pub enum WaitMode {
    /// Hidden: only the wake event and posted messages, without a timeout.
    Idle,
    /// Shown and at rest: also mouse input, without a timeout.
    IdleWithMouse,
    /// Shown and following the mouse: the wake event or the timer, with a
    /// short timeout.
    Tracking,
}

/// What the thread does with a control message.
#[derive(Clone, Copy, Debug, PartialEq, Eq, Structural)]
pub enum ControlAction {
    /// Reconnect the position animation, read the cursor and place the
    /// overlay there.
    Reposition,
    /// Leave the thread.
    Stop,
}

/// What the thread does after it woke up.
#[derive(Clone, Copy, Debug, PartialEq, Eq, Structural)]
pub struct WakeAction {
    /// Place the overlay at the cursor position that was read.
    pub reposition: bool,
    /// Arm the timer with this interval (in 100 ns units, negative for a
    /// relative time), or leave it unarmed.
    pub timer: Option<i64>,
}

/// Timer intervals: 60, 120, 240 and 480 per second.
pub const INTERVAL_60HZ: i64 = -166_666;
pub const INTERVAL_120HZ: i64 = -83_333;
pub const INTERVAL_240HZ: i64 = -41_666;
pub const INTERVAL_480HZ: i64 = -20_833;

/// How long the mouse may rest before the thread stops following it.
pub const IDLE_LIMIT_MS: u64 = 2000;

/// The timer interval: the floating window of a shown overlay follows at the
/// rate of the rendering quality; anything else at 60 per second.
pub open spec fn spec_timer_interval(displayed: bool, role: WindowRole, quality: RenderingQuality) -> i64 {
    if displayed && role != WindowRole::Fixed {
        match quality {
            RenderingQuality::Performance => INTERVAL_60HZ,
            RenderingQuality::Balanced => INTERVAL_120HZ,
            RenderingQuality::HighQuality => INTERVAL_240HZ,
            RenderingQuality::Ultra => INTERVAL_480HZ,
        }
    } else {
        INTERVAL_60HZ
    }
}

/// The timer interval for the role and quality.
pub fn timer_interval(displayed: bool, role: WindowRole, quality: RenderingQuality) -> (r: i64)
    ensures
        r == spec_timer_interval(displayed, role, quality),
{
    if displayed && role != WindowRole::Fixed {
        match quality {
            RenderingQuality::Performance => INTERVAL_60HZ,
            RenderingQuality::Balanced => INTERVAL_120HZ,
            RenderingQuality::HighQuality => INTERVAL_240HZ,
            RenderingQuality::Ultra => INTERVAL_480HZ,
        }
    } else {
        INTERVAL_60HZ
    }
}

/// The milliseconds from `since` to `now`; zero if the clock reads earlier.
pub open spec fn elapsed(since: u64, now: u64) -> int {
    if now >= since {
        now - since
    } else {
        0
    }
}

/// The state that the position thread keeps between wake-ups.
#[derive(Clone, Copy, Debug, PartialEq, Eq, Structural)]
pub struct Tracker {
    /// Whether it follows the mouse on a timer.
    pub is_tracking: bool,
    /// The cursor position it last placed the overlay at.
    pub last_pt: Point,
    /// When the mouse last moved, in milliseconds of a monotonic clock.
    pub last_move_ms: u64,
}

/// The state after a wake-up, and what to do.
pub open spec fn spec_after_wake(
    t: Tracker,
    displayed: bool,
    raw_notified: bool,
    current: Point,
    now_ms: u64,
    role: WindowRole,
    quality: RenderingQuality,
) -> (Tracker, WakeAction) {
    if !displayed {
        (Tracker { is_tracking: false, ..t }, WakeAction { reposition: false, timer: None })
    } else {
        let t1 = if raw_notified {
            Tracker { is_tracking: true, last_move_ms: now_ms, ..t }
        } else {
            t
        };
        let moved = current != t1.last_pt;
        let t2 = if moved {
            Tracker { is_tracking: true, last_pt: current, last_move_ms: now_ms }
        } else if t1.is_tracking && elapsed(t1.last_move_ms, now_ms) > IDLE_LIMIT_MS {
            Tracker { is_tracking: false, ..t1 }
        } else {
            t1
        };
        (
            t2,
            WakeAction {
                reposition: moved,
                timer: if t2.is_tracking {
                    Some(spec_timer_interval(displayed, role, quality))
                } else {
                    None
                },
            },
        )
    }
}

impl Tracker {
    /// The state at the thread's start: at rest, at the origin, moved `now_ms`.
    pub fn new(now_ms: u64) -> (r: Self)
        ensures
            r == (Tracker { is_tracking: false, last_pt: Point { x: 0, y: 0 }, last_move_ms: now_ms }),
    {
        Tracker { is_tracking: false, last_pt: Point { x: 0, y: 0 }, last_move_ms: now_ms }
    }

    /// Handles a control message: a reset or a refresh places the overlay
    /// and starts following the mouse; a termination ends the thread.
    pub fn on_control(&mut self, msg: ControlMessage) -> (r: ControlAction)
        ensures
            r == (if msg == ControlMessage::Terminate {
                ControlAction::Stop
            } else {
                ControlAction::Reposition
            }),
            *final(self) == (if msg == ControlMessage::Terminate {
                *old(self)
            } else {
                Tracker { is_tracking: true, ..*old(self) }
            }),
    {
        match msg {
            ControlMessage::ResetPosition | ControlMessage::Refresh => {
                self.is_tracking = true;
                ControlAction::Reposition
            },
            ControlMessage::Terminate => ControlAction::Stop,
        }
    }

    /// What to wait for next.
    pub fn wait_mode(&self, displayed: bool) -> (r: WaitMode)
        ensures
            r == (if !displayed {
                WaitMode::Idle
            } else if !self.is_tracking {
                WaitMode::IdleWithMouse
            } else {
                WaitMode::Tracking
            }),
    {
        if !displayed {
            WaitMode::Idle
        } else if !self.is_tracking {
            WaitMode::IdleWithMouse
        } else {
            WaitMode::Tracking
        }
    }

    /// Handles a wake-up: `displayed` is whether the overlay is shown,
    /// `raw_notified` whether mouse input arrived, `current` the cursor
    /// position and `now_ms` the clock. A hidden overlay stops the tracking;
    /// mouse input or a moved cursor starts it; a cursor at rest for longer
    /// than the idle limit ends it. The timer runs while tracking.
    pub fn after_wake(
        &mut self,
        displayed: bool,
        raw_notified: bool,
        current: Point,
        now_ms: u64,
        role: WindowRole,
        quality: RenderingQuality,
    ) -> (r: WakeAction)
        ensures
            (*final(self), r) == spec_after_wake(
                *old(self),
                displayed,
                raw_notified,
                current,
                now_ms,
                role,
                quality,
            ),
    {
        if !displayed {
            self.is_tracking = false;
            return WakeAction { reposition: false, timer: None };
        }
        if raw_notified {
            self.is_tracking = true;
            self.last_move_ms = now_ms;
        }
        let moved = current != self.last_pt;
        if moved {
            self.last_pt = current;
            self.last_move_ms = now_ms;
            self.is_tracking = true;
        } else if self.is_tracking && now_ms.saturating_sub(self.last_move_ms) > IDLE_LIMIT_MS {
            self.is_tracking = false;
        }
        let timer = if self.is_tracking {
            Some(timer_interval(displayed, role, quality))
        } else {
            None
        };
        WakeAction { reposition: moved, timer }
    }
}

/// A hidden overlay is never moved, stops following the mouse and leaves
/// the timer unarmed; a shown one arms the timer exactly while following,
/// and is moved exactly when the cursor left the last position.
pub proof fn law_wake_up(
    t: Tracker,
    displayed: bool,
    raw_notified: bool,
    current: Point,
    now_ms: u64,
    role: WindowRole,
    quality: RenderingQuality,
)
    ensures
        ({
            let (t2, a) = spec_after_wake(t, displayed, raw_notified, current, now_ms, role, quality);
            &&& !displayed ==> !t2.is_tracking && !a.reposition && a.timer is None
            &&& displayed ==> (a.timer is Some <==> t2.is_tracking)
            &&& displayed ==> (a.reposition <==> current != t.last_pt)
            &&& a.reposition ==> t2.is_tracking && t2.last_pt == current
        }),
{
}

/// The fixed window is timed at 60 per second whatever the quality, and a
/// better quality never slows the floating window down.
pub proof fn law_interval_follows_quality(displayed: bool)
    ensures
        forall|q: RenderingQuality| #[trigger]
            spec_timer_interval(displayed, WindowRole::Fixed, q) == INTERVAL_60HZ,
        spec_timer_interval(displayed, WindowRole::Floating, RenderingQuality::Performance)
            <= spec_timer_interval(displayed, WindowRole::Floating, RenderingQuality::Balanced)
            <= spec_timer_interval(displayed, WindowRole::Floating, RenderingQuality::HighQuality)
            <= spec_timer_interval(displayed, WindowRole::Floating, RenderingQuality::Ultra) < 0,
{
}

} // verus!
