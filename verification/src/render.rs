//! The renderer's bookkeeping: the alpha mode of the swap chain and when it
//! must be recreated, and the buffer sizes it is given.
use vstd::prelude::*;

verus! {

/// How the swap chain treats the alpha channel.
#[derive(Clone, Copy, Debug, PartialEq, Eq, Structural)]
pub enum AlphaMode {
    /// Colours come premultiplied by alpha: the background can be transparent.
    Premultiplied,
    /// Alpha is ignored: the window is opaque.
    Ignore,
}

/// The alpha mode for a transparent or an opaque window.
pub open spec fn spec_alpha_mode_for(transparent: bool) -> AlphaMode {
    if transparent {
        AlphaMode::Premultiplied
    } else {
        AlphaMode::Ignore
    }
}

/// The alpha mode for a transparent or an opaque window.
pub fn alpha_mode_for(transparent: bool) -> (r: AlphaMode)
    ensures
        r == spec_alpha_mode_for(transparent),
{
    if transparent {
        AlphaMode::Premultiplied
    } else {
        AlphaMode::Ignore
    }
}

/// The swap chain's alpha mode, and a recreation that is due.
#[derive(Clone, Copy, Debug, PartialEq, Eq, Structural)]
pub struct AlphaState {
    /// The mode of the current swap chain.
    pub current: AlphaMode,
    /// A mode to recreate the swap chain with at the next drawing.
    pub pending: Option<AlphaMode>,
}

/// The state after a request for the mode of `transparent`: a recreation is
/// scheduled only when that mode differs from the current one; otherwise
/// the state, a scheduled recreation included, is left as it is.
pub open spec fn spec_request(s: AlphaState, transparent: bool) -> AlphaState {
    if s.current != spec_alpha_mode_for(transparent) {
        AlphaState { pending: Some(spec_alpha_mode_for(transparent)), ..s }
    } else {
        s
    }
}

impl AlphaState {
    /// The state of a new renderer: the mode for `transparent`, with a
    /// recreation in that mode scheduled for the first drawing.
    pub fn new(transparent: bool) -> (r: Self)
        ensures
            r.current == spec_alpha_mode_for(transparent),
            r.pending == Some(spec_alpha_mode_for(transparent)),
    {
        let m = alpha_mode_for(transparent);
        AlphaState { current: m, pending: Some(m) }
    }

    /// Asks for the mode of `transparent`.
    pub fn request_alpha_mode(&mut self, transparent: bool)
        ensures
            *final(self) == spec_request(*old(self), transparent),
    {
        let mode = alpha_mode_for(transparent);
        if self.current != mode {
            self.pending = Some(mode);
        }
    }

    /// Takes the scheduled recreation, if any, before drawing.
    pub fn take_pending(&mut self) -> (r: Option<AlphaMode>)
        ensures
            r == old(self).pending,
            final(self).pending is None,
            final(self).current == old(self).current,
    {
        let r = self.pending;
        self.pending = None;
        r
    }

    /// Settles a recreation of the swap chain in `mode` that was due before
    /// drawing; `ok` tells whether it succeeded. A failed recreation skips
    /// the frame and keeps the old mode; a successful one makes `mode`
    /// current and the frame is drawn. Nothing stays due either way.
    pub fn after_recreate(&mut self, mode: AlphaMode, ok: bool) -> (draw: bool)
        ensures
            draw == ok,
            final(self).current == (if ok {
                mode
            } else {
                old(self).current
            }),
            final(self).pending is None,
    {
        self.pending = None;
        if ok {
            self.current = mode;
        }
        ok
    }

    /// Records that the swap chain was recreated in `mode`.
    pub fn recreated(&mut self, mode: AlphaMode)
        ensures
            final(self).current == mode,
            final(self).pending == old(self).pending,
    {
        self.current = mode;
    }
}

/// After a request, the next drawing recreates the swap chain in the mode
/// asked for whenever that mode is not the current one, provided no other
/// recreation was already scheduled; once recreated, the same request asks
/// for nothing more.
pub proof fn law_request_leads_to_requested_mode(s: AlphaState, transparent: bool)
    requires
        s.pending is None,
    ensures
        ({
            let s1 = spec_request(s, transparent);
            &&& s1.current != spec_alpha_mode_for(transparent) || s1.pending is None
            &&& s1.pending is Some ==> s1.pending == Some(spec_alpha_mode_for(transparent))
            &&& s1.pending is None ==> s1.current == spec_alpha_mode_for(transparent)
        }),
        spec_request(
            AlphaState { current: spec_alpha_mode_for(transparent), pending: None },
            transparent,
        ).pending is None,
{
}

/// The buffer size for a resize to `w` by `h`: nothing for an empty size;
/// otherwise at least as wide as high, so that the drawn background is
/// never narrower than tall.
pub open spec fn spec_buffer_extent(w: u32, h: u32) -> Option<(u32, u32)> {
    if w == 0 || h == 0 {
        None
    } else if w < h {
        Some((h, h))
    } else {
        Some((w, h))
    }
}

/// The buffer size for a resize, or `None` when the resize is skipped.
pub fn buffer_extent(w: u32, h: u32) -> (r: Option<(u32, u32)>)
    ensures
        r == spec_buffer_extent(w, h),
{
    if w == 0 || h == 0 {
        return None;
    }
    let w = if w < h { h } else { w };
    Some((w, h))
}

/// The width of a new swap chain: at least its height.
pub fn swap_chain_width(width: u32, height: u32) -> (r: u32)
    ensures
        r == (if width < height { height } else { width }),
{
    if width < height { height } else { width }
}

} // verus!
