//! The overlay window's style bits: a borderless popup that is shown, and an
//! extended style that makes it layered, click-through, non-activating,
//! kept off the taskbar and topmost.
use vstd::prelude::*;

verus! {

pub const WS_CAPTION: u32 = 0x00C0_0000;
pub const WS_THICKFRAME: u32 = 0x0004_0000;
pub const WS_POPUP: u32 = 0x8000_0000;
pub const WS_VISIBLE: u32 = 0x1000_0000;

pub const WS_EX_TOPMOST: u32 = 0x0000_0008;
pub const WS_EX_TRANSPARENT: u32 = 0x0000_0020;
pub const WS_EX_TOOLWINDOW: u32 = 0x0000_0080;
pub const WS_EX_LAYERED: u32 = 0x0008_0000;
pub const WS_EX_NOREDIRECTIONBITMAP: u32 = 0x0020_0000;
pub const WS_EX_NOACTIVATE: u32 = 0x0800_0000;

/// The overlay's window style when set outright.
pub const OVERLAY_STYLE: u32 = 0x9000_0000;

/// The overlay's extended style when set outright.
pub const OVERLAY_EX_STYLE: u32 = 0x0828_00A8;

/// The frame bits that a popup drops: the caption and the sizing border.
pub open spec fn frame_bits() -> u32 {
    WS_CAPTION | WS_THICKFRAME
}

/// The extended bits that the overlay needs.
pub open spec fn overlay_ex_bits() -> u32 {
    WS_EX_LAYERED | WS_EX_TRANSPARENT | WS_EX_NOACTIVATE | WS_EX_TOOLWINDOW | WS_EX_TOPMOST
        | WS_EX_NOREDIRECTIONBITMAP
}

/// The window style `old` turned into a shown popup: the caption and the
/// sizing border removed, the popup and visible bits set, every other bit
/// kept.
pub fn popup_style(old: u32) -> (r: u32)
    ensures
        r == (old & !frame_bits()) | WS_POPUP | WS_VISIBLE,
{
    (old & !(WS_CAPTION | WS_THICKFRAME)) | WS_POPUP | WS_VISIBLE
}

/// The extended style `old` with the overlay's bits added.
pub fn overlay_ex_style(old: u32) -> (r: u32)
    ensures
        r == old | overlay_ex_bits(),
{
    old | (WS_EX_LAYERED | WS_EX_TRANSPARENT | WS_EX_NOACTIVATE | WS_EX_TOOLWINDOW | WS_EX_TOPMOST
        | WS_EX_NOREDIRECTIONBITMAP)
}

/// Bit by bit: a popup style has the popup and visible bits, has neither
/// frame bit, and keeps every other bit of the old style; the extended style
/// keeps every old bit and has each overlay bit. Applied to an empty style,
/// both give the styles that are set outright.
pub proof fn law_style_bits(old: u32, ex_old: u32, bit: u32)
    requires
        bit < 32,
    ensures
        ((old & !frame_bits()) | WS_POPUP | WS_VISIBLE) & WS_POPUP == WS_POPUP,
        ((old & !frame_bits()) | WS_POPUP | WS_VISIBLE) & WS_VISIBLE == WS_VISIBLE,
        ((old & !frame_bits()) | WS_POPUP | WS_VISIBLE) & frame_bits() == 0,
        (frame_bits() | WS_POPUP | WS_VISIBLE) & (1u32 << bit) == 0 ==> (((old & !frame_bits())
            | WS_POPUP | WS_VISIBLE) & (1u32 << bit)) == (old & (1u32 << bit)),
        (ex_old | overlay_ex_bits()) & ex_old == ex_old,
        (ex_old | overlay_ex_bits()) & overlay_ex_bits() == overlay_ex_bits(),
        (0u32 & !frame_bits()) | WS_POPUP | WS_VISIBLE == OVERLAY_STYLE,
        0u32 | overlay_ex_bits() == OVERLAY_EX_STYLE,
{
    assert(((old & !(0x00C0_0000u32 | 0x0004_0000u32)) | 0x8000_0000u32 | 0x1000_0000u32)
        & 0x8000_0000u32 == 0x8000_0000u32) by (bit_vector);
    assert(((old & !(0x00C0_0000u32 | 0x0004_0000u32)) | 0x8000_0000u32 | 0x1000_0000u32)
        & 0x1000_0000u32 == 0x1000_0000u32) by (bit_vector);
    assert(((old & !(0x00C0_0000u32 | 0x0004_0000u32)) | 0x8000_0000u32 | 0x1000_0000u32) & (
    0x00C0_0000u32 | 0x0004_0000u32) == 0) by (bit_vector);
    assert(((0x00C0_0000u32 | 0x0004_0000u32) | 0x8000_0000u32 | 0x1000_0000u32) & (1u32 << bit)
        == 0 ==> (((old & !(0x00C0_0000u32 | 0x0004_0000u32)) | 0x8000_0000u32 | 0x1000_0000u32)
        & (1u32 << bit)) == (old & (1u32 << bit))) by (bit_vector)
        requires
            bit < 32,
    ;
    let e: u32 = 0x0008_0000u32 | 0x0000_0020u32 | 0x0800_0000u32 | 0x0000_0080u32 | 0x0000_0008u32
        | 0x0020_0000u32;
    assert((ex_old | e) & ex_old == ex_old) by (bit_vector);
    assert((ex_old | e) & e == e) by (bit_vector);
    assert((0u32 & !(0x00C0_0000u32 | 0x0004_0000u32)) | 0x8000_0000u32 | 0x1000_0000u32
        == 0x9000_0000u32) by (bit_vector);
    assert(0u32 | (0x0008_0000u32 | 0x0000_0020u32 | 0x0800_0000u32 | 0x0000_0080u32 | 0x0000_0008u32
        | 0x0020_0000u32) == 0x0828_00A8u32) by (bit_vector);
}

} // verus!
