//! Input Mode Viewer: the decision logic of a desktop overlay that shows the
//! current IME input mode near the text cursor or at a fixed screen position.
pub mod common;
pub mod text;
pub mod japanese;
pub mod japanese_flow;
pub mod taskbar;
pub mod window_style;
pub mod show_state;
pub mod process;
pub mod capability;
pub mod display;
pub mod layout;
pub mod tracking;
pub mod render;
pub mod icon;
pub mod events;
pub mod privilege;
