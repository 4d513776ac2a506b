//! The synthetic input events the refresh sequence is made of.
//!
//! Only the events the fixed sequence actually uses are modeled. Pointer
//! coordinates are plain pixel offsets from the top-left corner of the
//! screen; the reference position is the center of a 1920x1080 display.

use vstd::prelude::*;

verus! {

/// A keyboard key that the refresh sequence presses.
#[derive(Clone, Copy, Debug, PartialEq, Eq, Structural)]
pub enum Key {
    /// The left "meta" (Windows / super) key.
    MetaLeft,
    /// The letter D, combined with meta to show the desktop.
    KeyD,
    /// The letter R, which picks "refresh" from the context menu.
    KeyR,
    /// The alt key, combined with tab to restore the previous window.
    Alt,
    /// The tab key.
    Tab,
}

/// A mouse button that the refresh sequence clicks.
#[derive(Clone, Copy, Debug, PartialEq, Eq, Structural)]
pub enum Button {
    /// The right button, which opens the desktop context menu.
    Right,
}

/// One synthetic input event, ready to be injected at the OS level.
#[derive(Clone, Copy, Debug, PartialEq, Eq, Structural)]
pub enum InputEvent {
    KeyPress(Key),
    KeyRelease(Key),
    ButtonPress(Button),
    ButtonRelease(Button),
    /// Move the pointer to an absolute screen position, in pixels.
    MouseMove { x: u32, y: u32 },
}

/// Horizontal coordinate of the reference pointer position, in pixels.
pub const SCREEN_CENTER_X: u32 = 960;

/// Vertical coordinate of the reference pointer position, in pixels.
pub const SCREEN_CENTER_Y: u32 = 540;

/// The fixed screen position the sequence moves the pointer to: the center
/// of a common 1920x1080 display.
pub fn screen_center() -> (r: (u32, u32))
    ensures
        r.0 == SCREEN_CENTER_X,
        r.1 == SCREEN_CENTER_Y,
{
    (SCREEN_CENTER_X, SCREEN_CENTER_Y)
}

} // verus!
