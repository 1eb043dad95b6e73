//! Screen and window sizes as the host reports them, with the fallback used
//! while the host has no window yet.

use vstd::prelude::*;

verus! {

/// Width of the fallback geometry, in pixels.
pub const FALLBACK_WIDTH: i32 = 1920;

/// Height of the fallback geometry, in pixels.
pub const FALLBACK_HEIGHT: i32 = 1080;

/// A width and a height in pixels.
#[derive(Clone, Copy, Debug, PartialEq, Eq, Structural)]
pub struct Extent {
    pub width: i32,
    pub height: i32,
}

/// How the host currently shows its window.
#[derive(Clone, Copy, Debug, PartialEq, Eq, Structural)]
pub enum DisplayMode {
    Windowed,
    Fullscreen,
    Borderless,
}

/// What the overlay reads of the host's window object.
#[derive(Clone, Copy, Debug, PartialEq, Eq, Structural)]
pub struct WindowInfo {
    /// Size of the screen.
    pub screen: Extent,
    /// The display mode in the host's saved configuration.
    pub mode: DisplayMode,
    /// Configured window size for each display mode.
    pub windowed: Extent,
    pub fullscreen: Extent,
    pub borderless: Extent,
}

/// The geometry used while the host has no window object.
pub open spec fn fallback() -> Extent {
    Extent { width: FALLBACK_WIDTH, height: FALLBACK_HEIGHT }
}

/// The screen size: the host's, or the fallback without a window object.
pub open spec fn screen_of(window: Option<WindowInfo>) -> Extent {
    match window {
        Some(info) => info.screen,
        None => fallback(),
    }
}

/// The window size under the current display mode, or the fallback without
/// a window object.
pub open spec fn window_of(window: Option<WindowInfo>) -> Extent {
    match window {
        Some(info) => match info.mode {
            DisplayMode::Windowed => info.windowed,
            DisplayMode::Fullscreen => info.fullscreen,
            DisplayMode::Borderless => info.borderless,
        },
        None => fallback(),
    }
}

/// The screen size in pixels.
pub fn get_screen_size(window: Option<WindowInfo>) -> (size: Extent)
    ensures
        size == screen_of(window),
{
    match window {
        Some(info) => info.screen,
        None => Extent { width: FALLBACK_WIDTH, height: FALLBACK_HEIGHT },
    }
}

/// The window size in pixels under the host's current display mode.
pub fn window_size(window: Option<WindowInfo>) -> (size: Extent)
    ensures
        size == window_of(window),
{
    match window {
        Some(info) => match info.mode {
            DisplayMode::Windowed => info.windowed,
            DisplayMode::Fullscreen => info.fullscreen,
            DisplayMode::Borderless => info.borderless,
        },
        None => Extent { width: FALLBACK_WIDTH, height: FALLBACK_HEIGHT },
    }
}

/// Without a window object, screen and window are both 1920 by 1080.
pub proof fn lemma_missing_window_falls_back()
    ensures
        screen_of(None) == (Extent { width: 1920, height: 1080 }),
        window_of(None) == (Extent { width: 1920, height: 1080 }),
{
}

} // verus!
