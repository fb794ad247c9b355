//! The windows: their sizes and the hotkeys.
use crate::constants::av::BOTTOM_WINDOW_WIDTH;
use crate::constants::av::SCALING_FACTOR;
use crate::constants::av::TOP_WINDOW_WIDTH;
use crate::constants::av::WINDOW_HEIGHT;
use crate::constants::av::WINDOW_WIDTH;
use vstd::prelude::*;

verus! {

/// The size of a window or of its contents, in pixels.
#[derive(Debug, Clone, Copy, PartialEq, Eq, Structural)]
pub struct WindowSize {
    pub width: usize,
    pub height: usize,
}

impl WindowSize {
    /// The size at which a window with these contents is opened.
    pub fn scaled(self) -> (size: WindowSize)
        requires
            self.width * SCALING_FACTOR <= usize::MAX,
            self.height * SCALING_FACTOR <= usize::MAX,
        ensures
            size.width == self.width * SCALING_FACTOR,
            size.height == self.height * SCALING_FACTOR,
    {
        WindowSize { width: self.width * SCALING_FACTOR, height: self.height * SCALING_FACTOR }
    }
}

/// Width of the main window: the upper screen alone when the screens are split, else both
/// screens side by side.
pub open spec fn main_width(split: bool) -> int {
    if split {
        TOP_WINDOW_WIDTH as int
    } else {
        WINDOW_WIDTH as int
    }
}

/// The size of the main window.
pub fn main_window_size(split: bool) -> (size: WindowSize)
    ensures
        size.width == main_width(split),
        size.width == if split {
            TOP_WINDOW_WIDTH
        } else {
            WINDOW_WIDTH
        },
        size.height == WINDOW_HEIGHT,
{
    let width: usize = if split {
        TOP_WINDOW_WIDTH
    } else {
        WINDOW_WIDTH
    };
    WindowSize { width, height: WINDOW_HEIGHT }
}

/// The size of the secondary window, which shows the lower screen when the screens are split.
pub fn secondary_window_size(split: bool) -> (size: Option<WindowSize>)
    ensures
        size is Some <==> split,
        size matches Some(s) ==> s.width == BOTTOM_WINDOW_WIDTH && s.height == WINDOW_HEIGHT,
{
    if split {
        Some(WindowSize { width: BOTTOM_WINDOW_WIDTH, height: WINDOW_HEIGHT })
    } else {
        None
    }
}

/// A key on the keyboard.
#[derive(Debug, Clone, Copy, PartialEq, Eq, Structural)]
pub enum Key {
    Enter,
    Escape,
    Backspace,
    Other,
}

/// What a hotkey does to the main window.
#[derive(Debug, Clone, Copy, PartialEq, Eq, Structural)]
pub enum WindowAction {
    EnterFullscreen,
    ExitFullscreen,
    /// Back to this size, the one at which the window was opened.
    RestoreSize(WindowSize),
}

/// What happens on a key event. A key acts once, when it is pressed: not while it is held down
/// (`repeat`), nor when it is released. The size that is restored is the one at which the main
/// window is opened.
pub fn hotkey(key: Key, pressed: bool, repeat: bool, split: bool) -> (action: Option<WindowAction>)
    ensures
        action is Some <==> pressed && !repeat && key != Key::Other,
        action matches Some(a) ==> match key {
            Key::Enter => a == WindowAction::EnterFullscreen,
            Key::Escape => a == WindowAction::ExitFullscreen,
            Key::Backspace => a matches WindowAction::RestoreSize(size) && size.width
                == main_width(split) * SCALING_FACTOR && size.height == WINDOW_HEIGHT
                * SCALING_FACTOR,
            Key::Other => false,
        },
        action matches Some(WindowAction::RestoreSize(size)) ==> size.width == (if split {
            TOP_WINDOW_WIDTH
        } else {
            WINDOW_WIDTH
        }) * SCALING_FACTOR,
{
    if !pressed || repeat {
        return None;
    }
    match key {
        Key::Enter => Some(WindowAction::EnterFullscreen),
        Key::Escape => Some(WindowAction::ExitFullscreen),
        Key::Backspace => Some(WindowAction::RestoreSize(main_window_size(split).scaled())),
        Key::Other => None,
    }
}

/// The main window is as wide as both screens together, or, with the screens split, as what the
/// secondary window leaves of them.
pub proof fn windows_are_as_wide_as_the_screens()
    ensures
        main_width(false) == 720,
        main_width(true) == 400,
        main_width(true) + BOTTOM_WINDOW_WIDTH == main_width(false),
{
}

} // verus!
