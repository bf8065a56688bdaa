//! Application start-up and shutdown rules: which window gets the developer
//! inspector, and what a window event does to the process.

use vstd::prelude::*;
use crate::overlay::WindowLabel;

verus! {

/// The exit code of the process when a window asks to be closed.
pub const EXIT_ON_CLOSE: i32 = 0;

/// The window events the shell tells apart.
#[derive(Clone, Copy, Debug, PartialEq, Eq)]
pub enum WindowEventKind {
    /// A window's close control was activated.
    CloseRequested,
    /// Any other window event.
    Other,
}

/// What the process does after a window event.
#[derive(Clone, Copy, Debug, PartialEq, Eq)]
pub enum Control {
    /// Keep running.
    Continue,
    /// Terminate at once with this exit code.
    Exit(i32),
}

/// The response to `event` from any window: a close request ends the process
/// with code 0, whichever window sent it; anything else is ignored.
pub open spec fn control_after(event: WindowEventKind) -> Control {
    match event {
        WindowEventKind::CloseRequested => Control::Exit(EXIT_ON_CLOSE),
        WindowEventKind::Other => Control::Continue,
    }
}

/// Decides what the process does after a window reported `event`.
pub fn on_window_event(event: WindowEventKind) -> (r: Control)
    ensures
        r == control_after(event),
        event == WindowEventKind::CloseRequested ==> r == Control::Exit(0),
{
    match event {
        WindowEventKind::CloseRequested => Control::Exit(EXIT_ON_CLOSE),
        WindowEventKind::Other => Control::Continue,
    }
}

/// The window that gets the developer inspector at start-up: the main window in
/// a diagnostic build, none otherwise.
pub fn inspector_window(diagnostic_build: bool) -> (r: Option<WindowLabel>)
    ensures
        diagnostic_build ==> r == Some(WindowLabel::Main),
        !diagnostic_build ==> r is None,
{
    if diagnostic_build {
        Some(WindowLabel::Main)
    } else {
        None
    }
}

} // verus!
