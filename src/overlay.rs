//! The overlay controller: opening the overlay window (create it, then centre
//! it on the primary display) and closing it again.
//!
//! Each operation is a state machine over the host's answers. A driver starts
//! it, performs the action it names, and feeds the host's answer back as the
//! next event until a `Finish` action carries the operation's result.

use vstd::prelude::*;
use crate::geometry::{
    center_position, centered, effective_scale, logical_size_of, scale_or_default, to_logical,
    LogicalSize, PhysicalSize, Position, ScaleFactor,
};

verus! {

/// The identifiers of the windows the shell knows by name.
#[derive(Clone, Copy, Debug, PartialEq, Eq)]
pub enum WindowLabel {
    Main,
    Overlay,
}

/// The identifier text of a window label.
pub open spec fn label_text(label: WindowLabel) -> Seq<char> {
    match label {
        WindowLabel::Main => "main"@,
        WindowLabel::Overlay => "overlay"@,
    }
}

impl WindowLabel {
    /// The identifier under which the host registers the window.
    pub fn as_str(&self) -> (r: &'static str)
        ensures
            r@ == label_text(*self),
    {
        match self {
            WindowLabel::Main => "main",
            WindowLabel::Overlay => "overlay",
        }
    }
}

/// What the host is asked to build when the overlay opens.
#[derive(Clone, Copy, Debug, PartialEq, Eq)]
pub struct OverlayConfig {
    pub label: WindowLabel,
    /// The bundled content resource loaded into the window.
    pub url: &'static str,
    pub title: &'static str,
    pub resizable: bool,
    pub decorations: bool,
    pub always_on_top: bool,
    pub skip_taskbar: bool,
}

/// The fixed overlay window: identifier "overlay", content "overlay.html",
/// title "Drum Overlay", not resizable, no decorations, always on top and kept
/// off the taskbar.
pub open spec fn is_overlay_config(c: OverlayConfig) -> bool {
    &&& c.label == WindowLabel::Overlay
    &&& c.url@ == "overlay.html"@
    &&& c.title@ == "Drum Overlay"@
    &&& !c.resizable
    &&& !c.decorations
    &&& c.always_on_top
    &&& c.skip_taskbar
}

/// The configuration of the overlay window.
pub fn overlay_config() -> (r: OverlayConfig)
    ensures
        is_overlay_config(r),
{
    OverlayConfig {
        label: WindowLabel::Overlay,
        url: "overlay.html",
        title: "Drum Overlay",
        resizable: false,
        decorations: false,
        always_on_top: true,
        skip_taskbar: true,
    }
}

/// What the open operation asks of the host next.
#[derive(Debug, PartialEq, Eq)]
pub enum OpenAction {
    /// Create the window described.
    Build(OverlayConfig),
    /// Ask for the primary display's device size.
    QueryMonitor,
    /// Ask for the window's scale factor; the display has the given size.
    QueryScale(PhysicalSize),
    /// Move the window to the given logical position.
    MoveTo(Position),
    /// The operation is over, with this result.
    Finish(Result<(), String>),
}

/// The host's answer to the open operation's last action.
#[derive(Debug, PartialEq, Eq)]
pub enum OpenEvent {
    /// The window was created, or creating it failed with a message.
    Built(Result<(), String>),
    /// The primary display's device size, or `None` where there is none.
    MonitorFound(Option<PhysicalSize>),
    /// The scale factor, or `None` where it is unavailable, for a display of
    /// the given size.
    ScaleFound(PhysicalSize, Option<ScaleFactor>),
    /// The window was moved, or moving it failed with a message.
    Moved(Result<(), String>),
}

/// The open operation's next action after `event`. A missing display, or a
/// display whose logical size cannot be computed, ends the operation in
/// success without moving the window; host failures end it with their message.
pub open spec fn open_next(event: OpenEvent) -> OpenAction {
    match event {
        OpenEvent::Built(Err(msg)) => OpenAction::Finish(Err(msg)),
        OpenEvent::Built(Ok(())) => OpenAction::QueryMonitor,
        OpenEvent::MonitorFound(None) => OpenAction::Finish(Ok(())),
        OpenEvent::MonitorFound(Some(size)) => OpenAction::QueryScale(size),
        OpenEvent::ScaleFound(size, scale) => match logical_size_of(size, scale_or_default(scale)) {
            None => OpenAction::Finish(Ok(())),
            Some(logical) => OpenAction::MoveTo(centered(logical)),
        },
        OpenEvent::Moved(result) => OpenAction::Finish(result),
    }
}

/// Starts the open operation: build the overlay window.
pub fn open_start() -> (r: OpenAction)
    ensures
        r matches OpenAction::Build(c) && is_overlay_config(c),
{
    OpenAction::Build(overlay_config())
}

/// The open operation's next action after the host answered with `event`.
pub fn open_step(event: OpenEvent) -> (r: OpenAction)
    ensures
        r == open_next(event),
{
    match event {
        OpenEvent::Built(Err(msg)) => OpenAction::Finish(Err(msg)),
        OpenEvent::Built(Ok(())) => OpenAction::QueryMonitor,
        OpenEvent::MonitorFound(None) => OpenAction::Finish(Ok(())),
        OpenEvent::MonitorFound(Some(size)) => OpenAction::QueryScale(size),
        OpenEvent::ScaleFound(size, scale) => match to_logical(size, effective_scale(scale)) {
            None => OpenAction::Finish(Ok(())),
            Some(logical) => OpenAction::MoveTo(center_position(logical)),
        },
        OpenEvent::Moved(result) => OpenAction::Finish(result),
    }
}

/// What the close operation asks of the host next.
#[derive(Debug, PartialEq, Eq)]
pub enum CloseAction {
    /// Look up the window with this identifier among the open windows.
    Lookup(WindowLabel),
    /// Destroy the window with this identifier.
    Destroy(WindowLabel),
    /// The operation is over, with this result.
    Finish(Result<(), String>),
}

/// The host's answer to the close operation's last action.
#[derive(Debug, PartialEq, Eq)]
pub enum CloseEvent {
    /// Whether the window looked up is open.
    LookedUp(bool),
    /// The window was destroyed, or destroying it failed with a message.
    Destroyed(Result<(), String>),
}

/// The first action of the close operation.
pub open spec fn close_first() -> CloseAction {
    CloseAction::Lookup(WindowLabel::Overlay)
}

/// The close operation's next action after `event`: an absent overlay is a
/// successful no-op, a present one is destroyed, and a failed destroy ends the
/// operation with its message.
pub open spec fn close_next(event: CloseEvent) -> CloseAction {
    match event {
        CloseEvent::LookedUp(false) => CloseAction::Finish(Ok(())),
        CloseEvent::LookedUp(true) => CloseAction::Destroy(WindowLabel::Overlay),
        CloseEvent::Destroyed(result) => CloseAction::Finish(result),
    }
}

/// Starts the close operation: look up the overlay window.
pub fn close_start() -> (r: CloseAction)
    ensures
        r == close_first(),
{
    CloseAction::Lookup(WindowLabel::Overlay)
}

/// The close operation's next action after the host answered with `event`.
pub fn close_step(event: CloseEvent) -> (r: CloseAction)
    ensures
        r == close_next(event),
{
    match event {
        CloseEvent::LookedUp(found) => if found {
            CloseAction::Destroy(WindowLabel::Overlay)
        } else {
            CloseAction::Finish(Ok(()))
        },
        CloseEvent::Destroyed(result) => CloseAction::Finish(result),
    }
}


/// Closing finds nothing to do when no overlay is open: the lookup coming back
/// empty ends the operation in success, whatever happened before.
pub proof fn lemma_close_without_overlay_succeeds()
    ensures
        close_next(CloseEvent::LookedUp(false)) == CloseAction::Finish(Ok(())),
{
}

/// The window that opening builds carries the identifier "overlay", and closing
/// looks up and destroys exactly that identifier.
pub proof fn lemma_close_targets_opened_window(config: OverlayConfig)
    requires
        is_overlay_config(config),
    ensures
        label_text(config.label) == "overlay"@,
        close_first() == CloseAction::Lookup(config.label),
        close_next(CloseEvent::LookedUp(true)) == CloseAction::Destroy(config.label),
        close_next(CloseEvent::Destroyed(Ok(()))) == CloseAction::Finish(Ok(())),
{
}

/// A scale factor the host cannot report is taken as 1.0: the overlay is then
/// centred on the display's device size as it is.
pub proof fn lemma_missing_scale_is_unit(size: PhysicalSize)
    ensures
        open_next(OpenEvent::ScaleFound(size, None)) == open_next(
            OpenEvent::ScaleFound(size, Some(ScaleFactor { milli: 1000 })),
        ),
        open_next(OpenEvent::ScaleFound(size, None)) == OpenAction::MoveTo(
            centered(LogicalSize { width: size.width as u64, height: size.height as u64 }),
        ),
{
    assert(size.width as int * 1000 / 1000 == size.width as int);
    assert(size.height as int * 1000 / 1000 == size.height as int);
}

/// Without a primary display the open operation ends in success, with no move
/// requested and no error.
pub proof fn lemma_no_display_still_opens()
    ensures
        open_next(OpenEvent::MonitorFound(None)) == OpenAction::Finish(Ok(())),
{
}

} // verus!
