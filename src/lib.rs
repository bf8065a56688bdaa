//! Decision logic of a desktop shell that opens a borderless, always-on-top
//! overlay window centred on the primary display, closes it again, and ends
//! the process when any window asks to be closed.
//!
//! The window host itself (creating, moving and destroying native windows,
//! querying displays) stays outside this library: each operation is a small
//! state machine that tells its driver what to ask the host next and is fed
//! the host's answers back as plain values.

pub mod geometry;
pub mod lifecycle;
pub mod overlay;

pub use geometry::{
    center_position, effective_scale, to_logical, LogicalSize, PhysicalSize, Position,
    ScaleFactor, DEFAULT_SCALE_MILLI, OVERLAY_HEIGHT, OVERLAY_WIDTH,
};
pub use overlay::{
    close_start, close_step, open_start, open_step, overlay_config, CloseAction, CloseEvent,
    OpenAction, OpenEvent, OverlayConfig, WindowLabel,
};
pub use lifecycle::{inspector_window, on_window_event, Control, WindowEventKind, EXIT_ON_CLOSE};
