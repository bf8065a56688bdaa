//! Display geometry: physical and logical sizes, the display scale factor and
//! the computation that centres the overlay on a display.

use vstd::prelude::*;

verus! {

/// Width, in logical pixels, that the overlay is assumed to have when it is centred.
pub const OVERLAY_WIDTH: u64 = 1920;

/// Height, in logical pixels, that the overlay is assumed to have when it is centred.
pub const OVERLAY_HEIGHT: u64 = 1080;

/// The scale factor used when the host cannot report one: 1.0, in thousandths.
pub const DEFAULT_SCALE_MILLI: u32 = 1000;

/// A display size in device pixels, as the host reports it.
#[derive(Clone, Copy, Debug, PartialEq, Eq)]
pub struct PhysicalSize {
    pub width: u32,
    pub height: u32,
}

/// A display scale factor, in thousandths (1.25 is 1250).
#[derive(Clone, Copy, Debug, PartialEq, Eq)]
pub struct ScaleFactor {
    pub milli: u32,
}

/// A display size in logical pixels: device pixels divided by the scale factor.
#[derive(Clone, Copy, Debug, PartialEq, Eq)]
pub struct LogicalSize {
    pub width: u64,
    pub height: u64,
}

/// A window position in logical pixels; negative values lie left of or above
/// the display's origin.
#[derive(Clone, Copy, Debug, PartialEq, Eq)]
pub struct Position {
    pub x: i64,
    pub y: i64,
}

/// The scale factor that applies when the host reported `reported`.
pub open spec fn scale_or_default(reported: Option<ScaleFactor>) -> ScaleFactor {
    match reported {
        Some(s) => s,
        None => ScaleFactor { milli: DEFAULT_SCALE_MILLI },
    }
}

/// One device-pixel length in logical pixels, rounded down.
pub open spec fn logical_length(device: u32, scale: ScaleFactor) -> int
    recommends
        scale.milli > 0,
{
    device as int * 1000 / scale.milli as int
}

/// The logical size of a display, or `None` where a zero scale factor leaves
/// it undefined.
pub open spec fn logical_size_of(size: PhysicalSize, scale: ScaleFactor) -> Option<LogicalSize> {
    if scale.milli == 0 {
        None
    } else {
        Some(
            LogicalSize {
                width: logical_length(size.width, scale) as u64,
                height: logical_length(size.height, scale) as u64,
            },
        )
    }
}

/// The offset that centres a span of `span` pixels on a display `extent`
/// pixels long, rounded down; negative where the display is the shorter.
pub open spec fn centered_offset(extent: int, span: int) -> int {
    (extent - span) / 2
}

/// The position that centres an overlay of the assumed size on a display of
/// logical size `size`.
pub open spec fn centered(size: LogicalSize) -> Position {
    Position {
        x: centered_offset(size.width as int, OVERLAY_WIDTH as int) as i64,
        y: centered_offset(size.height as int, OVERLAY_HEIGHT as int) as i64,
    }
}

/// The scale factor to compute with: the reported one, or 1.0 where none was
/// reported.
pub fn effective_scale(reported: Option<ScaleFactor>) -> (r: ScaleFactor)
    ensures
        r == scale_or_default(reported),
        reported is None ==> r.milli == DEFAULT_SCALE_MILLI,
{
    match reported {
        Some(s) => s,
        None => ScaleFactor { milli: DEFAULT_SCALE_MILLI },
    }
}

/// Converts a display's device size to logical pixels; `None` where the scale
/// factor is zero and the logical size cannot be computed.
pub fn to_logical(size: PhysicalSize, scale: ScaleFactor) -> (r: Option<LogicalSize>)
    ensures
        r == logical_size_of(size, scale),
        r is None <==> scale.milli == 0,
        r matches Some(l) ==> l.width == size.width as int * 1000 / scale.milli as int
            && l.height == size.height as int * 1000 / scale.milli as int,
{
    if scale.milli == 0 {
        return None;
    }
    let width: u64 = size.width as u64 * 1000 / scale.milli as u64;
    let height: u64 = size.height as u64 * 1000 / scale.milli as u64;
    proof {
        assert(width as int == logical_length(size.width, scale));
        assert(height as int == logical_length(size.height, scale));
    }
    Some(LogicalSize { width, height })
}

/// Rounds `extent - span` halved down to a whole pixel.
fn half_down(extent: u64, span: u64) -> (r: i64)
    requires
        span <= OVERLAY_WIDTH,
    ensures
        r == centered_offset(extent as int, span as int),
{
    if extent >= span {
        ((extent - span) / 2) as i64
    } else {
        let short: u64 = span - extent;
        let r: i64 = -(((short + 1) / 2) as i64);
        proof {
            let d = extent as int - span as int;
            assert(d == -(short as int));
            assert(d / 2 == -((short as int + 1) / 2)) by (nonlinear_arith)
                requires d == -(short as int), short > 0;
        }
        r
    }
}

/// The position that centres the overlay on a display of logical size `size`:
/// `x = (width - 1920) / 2`, `y = (height - 1080) / 2`, rounded down, and
/// negative where the display is narrower or shorter than the overlay.
pub fn center_position(size: LogicalSize) -> (r: Position)
    ensures
        r == centered(size),
        r.x == (size.width as int - 1920) / 2,
        r.y == (size.height as int - 1080) / 2,
{
    Position { x: half_down(size.width, OVERLAY_WIDTH), y: half_down(size.height, OVERLAY_HEIGHT) }
}

} // verus!
