//! Window geometry: the window is centered on the primary monitor, in
//! logical (DPI-independent) coordinates.

use vstd::prelude::*;
use crate::errors::StartupError;

verus! {

/// The fixed logical width of the window.
pub const WINDOW_WIDTH: u32 = 1280;

/// The fixed logical height of the window.
pub const WINDOW_HEIGHT: u32 = 600;

/// The primary monitor's logical size, as reported by the host.
#[derive(Copy, Clone, Debug, PartialEq, Eq, Structural)]
pub struct MonitorInfo {
    pub width: u32,
    pub height: u32,
}

/// Logical size and position of the window to create, fixed before the
/// window exists and immutable afterwards.
#[derive(Copy, Clone, Debug, PartialEq, Eq, Structural)]
pub struct WindowGeometry {
    pub width: u32,
    pub height: u32,
    pub x: u32,
    pub y: u32,
}

/// Logical position of the top-left corner that centers a window of size
/// `(win_w, win_h)` on a monitor of size `(monitor_w, monitor_h)`.
pub fn center_position(monitor_w: u32, monitor_h: u32, win_w: u32, win_h: u32) -> (r: (u32, u32))
    requires
        win_w <= monitor_w,
        win_h <= monitor_h,
    ensures
        r.0 == (monitor_w - win_w) / 2,
        r.1 == (monitor_h - win_h) / 2,
{
    ((monitor_w - win_w) / 2, (monitor_h - win_h) / 2)
}

/// Plan the window from what the host enumerated. With no monitor the
/// launch cannot proceed; with one, the window of the fixed size is
/// centered on it (an axis on which the monitor is smaller than the
/// window is pinned to its edge instead).
pub fn plan_window(monitor: Option<MonitorInfo>) -> (r: Result<WindowGeometry, StartupError>)
    ensures
        monitor is None <==> (r matches Err(e) && e is NoMonitor),
        monitor matches Some(m) ==> r matches Ok(g) && {
            &&& g.width == WINDOW_WIDTH
            &&& g.height == WINDOW_HEIGHT
            &&& g.x == if m.width >= WINDOW_WIDTH { ((m.width - WINDOW_WIDTH) / 2) as u32 } else { 0u32 }
            &&& g.y == if m.height >= WINDOW_HEIGHT { ((m.height - WINDOW_HEIGHT) / 2) as u32 } else { 0u32 }
        },
{
    match monitor {
        Option::None => Result::Err(StartupError::NoMonitor),
        Option::Some(m) => {
            let x: u32 = if m.width >= WINDOW_WIDTH {
                (m.width - WINDOW_WIDTH) / 2
            } else {
                0
            };
            let y: u32 = if m.height >= WINDOW_HEIGHT {
                (m.height - WINDOW_HEIGHT) / 2
            } else {
                0
            };
            Result::Ok(WindowGeometry { width: WINDOW_WIDTH, height: WINDOW_HEIGHT, x, y })
        },
    }
}

} // verus!
