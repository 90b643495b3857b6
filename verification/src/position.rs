//! Declarative placement of a new window, optionally monitor-relative.

use vstd::prelude::*;

use crate::geometry::Point;
use crate::monitor::MonitorIndex;

verus! {

/// Details how a new window should be positioned.
#[derive(Debug, Clone, Copy, PartialEq, Default)]
pub enum Position {
    /// The platform-specific default position for a new window on the
    /// default screen.
    #[default]
    Default,
    /// The window is completely centered on the default screen.
    Centered,
    /// The window is positioned with specific coordinates on a given
    /// monitor.
    Specific(PositionOnMonitor),
}

/// The position and monitor of a window.
#[derive(Debug, Clone, Copy, PartialEq, Default)]
pub struct PositionOnMonitor {
    /// The index of the monitor on which the window should be positioned.
    /// If `None`, the window will be positioned on the default screen.
    pub monitor_index: Option<MonitorIndex>,
    /// The exact coordinates of the window, in logical units, measured from
    /// the chosen monitor's origin.
    pub position: Point,
}

impl From<Point> for PositionOnMonitor {
    fn from(position: Point) -> (r: Self) {
        PositionOnMonitor { monitor_index: None, position }
    }
}

impl vstd::std_specs::convert::FromSpecImpl<Point> for PositionOnMonitor {
    open spec fn obeys_from_spec() -> bool {
        true
    }

    open spec fn from_spec(position: Point) -> Self {
        PositionOnMonitor { monitor_index: None, position }
    }
}

impl From<PositionOnMonitor> for Position {
    fn from(position_on_monitor: PositionOnMonitor) -> (r: Self) {
        Position::Specific(position_on_monitor)
    }
}

impl vstd::std_specs::convert::FromSpecImpl<PositionOnMonitor> for Position {
    open spec fn obeys_from_spec() -> bool {
        true
    }

    open spec fn from_spec(position_on_monitor: PositionOnMonitor) -> Self {
        Position::Specific(position_on_monitor)
    }
}

impl From<Point> for Position {
    fn from(position: Point) -> (r: Self) {
        Position::Specific(PositionOnMonitor::from(position))
    }
}

impl vstd::std_specs::convert::FromSpecImpl<Point> for Position {
    open spec fn obeys_from_spec() -> bool {
        true
    }

    open spec fn from_spec(position: Point) -> Self {
        Position::Specific(PositionOnMonitor { monitor_index: None, position })
    }
}

} // verus!
