//! A queryable model of a machine's physical displays, and declarative
//! placement and sizing of new windows relative to them.
//!
//! A windowing backend enumerates displays and folds each descriptor into a
//! [`monitor::MonitorList`]; the resulting snapshot is frozen and answers
//! read-only queries through borrowed [`monitor::MonitorRef`] views. A
//! [`position::Position`] and a [`size::Size`] describe where and how large
//! a new window should appear; the backend resolves them against its live
//! display state at window-creation time.

pub mod geometry;
pub mod monitor;
pub mod position;
pub mod size;

pub use geometry::LogicalSize;
pub use geometry::PhysicalSize;
pub use geometry::Point;
pub use geometry::ScaleFactor;
pub use monitor::MonitorData;
pub use monitor::MonitorIndex;
pub use monitor::MonitorList;
pub use monitor::MonitorRef;
pub use position::Position;
pub use position::PositionOnMonitor;
pub use size::Size;
