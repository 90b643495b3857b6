//! Declarative sizing of a new window: fixed, or computed from a monitor's
//! resolution.

use vstd::prelude::*;

use crate::geometry::LogicalSize;
use crate::geometry::MILLIS_PER_PIXEL;

verus! {

/// Width, in whole logical pixels, of the default window size.
pub const DEFAULT_WINDOW_WIDTH: u32 = 1024;

/// Height, in whole logical pixels, of the default window size.
pub const DEFAULT_WINDOW_HEIGHT: u32 = 768;

/// The default fixed window size as a value.
pub open spec fn spec_default_window_size() -> LogicalSize {
    LogicalSize {
        width_milli: (DEFAULT_WINDOW_WIDTH * MILLIS_PER_PIXEL) as u64,
        height_milli: (DEFAULT_WINDOW_HEIGHT * MILLIS_PER_PIXEL) as u64,
    }
}

/// The size of a window upon creation.
///
/// `F` is the caller's mapping from a monitor's resolution to a window
/// size. It must be a pure, capture-free mapping: the backend controls when
/// and on which execution context it is invoked.
#[derive(Debug, Clone, Copy, PartialEq)]
pub enum Size<F> {
    /// Sets the size of the window directly.
    Fixed(LogicalSize),
    /// Sets the size of the window based on the monitor's resolution.
    ///
    /// The mapping receives the monitor's logical size as input.
    FromScreensize(F),
}

impl<F> Size<F> {
    /// Returns the default fixed window size.
    pub fn default_window_size() -> (r: LogicalSize)
        ensures
            r == spec_default_window_size(),
    {
        LogicalSize::from_pixels(DEFAULT_WINDOW_WIDTH, DEFAULT_WINDOW_HEIGHT)
    }
}

impl<F> Default for Size<F> {
    fn default() -> (r: Self)
        ensures
            r == Size::<F>::Fixed(spec_default_window_size()),
    {
        Size::Fixed(Size::<F>::default_window_size())
    }
}

impl<F> From<LogicalSize> for Size<F> {
    fn from(size: LogicalSize) -> (r: Self) {
        Size::Fixed(size)
    }
}

impl<F> vstd::std_specs::convert::FromSpecImpl<LogicalSize> for Size<F> {
    open spec fn obeys_from_spec() -> bool {
        true
    }

    open spec fn from_spec(size: LogicalSize) -> Self {
        Size::Fixed(size)
    }
}

impl<F: Fn(LogicalSize) -> LogicalSize> Size<F> {
    /// Evaluates this specification against the resolution of a target
    /// monitor, the single-shot computation a backend performs at
    /// window-creation time: a fixed size is returned as it is, and a
    /// `FromScreensize` mapping is applied to `screen`.
    pub fn resolve(self, screen: LogicalSize) -> (r: LogicalSize)
        requires
            self matches Size::FromScreensize(f) ==> call_requires(f, (screen,)),
        ensures
            match self {
                Size::Fixed(size) => r == size,
                Size::FromScreensize(f) => call_ensures(f, (screen,), r),
            },
    {
        match self {
            Size::Fixed(size) => size,
            Size::FromScreensize(f) => f(screen),
        }
    }
}

} // verus!
