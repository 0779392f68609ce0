//! The geometry model: one monitor's placement on the virtual desktop.

use vstd::prelude::*;

verus! {

/// Position unit of the X11 coordinate space: signed, pixel-accurate.
pub type CoordinateType = i16;

/// Size unit of the X11 coordinate space: unsigned, pixel-accurate.
pub type ProportionType = u16;

/// One monitor's virtual-desktop placement: position and size in the
/// platform's native units.
///
/// Values returned by enumeration always have positive extent; a caller may
/// construct a degenerate one on purpose for a custom capture.
#[derive(Debug, Copy, Clone, PartialEq, Eq, Structural)]
pub struct Display {
    top: CoordinateType,
    left: CoordinateType,
    width: ProportionType,
    height: ProportionType,
}

impl Display {
    /// The vertical position, as stored.
    pub closed spec fn spec_top(&self) -> CoordinateType {
        self.top
    }

    /// The horizontal position, as stored.
    pub closed spec fn spec_left(&self) -> CoordinateType {
        self.left
    }

    /// The width, as stored.
    pub closed spec fn spec_width(&self) -> ProportionType {
        self.width
    }

    /// The height, as stored.
    pub closed spec fn spec_height(&self) -> ProportionType {
        self.height
    }

    /// The display value with the given position and size.
    pub closed spec fn spec_new(
        top: CoordinateType,
        left: CoordinateType,
        width: ProportionType,
        height: ProportionType,
    ) -> Display {
        Display { top, left, width, height }
    }

    /// Constructs a display value verbatim: no validation happens here, so a
    /// caller may describe any rectangle, including a degenerate one.
    pub fn new(
        top: CoordinateType,
        left: CoordinateType,
        width: ProportionType,
        height: ProportionType,
    ) -> (r: Display)
        ensures
            r == Display::spec_new(top, left, width, height),
            r.spec_top() == top,
            r.spec_left() == left,
            r.spec_width() == width,
            r.spec_height() == height,
    {
        Display { top, left, width, height }
    }

    /// The width of the described rectangle.
    pub fn width(&self) -> (r: ProportionType)
        ensures
            r == self.spec_width(),
    {
        self.width
    }

    /// The height of the described rectangle.
    pub fn height(&self) -> (r: ProportionType)
        ensures
            r == self.spec_height(),
    {
        self.height
    }

    /// The vertical position of the described rectangle.
    pub(crate) fn top(&self) -> (r: CoordinateType)
        ensures
            r == self.spec_top(),
    {
        self.top
    }

    /// The horizontal position of the described rectangle.
    pub(crate) fn left(&self) -> (r: CoordinateType)
        ensures
            r == self.spec_left(),
    {
        self.left
    }
}

} // verus!
