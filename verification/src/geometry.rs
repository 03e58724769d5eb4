//! Integer rectangles in screen coordinates.

use vstd::prelude::*;

verus! {

/// A closed axis-aligned rectangle: every point `(x, y)` with
/// `left <= x <= right` and `top <= y <= bottom`.
pub struct Area {
    pub left: int,
    pub top: int,
    pub right: int,
    pub bottom: int,
}

impl Area {
    /// The rectangle holds at least one point.
    pub open spec fn inhabited(self) -> bool {
        self.left <= self.right && self.top <= self.bottom
    }

    /// The point `(x, y)` lies in the rectangle, edges included.
    pub open spec fn holds(self, x: int, y: int) -> bool {
        self.left <= x <= self.right && self.top <= y <= self.bottom
    }

    /// The point `(x, y)` lies in the rectangle and on none of its edges.
    pub open spec fn holds_strictly(self, x: int, y: int) -> bool {
        self.left < x < self.right && self.top < y < self.bottom
    }

    /// The two rectangles share at least one point.
    pub open spec fn meets(self, other: Area) -> bool {
        self.left <= other.right && other.left <= self.right && self.top <= other.bottom
            && other.top <= self.bottom
    }

    /// Each two of the three rectangles share a point. For rectangles that
    /// hold a point each, this says that one point lies in all three.
    pub open spec fn meets_within(self, other: Area, bounds: Area) -> bool {
        self.meets(other) && self.meets(bounds) && other.meets(bounds)
    }

    /// The square of the given radius around `(x, y)`.
    pub open spec fn around(x: int, y: int, radius: int) -> Area {
        Area { left: x - radius, top: y - radius, right: x + radius, bottom: y + radius }
    }
}

/// The largest coordinate that a touch can report.
pub const COORDINATE_MAX: u16 = 65535;

/// How far around a reported touch the index looks for regions.
pub const TOUCH_RADIUS: u8 = 2;

/// The square that a touch reported at `(x, y)` covers.
pub open spec fn touch_area(y: u16, x: u16) -> Area {
    Area::around(x as int, y as int, TOUCH_RADIUS as int)
}

/// The rectangle from `(x, y)` that is `width` wide and `height` high.
pub open spec fn span(y: u16, x: u16, height: u16, width: u16) -> Area {
    Area { left: x as int, top: y as int, right: x + width, bottom: y + height }
}

/// `edge`, or the largest coordinate where `edge` lies beyond it.
pub open spec fn clip(edge: int) -> int {
    if edge <= COORDINATE_MAX { edge } else { COORDINATE_MAX as int }
}

/// `span(y, x, height, width)`, cut off at the largest coordinate.
pub open spec fn clipped_span(y: u16, x: u16, height: u16, width: u16) -> Area {
    Area { left: x as int, top: y as int, right: clip(x + width), bottom: clip(y + height) }
}

/// The far edge of an extent that starts at `start`, cut off at the largest
/// coordinate.
pub fn far_edge(start: u16, extent: u16) -> (edge: u16)
    ensures
        edge as int == clip(start + extent),
        start <= edge,
{
    if extent <= COORDINATE_MAX - start {
        start + extent
    } else {
        COORDINATE_MAX
    }
}

/// The rectangle starts at the origin and has a width and a height above
/// zero.
pub open spec fn covers_from_origin(bounds: Area) -> bool {
    &&& bounds.left == 0
    &&& bounds.top == 0
    &&& 0 < bounds.right
    &&& 0 < bounds.bottom
}

/// The display `width` wide and `height` high.
pub open spec fn surface(width: u32, height: u32) -> Area {
    Area { left: 0, top: 0, right: width as int, bottom: height as int }
}

/// The part of that display that a touch can reach: the display, cut off
/// at the largest coordinate.
pub open spec fn reachable_surface(width: u32, height: u32) -> Area {
    Area { left: 0, top: 0, right: clip(width as int), bottom: clip(height as int) }
}

/// Beyond the largest coordinate a display holds nothing that a touch could
/// tell: a rectangle within the coordinates of a touch, and the square of
/// any touch, meet the display exactly when they meet the part of it that a
/// touch can reach.
pub proof fn reach_is_the_surface(area: Area, touch_y: u16, touch_x: u16, width: u32, height: u32)
    requires
        in_reach(area),
    ensures
        area.meets(reachable_surface(width, height)) == area.meets(surface(width, height)),
        touch_area(touch_y, touch_x).meets(reachable_surface(width, height)) == touch_area(touch_y, touch_x).meets(
            surface(width, height),
        ),
        area.meets_within(touch_area(touch_y, touch_x), reachable_surface(width, height)) == area.meets_within(
            touch_area(touch_y, touch_x),
            surface(width, height),
        ),
{
}

/// The rectangle holds a point and lies within the coordinates that a touch
/// can report.
pub open spec fn in_reach(area: Area) -> bool {
    &&& 0 <= area.left <= area.right <= COORDINATE_MAX
    &&& 0 <= area.top <= area.bottom <= COORDINATE_MAX
}

/// Cutting a rectangle off at the largest coordinate changes nothing for
/// any touch: the cut rectangle meets the square of a touch, and meets it
/// on the covered part of the screen, exactly when the whole one does.
pub proof fn clipping_is_invisible(
    y: u16,
    x: u16,
    height: u16,
    width: u16,
    touch_y: u16,
    touch_x: u16,
    bounds: Area,
)
    requires
        covers_from_origin(bounds),
    ensures
        in_reach(clipped_span(y, x, height, width)),
        clipped_span(y, x, height, width).meets(touch_area(touch_y, touch_x)) == span(
            y,
            x,
            height,
            width,
        ).meets(touch_area(touch_y, touch_x)),
        clipped_span(y, x, height, width).meets_within(touch_area(touch_y, touch_x), bounds) == span(
            y,
            x,
            height,
            width,
        ).meets_within(touch_area(touch_y, touch_x), bounds),
{
}

/// Three rectangles that hold a point each meet two by two exactly when one
/// point lies in all three.
pub proof fn meeting_shares_a_point(first: Area, second: Area, third: Area)
    requires
        first.inhabited(),
        second.inhabited(),
        third.inhabited(),
    ensures
        first.meets_within(second, third) <==> exists|x: int, y: int|
            #![trigger first.holds(x, y)]
            first.holds(x, y) && second.holds(x, y) && third.holds(x, y),
{
    if first.meets_within(second, third) {
        let x = largest(first.left, second.left, third.left);
        let y = largest(first.top, second.top, third.top);
        assert(first.holds(x, y) && second.holds(x, y) && third.holds(x, y));
    }
}

/// The largest of three numbers.
pub open spec fn largest(a: int, b: int, c: int) -> int {
    if a >= b && a >= c {
        a
    } else if b >= c {
        b
    } else {
        c
    }
}

} // verus!
