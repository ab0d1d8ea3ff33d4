//! Plane geometry for the game: points, axis-aligned rectangles, and the
//! overlap test between two rectangles.

use vstd::prelude::*;

verus! {

/// A point or velocity in the plane, in fixed-point coordinates.
#[derive(Clone, Copy, PartialEq, Eq, Structural, Debug)]
pub struct Vec2 {
    pub x: i64,
    pub y: i64,
}

/// An axis-aligned rectangle, given by its lower-left corner `(min_x, min_y)`
/// and its upper-right corner `(max_x, max_y)`.
#[derive(Clone, Copy, PartialEq, Eq, Structural, Debug)]
pub struct Rect {
    pub min_x: i64,
    pub min_y: i64,
    pub max_x: i64,
    pub max_y: i64,
}

/// The mathematical model of a rectangle: the same corners, as unbounded
/// integers.
pub ghost struct RectModel {
    pub min_x: int,
    pub min_y: int,
    pub max_x: int,
    pub max_y: int,
}

impl View for Rect {
    type V = RectModel;

    open spec fn view(&self) -> RectModel {
        RectModel {
            min_x: self.min_x as int,
            min_y: self.min_y as int,
            max_x: self.max_x as int,
            max_y: self.max_y as int,
        }
    }
}

impl RectModel {
    /// A rectangle is empty when it is flat or inverted on some axis: it then
    /// has no interior points.
    pub open spec fn is_empty(self) -> bool {
        self.min_x >= self.max_x || self.min_y >= self.max_y
    }
}

/// Two rectangles overlap when they share an interior point: on each axis,
/// each one starts strictly before the other ends. Rectangles that merely
/// touch along an edge do not overlap.
pub open spec fn overlaps(a: RectModel, b: RectModel) -> bool {
    a.min_x < b.max_x && b.min_x < a.max_x && a.min_y < b.max_y && b.min_y < a.max_y
}

/// The intersection of two rectangles: componentwise maximum of the lower
/// corners and minimum of the upper corners.
pub open spec fn spec_intersect(a: RectModel, b: RectModel) -> RectModel {
    RectModel {
        min_x: if a.min_x >= b.min_x {
            a.min_x
        } else {
            b.min_x
        },
        min_y: if a.min_y >= b.min_y {
            a.min_y
        } else {
            b.min_y
        },
        max_x: if a.max_x <= b.max_x {
            a.max_x
        } else {
            b.max_x
        },
        max_y: if a.max_y <= b.max_y {
            a.max_y
        } else {
            b.max_y
        },
    }
}

/// The square of side `width` centred on `(cx, cy)`.
pub open spec fn spec_make_rect(cx: int, cy: int, width: int) -> RectModel {
    RectModel {
        min_x: cx - width / 2,
        min_y: cy - width / 2,
        max_x: cx + width / 2,
        max_y: cy + width / 2,
    }
}

impl Rect {
    pub fn is_empty(&self) -> (r: bool)
        ensures
            r == self@.is_empty(),
    {
        self.min_x >= self.max_x || self.min_y >= self.max_y
    }

    pub fn intersect(&self, other: &Rect) -> (r: Rect)
        ensures
            r@ == spec_intersect(self@, other@),
    {
        Rect {
            min_x: if self.min_x >= other.min_x {
                self.min_x
            } else {
                other.min_x
            },
            min_y: if self.min_y >= other.min_y {
                self.min_y
            } else {
                other.min_y
            },
            max_x: if self.max_x <= other.max_x {
                self.max_x
            } else {
                other.max_x
            },
            max_y: if self.max_y <= other.max_y {
                self.max_y
            } else {
                other.max_y
            },
        }
    }
}

/// The square of side `width` centred on `center`.
pub fn make_rect(center: Vec2, width: i64) -> (r: Rect)
    requires
        0 <= width,
        i64::MIN + width <= center.x <= i64::MAX - width,
        i64::MIN + width <= center.y <= i64::MAX - width,
    ensures
        r@ == spec_make_rect(center.x as int, center.y as int, width as int),
{
    let size: i64 = width / 2;
    Rect {
        min_x: center.x - size,
        min_y: center.y - size,
        max_x: center.x + size,
        max_y: center.y + size,
    }
}

impl RectModel {
    /// A proper rectangle has a real interior: each lower corner coordinate
    /// lies strictly below its upper counterpart.
    pub open spec fn is_proper(self) -> bool {
        self.min_x < self.max_x && self.min_y < self.max_y
    }
}

/// For proper rectangles, the intersection is empty exactly when they do not
/// overlap. (A flat or inverted rectangle would break this: its intersection
/// with anything is empty, while the strict comparisons of `overlaps` can
/// still all hold.)
pub proof fn lemma_intersect_empty_iff_no_overlap(a: RectModel, b: RectModel)
    requires
        a.is_proper(),
        b.is_proper(),
    ensures
        spec_intersect(a, b).is_empty() <==> !overlaps(a, b),
{
}

/// Overlapping is symmetric.
pub proof fn lemma_overlaps_symmetric(a: RectModel, b: RectModel)
    ensures
        overlaps(a, b) == overlaps(b, a),
{
}

} // verus!
