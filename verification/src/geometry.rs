//! Points and axis-aligned rectangles on the pixel grid.
//!
//! The arithmetic is that of `agb_fixnum`, reached through three small
//! wrappers whose contracts are taken from that crate's source.

use vstd::prelude::*;

verus! {

/// Largest magnitude a spawn coordinate may have. What lies between it
/// and the end of `i32` is the room that colliders and scrolling need.
pub const WORLD_LIMIT: i32 = 0x7fff_0000;

/// Largest magnitude the camera offset may have when an entity is updated.
pub const CAMERA_LIMIT: i32 = 0x4000_0000;

/// A point or displacement: `(x, y)`.
#[derive(Clone, Copy, PartialEq, Eq, Debug, Structural)]
pub struct Vector2D {
    pub x: i32,
    pub y: i32,
}

/// A rectangle given by its top-left corner and its size.
#[derive(Clone, Copy, PartialEq, Eq, Debug, Structural)]
pub struct Rect {
    pub position: Vector2D,
    pub size: Vector2D,
}

/// Builds the vector `(x, y)`.
pub fn vec2(x: i32, y: i32) -> (v: Vector2D)
    ensures
        v == (Vector2D { x, y }),
{
    Vector2D { x, y }
}

impl Vector2D {
    /// Both coordinates lie within `WORLD_LIMIT` of the origin.
    pub open spec fn in_world(self) -> bool {
        &&& -WORLD_LIMIT <= self.x <= WORLD_LIMIT
        &&& -WORLD_LIMIT <= self.y <= WORLD_LIMIT
    }

    /// Both coordinates lie within `limit` of the origin.
    pub open spec fn within(self, limit: int) -> bool {
        &&& -limit <= self.x <= limit
        &&& -limit <= self.y <= limit
    }

    /// The difference `self - rhs` has both coordinates in `i32`.
    pub open spec fn minus_fits(self, rhs: Vector2D) -> bool {
        &&& i32::MIN <= self.x - rhs.x <= i32::MAX
        &&& i32::MIN <= self.y - rhs.y <= i32::MAX
    }

    /// The difference `self - rhs`, coordinate by coordinate.
    pub open spec fn minus(self, rhs: Vector2D) -> Vector2D
        recommends
            self.minus_fits(rhs),
    {
        Vector2D { x: (self.x - rhs.x) as i32, y: (self.y - rhs.y) as i32 }
    }
}

/// Calls `agb_fixnum`'s `Sub` for `Vector2D<i32>`, which subtracts
/// coordinate by coordinate with `i32`'s `-`. The contract leaves out the
/// inputs on which that subtraction overflows.
#[verifier::external_body]
pub(crate) fn vec_minus(a: Vector2D, b: Vector2D) -> (r: Vector2D)
    requires
        a.minus_fits(b),
    ensures
        r == a.minus(b),
{
    let d = agb_fixnum::Vector2D::new(a.x, a.y) - agb_fixnum::Vector2D::new(b.x, b.y);
    Vector2D { x: d.x, y: d.y }
}

/// Calls `agb_fixnum`'s `SubAssign` for `Vector2D<i32>`, which applies
/// `i32`'s `-=` to each coordinate. The contract leaves out the inputs on
/// which that subtraction overflows.
#[verifier::external_body]
pub(crate) fn vec_minus_assign(a: &mut Vector2D, b: Vector2D)
    requires
        old(a).minus_fits(b),
    ensures
        *final(a) == old(a).minus(b),
{
    let mut v = agb_fixnum::Vector2D::new(a.x, a.y);
    v -= agb_fixnum::Vector2D::new(b.x, b.y);
    a.x = v.x;
    a.y = v.y;
}

impl Rect {
    /// Builds the rectangle with the given corner and size.
    pub fn new(position: Vector2D, size: Vector2D) -> (r: Rect)
        ensures
            r == (Rect { position, size }),
    {
        Rect { position, size }
    }

    /// The x coordinate one past the right edge.
    pub open spec fn right(self) -> int {
        self.position.x + self.size.x
    }

    /// The y coordinate one past the bottom edge.
    pub open spec fn bottom(self) -> int {
        self.position.y + self.size.y
    }

    /// The far corner `position + size` has both coordinates in `i32`.
    pub open spec fn corners_fit(self) -> bool {
        &&& i32::MIN <= self.right() <= i32::MAX
        &&& i32::MIN <= self.bottom() <= i32::MAX
    }

    /// The two rectangles share interior points: both axis projections
    /// intersect in more than an edge. Touching edges do not count.
    pub open spec fn touches(self, other: Rect) -> bool {
        &&& self.position.x < other.right()
        &&& self.right() > other.position.x
        &&& self.position.y < other.bottom()
        &&& self.bottom() > other.position.y
    }

    /// The region two rectangles have in common, if they touch.
    pub open spec fn overlap(self, other: Rect) -> Option<Rect> {
        if self.touches(other) {
            let left = if self.position.x >= other.position.x {
                self.position.x
            } else {
                other.position.x
            };
            let top = if self.position.y >= other.position.y {
                self.position.y
            } else {
                other.position.y
            };
            let right = if self.right() <= other.right() {
                self.right()
            } else {
                other.right()
            };
            let bottom = if self.bottom() <= other.bottom() {
                self.bottom()
            } else {
                other.bottom()
            };
            Some(
                Rect {
                    position: Vector2D { x: left, y: top },
                    size: Vector2D { x: (right - left) as i32, y: (bottom - top) as i32 },
                },
            )
        } else {
            None
        }
    }
}

/// Calls `agb_fixnum`'s `Rect::overlapping_rect`. By its source it answers
/// `None` unless `touches` holds, which compares with strict `<` and `>`,
/// and otherwise the rectangle from the component-wise maximum of the two
/// top-left corners to the component-wise minimum of the two far corners.
/// It adds position and size of each rectangle, so the contract leaves out
/// rectangles whose far corner is not in `i32`.
#[verifier::external_body]
pub(crate) fn overlapping_rect(a: Rect, b: Rect) -> (r: Option<Rect>)
    requires
        a.corners_fit(),
        b.corners_fit(),
    ensures
        r == a.overlap(b),
{
    let ra = agb_fixnum::Rect::new((a.position.x, a.position.y).into(), (a.size.x, a.size.y).into());
    let rb = agb_fixnum::Rect::new((b.position.x, b.position.y).into(), (b.size.x, b.size.y).into());
    match ra.overlapping_rect(rb) {
        Some(o) => Some(
            Rect {
                position: Vector2D { x: o.position.x, y: o.position.y },
                size: Vector2D { x: o.size.x, y: o.size.y },
            },
        ),
        None => None,
    }
}

} // verus!
