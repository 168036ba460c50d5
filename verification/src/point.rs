//! A three-axis integer vector in milli-g.
use vstd::prelude::*;

verus! {

/// The value of `v` limited to the closed interval `[min, max]`.
pub open spec fn clamp_int(v: int, min: int, max: int) -> int {
    if v < min {
        min
    } else if v > max {
        max
    } else {
        v
    }
}

/// One component limited to `[min, max]`.
fn clamp_axis(v: i32, min: i32, max: i32) -> (r: i32)
    requires
        min <= max,
    ensures
        r == clamp_int(v as int, min as int, max as int),
{
    if v < min {
        min
    } else if v > max {
        max
    } else {
        v
    }
}

/// A processed acceleration reading `(x, y, z)`, corrected for the way the
/// sensor is mounted. Operations give new points and never change one in
/// place.
#[derive(Clone, Copy, Debug, PartialEq, Eq, Structural)]
pub struct Point(pub i32, pub i32, pub i32);

impl Default for Point {
    fn default() -> (p: Point)
        ensures
            p == Point(0, 0, 0),
    {
        Point(0, 0, 0)
    }
}

impl Point {
    /// Create a new point reflected across the origin.
    ///
    /// Each component must have a negation that an `i32` can hold.
    pub fn new_inverted(sample: (i32, i32, i32)) -> (p: Point)
        requires
            sample.0 > i32::MIN,
            sample.1 > i32::MIN,
            sample.2 > i32::MIN,
        ensures
            p.0 == -sample.0,
            p.1 == -sample.1,
            p.2 == -sample.2,
    {
        let (x, y, z) = sample;
        Point(-x, -y, -z)
    }

    /// Return true if the z component is strictly positive.
    pub fn z_up(&self) -> (up: bool)
        ensures
            up == (self.2 > 0),
    {
        self.2 > 0
    }

    /// Return a new point clamped within `[min, max]` on all axes.
    pub fn clamp(self, min: i32, max: i32) -> (p: Point)
        requires
            min <= max,
        ensures
            p.0 == clamp_int(self.0 as int, min as int, max as int),
            p.1 == clamp_int(self.1 as int, min as int, max as int),
            p.2 == clamp_int(self.2 as int, min as int, max as int),
    {
        let Point(x, y, z) = self;
        Point(clamp_axis(x, min, max), clamp_axis(y, min, max), clamp_axis(z, min, max))
    }

    /// Return a new point moved by `(dx, dy, dz)`.
    ///
    /// Each moved component must be one that an `i32` can hold.
    pub fn translate(self, dx: i32, dy: i32, dz: i32) -> (p: Point)
        requires
            i32::MIN <= self.0 + dx <= i32::MAX,
            i32::MIN <= self.1 + dy <= i32::MAX,
            i32::MIN <= self.2 + dz <= i32::MAX,
        ensures
            p.0 == self.0 + dx,
            p.1 == self.1 + dy,
            p.2 == self.2 + dz,
    {
        let Point(x, y, z) = self;
        Point(x + dx, y + dy, z + dz)
    }
}

} // verus!
