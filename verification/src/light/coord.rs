use vstd::prelude::*;

verus! {

/// The length that stands for `1` in coordinates.  The lights sit on
/// a square from `-UNIT` to `UNIT` on both axes, so that the values of
/// a controller stick map onto coordinates without rounding.
pub const UNIT: i32 = 255;

/// A point in the plane of the lights: `.0` is the x axis (right is
/// positive), `.1` the y axis (top is positive), both in units of
/// `1 / UNIT`.
#[derive(Clone, Copy, Debug, PartialEq, Eq, Structural)]
pub struct Coordinate(pub i32, pub i32);

/// The four quadrants of the plane.
#[derive(Clone, Copy, Debug, PartialEq, Eq, Structural)]
pub enum Quadrant {
    TL,
    TR,
    BL,
    BR,
}

impl Coordinate {
    /// The squared distance from the origin.
    pub open spec fn norm_sq(self) -> int {
        self.0 * self.0 + self.1 * self.1
    }

    /// The distance from the origin is larger than `num / den`.
    pub open spec fn length_exceeds_spec(self, num: int, den: int) -> bool {
        den * den * self.norm_sq() > num * num * UNIT * UNIT
    }

    /// Tells whether the distance from the origin is larger than the
    /// fraction `num / den`, computed without rounding.
    pub fn length_exceeds(&self, num: u8, den: u8) -> (r: bool)
        ensures
            r == self.length_exceeds_spec(num as int, den as int),
    {
        let x = self.0 as i128;
        let y = self.1 as i128;
        let d = den as i128;
        let n = num as i128;
        proof {
            assert(0 <= x * x <= 0x4000_0000_0000_0000) by (nonlinear_arith)
                requires -0x8000_0000 <= x <= 0x7fff_ffff;
            assert(0 <= y * y <= 0x4000_0000_0000_0000) by (nonlinear_arith)
                requires -0x8000_0000 <= y <= 0x7fff_ffff;
            assert(0 <= d * d <= 0x1_0000) by (nonlinear_arith)
                requires 0 <= d <= 255;
            assert(0 <= n * n <= 0x1_0000) by (nonlinear_arith)
                requires 0 <= n <= 255;
            let s = x * x + y * y;
            assert(0 <= (d * d) * s <= 0x1_0000 * 0x8000_0000_0000_0000) by (nonlinear_arith)
                requires 0 <= d * d <= 0x1_0000, 0 <= s <= 0x8000_0000_0000_0000;
            assert(0 <= (n * n) * 65025 <= 0x1_0000 * 65025) by (nonlinear_arith)
                requires 0 <= n * n <= 0x1_0000;
        }
        let lhs = (d * d) * (x * x + y * y);
        let rhs = (n * n) * 65025;
        proof {
            assert(d * d * (x * x + y * y) == lhs);
            assert(n * n * UNIT * UNIT == (n * n) * 65025) by (nonlinear_arith);
        }
        lhs > rhs
    }
}

impl Quadrant {
    /// The quadrant that a coordinate lies in.  Points on the y axis
    /// belong to the left quadrants, points on the x axis to the
    /// bottom ones.
    pub open spec fn of(pos: Coordinate) -> Quadrant {
        if pos.0 > 0 && pos.1 > 0 {
            Quadrant::TR
        } else if pos.0 > 0 {
            Quadrant::BR
        } else if pos.1 <= 0 {
            Quadrant::BL
        } else {
            Quadrant::TL
        }
    }

    pub fn from_coordinate(pos: &Coordinate) -> (q: Quadrant)
        ensures
            q == Quadrant::of(*pos),
    {
        if pos.0 > 0 && pos.1 > 0 {
            Quadrant::TR
        } else if pos.0 > 0 {
            Quadrant::BR
        } else if pos.1 <= 0 {
            Quadrant::BL
        } else {
            Quadrant::TL
        }
    }
}

} // verus!
