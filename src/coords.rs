use vstd::prelude::*;
use vstd::std_specs::ops::{AddSpec, DivSpec, MulSpec, SubSpec};

verus! {

/// A signed 8-bit position or displacement on the board.
#[derive(Clone, Copy, Debug, PartialEq, Eq, Structural)]
pub struct Coords {
    pub x: i8,
    pub y: i8,
}

/// Whether an integer fits in an `i8`.
pub open spec fn fits_i8(v: int) -> bool {
    i8::MIN <= v <= i8::MAX
}

/// Rust's integer division, which truncates toward zero, stated over `int`.
pub open spec fn trunc_div(a: int, b: int) -> int {
    if a >= 0 {
        a / b
    } else {
        -((-a) / b)
    }
}

impl Coords {
    /// Manhattan norm: the sum of the absolute values of both components.
    pub open spec fn spec_l1(self) -> int {
        abs(self.x as int) + abs(self.y as int)
    }

    /// Squared Euclidean norm.
    pub open spec fn spec_l2(self) -> int {
        (self.x as int) * (self.x as int) + (self.y as int) * (self.y as int)
    }

    /// Manhattan norm, computed in `i64` so that `-128` has an absolute value.
    pub fn l1(&self) -> (r: i64)
        ensures
            r == self.spec_l1(),
    {
        let x = self.x as i64;
        let y = self.y as i64;
        let ax: i64 = if x < 0 { -x } else { x };
        let ay: i64 = if y < 0 { -y } else { y };
        ax + ay
    }

    /// Squared Euclidean norm, computed in `i64`, where no 8-bit pair can overflow it.
    pub fn l2(&self) -> (r: i64)
        ensures
            r == self.spec_l2(),
            r >= 0,
    {
        let x = self.x as i64;
        let y = self.y as i64;
        assert(x * x <= 128 * 128 && y * y <= 128 * 128) by (nonlinear_arith)
            requires
                -128 <= x <= 127,
                -128 <= y <= 127,
        ;
        assert(x * x >= 0 && y * y >= 0) by (nonlinear_arith);
        x * x + y * y
    }
}

pub open spec fn abs(v: int) -> int {
    if v < 0 {
        -v
    } else {
        v
    }
}

impl core::ops::Add for Coords {
    type Output = Coords;

    fn add(self, other: Coords) -> (r: Coords) {
        Coords { x: self.x + other.x, y: self.y + other.y }
    }
}

impl vstd::std_specs::ops::AddSpecImpl for Coords {
    open spec fn obeys_add_spec() -> bool {
        true
    }

    open spec fn add_req(self, other: Coords) -> bool {
        fits_i8(self.x + other.x) && fits_i8(self.y + other.y)
    }

    open spec fn add_spec(self, other: Coords) -> Coords {
        Coords { x: (self.x + other.x) as i8, y: (self.y + other.y) as i8 }
    }
}

impl core::ops::Sub for Coords {
    type Output = Coords;

    fn sub(self, other: Coords) -> (r: Coords) {
        Coords { x: self.x - other.x, y: self.y - other.y }
    }
}

impl vstd::std_specs::ops::SubSpecImpl for Coords {
    open spec fn obeys_sub_spec() -> bool {
        true
    }

    open spec fn sub_req(self, other: Coords) -> bool {
        fits_i8(self.x - other.x) && fits_i8(self.y - other.y)
    }

    open spec fn sub_spec(self, other: Coords) -> Coords {
        Coords { x: (self.x - other.x) as i8, y: (self.y - other.y) as i8 }
    }
}

impl core::ops::Mul<i8> for Coords {
    type Output = Coords;

    fn mul(self, scalar: i8) -> (r: Coords) {
        Coords { x: self.x * scalar, y: self.y * scalar }
    }
}

impl vstd::std_specs::ops::MulSpecImpl<i8> for Coords {
    open spec fn obeys_mul_spec() -> bool {
        true
    }

    open spec fn mul_req(self, scalar: i8) -> bool {
        fits_i8(self.x * scalar) && fits_i8(self.y * scalar)
    }

    open spec fn mul_spec(self, scalar: i8) -> Coords {
        Coords { x: (self.x * scalar) as i8, y: (self.y * scalar) as i8 }
    }
}

impl core::ops::Div<i8> for Coords {
    type Output = Coords;

    fn div(self, scalar: i8) -> (r: Coords) {
        Coords { x: self.x / scalar, y: self.y / scalar }
    }
}

impl vstd::std_specs::ops::DivSpecImpl<i8> for Coords {
    open spec fn obeys_div_spec() -> bool {
        true
    }

    /// The divisor is nonzero, and no component is `i8::MIN` divided by `-1`.
    open spec fn div_req(self, scalar: i8) -> bool {
        scalar != 0 && fits_i8(trunc_div(self.x as int, scalar as int)) && fits_i8(
            trunc_div(self.y as int, scalar as int),
        )
    }

    open spec fn div_spec(self, scalar: i8) -> Coords {
        Coords {
            x: trunc_div(self.x as int, scalar as int) as i8,
            y: trunc_div(self.y as int, scalar as int) as i8,
        }
    }
}

/// Subtracting what was added gives back the original coordinates.
pub proof fn lemma_add_then_sub(a: Coords, b: Coords)
    requires
        a.add_req(b),
    ensures
        a.add_spec(b).sub_req(b),
        a.add_spec(b).sub_spec(b) == a,
{
}

/// Dividing by the nonzero factor that was multiplied in gives back the original coordinates.
pub proof fn lemma_mul_then_div(a: Coords, k: i8)
    requires
        k != 0,
        a.mul_req(k),
    ensures
        a.mul_spec(k).div_req(k),
        a.mul_spec(k).div_spec(k) == a,
{
    lemma_trunc_div_of_multiple(a.x as int, k as int);
    lemma_trunc_div_of_multiple(a.y as int, k as int);
}

proof fn lemma_trunc_div_of_multiple(v: int, k: int)
    requires
        k != 0,
    ensures
        trunc_div(v * k, k) == v,
{
    assert((v * k) / k == v) by (nonlinear_arith)
        requires
            k != 0,
    ;
    if v * k < 0 {
        assert(-(v * k) == (-v) * k) by (nonlinear_arith);
        assert(((-v) * k) / k == -v) by (nonlinear_arith)
            requires
                k != 0,
        ;
    }
}

/// The squared Euclidean norm is never negative and never overflows an `i64`.
pub proof fn lemma_l2_bounds(c: Coords)
    ensures
        0 <= c.spec_l2() <= 2 * 128 * 128,
{
    let x = c.x as int;
    let y = c.y as int;
    assert(0 <= x * x <= 128 * 128) by (nonlinear_arith)
        requires
            -128 <= x <= 127,
    ;
    assert(0 <= y * y <= 128 * 128) by (nonlinear_arith)
        requires
            -128 <= y <= 127,
    ;
}

} // verus!
