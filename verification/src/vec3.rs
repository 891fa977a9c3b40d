//! Three-axis fixed-point coordinate vectors.

use vstd::prelude::*;

use crate::fx::{
    fx_add, fx_div, fx_mul, fx_sqrt, fx_sub, fxs_add, fxs_div, fxs_mul, fxs_sqrt, fxs_sub,
};

verus! {

/// A position, velocity, acceleration or per-axis limit vector, one
/// fixed-point component per axis.
#[derive(Clone, Copy, Debug, PartialEq, Eq, Structural)]
pub struct Coord3 {
    pub x: i64,
    pub y: i64,
    pub z: i64,
}

/// Component-wise saturating sum.
pub open spec fn cs_plus(a: Coord3, b: Coord3) -> Coord3 {
    Coord3 {
        x: fxs_add(a.x as int, b.x as int) as i64,
        y: fxs_add(a.y as int, b.y as int) as i64,
        z: fxs_add(a.z as int, b.z as int) as i64,
    }
}

/// Component-wise saturating difference.
pub open spec fn cs_minus(a: Coord3, b: Coord3) -> Coord3 {
    Coord3 {
        x: fxs_sub(a.x as int, b.x as int) as i64,
        y: fxs_sub(a.y as int, b.y as int) as i64,
        z: fxs_sub(a.z as int, b.z as int) as i64,
    }
}

/// Every component multiplied by the fixed-point scalar `s`.
pub open spec fn cs_scale(a: Coord3, s: int) -> Coord3 {
    Coord3 {
        x: fxs_mul(a.x as int, s) as i64,
        y: fxs_mul(a.y as int, s) as i64,
        z: fxs_mul(a.z as int, s) as i64,
    }
}

/// Fixed-point dot product, summed left to right.
pub open spec fn cs_dot(a: Coord3, b: Coord3) -> int {
    fxs_add(
        fxs_add(fxs_mul(a.x as int, b.x as int), fxs_mul(a.y as int, b.y as int)),
        fxs_mul(a.z as int, b.z as int),
    )
}

/// Euclidean norm in fixed point: the square root of the dot product with
/// itself.
pub open spec fn cs_norm(a: Coord3) -> int {
    fxs_sqrt(cs_dot(a, a))
}

/// The vector scaled to unit length; the zero vector when the norm is zero.
pub open spec fn cs_normalize(a: Coord3) -> Coord3 {
    let n = cs_norm(a);
    if n == 0 {
        Coord3 { x: 0, y: 0, z: 0 }
    } else {
        Coord3 {
            x: fxs_div(a.x as int, n) as i64,
            y: fxs_div(a.y as int, n) as i64,
            z: fxs_div(a.z as int, n) as i64,
        }
    }
}

/// Fixed-point cross product.
pub open spec fn cs_cross(a: Coord3, b: Coord3) -> Coord3 {
    Coord3 {
        x: fxs_sub(fxs_mul(a.y as int, b.z as int), fxs_mul(a.z as int, b.y as int)) as i64,
        y: fxs_sub(fxs_mul(a.z as int, b.x as int), fxs_mul(a.x as int, b.z as int)) as i64,
        z: fxs_sub(fxs_mul(a.x as int, b.y as int), fxs_mul(a.y as int, b.x as int)) as i64,
    }
}

impl Coord3 {
    pub fn new(x: i64, y: i64, z: i64) -> (r: Coord3)
        ensures
            r == (Coord3 { x, y, z }),
    {
        Coord3 { x, y, z }
    }

    pub fn zeros() -> (r: Coord3)
        ensures
            r == (Coord3 { x: 0i64, y: 0i64, z: 0i64 }),
    {
        Coord3 { x: 0, y: 0, z: 0 }
    }

    pub fn plus(&self, rhs: &Coord3) -> (r: Coord3)
        ensures
            r == cs_plus(*self, *rhs),
    {
        Coord3 {
            x: fx_add(self.x, rhs.x),
            y: fx_add(self.y, rhs.y),
            z: fx_add(self.z, rhs.z),
        }
    }

    pub fn minus(&self, rhs: &Coord3) -> (r: Coord3)
        ensures
            r == cs_minus(*self, *rhs),
    {
        Coord3 {
            x: fx_sub(self.x, rhs.x),
            y: fx_sub(self.y, rhs.y),
            z: fx_sub(self.z, rhs.z),
        }
    }

    pub fn scale(&self, s: i64) -> (r: Coord3)
        ensures
            r == cs_scale(*self, s as int),
    {
        Coord3 {
            x: fx_mul(self.x, s),
            y: fx_mul(self.y, s),
            z: fx_mul(self.z, s),
        }
    }

    pub fn dot(&self, rhs: &Coord3) -> (r: i64)
        ensures
            r as int == cs_dot(*self, *rhs),
    {
        fx_add(
            fx_add(fx_mul(self.x, rhs.x), fx_mul(self.y, rhs.y)),
            fx_mul(self.z, rhs.z),
        )
    }

    pub fn norm(&self) -> (r: i64)
        ensures
            r as int == cs_norm(*self),
    {
        fx_sqrt(self.dot(self))
    }

    pub fn normalize(&self) -> (r: Coord3)
        ensures
            r == cs_normalize(*self),
    {
        let n = self.norm();
        if n == 0 {
            Coord3 { x: 0, y: 0, z: 0 }
        } else {
            Coord3 {
                x: fx_div(self.x, n),
                y: fx_div(self.y, n),
                z: fx_div(self.z, n),
            }
        }
    }

    pub fn cross(&self, rhs: &Coord3) -> (r: Coord3)
        ensures
            r == cs_cross(*self, *rhs),
    {
        Coord3 {
            x: fx_sub(fx_mul(self.y, rhs.z), fx_mul(self.z, rhs.y)),
            y: fx_sub(fx_mul(self.z, rhs.x), fx_mul(self.x, rhs.z)),
            z: fx_sub(fx_mul(self.x, rhs.y), fx_mul(self.y, rhs.x)),
        }
    }
}

} // verus!
