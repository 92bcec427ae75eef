//! The 2D vector primitive: componentwise fixed-point arithmetic.

use crate::fixed::add_sat;
use crate::fixed::div_fixed;
use crate::fixed::mul_fixed;
use crate::fixed::spec_add_sat;
use crate::fixed::spec_div_fixed;
use crate::fixed::spec_mul_fixed;
use crate::fixed::spec_sub_sat;
use crate::fixed::sub_sat;
use vstd::prelude::*;

verus! {

/// A 2D vector of fixed-point scalars (see [`crate::fixed::SCALE`]).
#[derive(Clone, Copy, Debug, PartialEq, Eq, Structural)]
pub struct Vec2 {
    pub x: i64,
    pub y: i64,
}

impl Vec2 {
    /// Componentwise saturating sum.
    pub open spec fn spec_plus(self, o: Vec2) -> Vec2 {
        Vec2 {
            x: spec_add_sat(self.x as int, o.x as int) as i64,
            y: spec_add_sat(self.y as int, o.y as int) as i64,
        }
    }

    /// Componentwise saturating difference.
    pub open spec fn spec_minus(self, o: Vec2) -> Vec2 {
        Vec2 {
            x: spec_sub_sat(self.x as int, o.x as int) as i64,
            y: spec_sub_sat(self.y as int, o.y as int) as i64,
        }
    }

    /// Componentwise product with a scalar, rescaled.
    pub open spec fn spec_times(self, s: i64) -> Vec2 {
        Vec2 {
            x: spec_mul_fixed(self.x as int, s as int) as i64,
            y: spec_mul_fixed(self.y as int, s as int) as i64,
        }
    }

    /// Componentwise quotient by a positive scalar, rescaled.
    pub open spec fn spec_over(self, s: i64) -> Vec2 {
        Vec2 {
            x: spec_div_fixed(self.x as int, s as int) as i64,
            y: spec_div_fixed(self.y as int, s as int) as i64,
        }
    }

    pub fn new(x: i64, y: i64) -> (r: Vec2)
        ensures
            r == (Vec2 { x, y }),
    {
        Vec2 { x, y }
    }

    pub fn zero() -> (r: Vec2)
        ensures
            r == (Vec2 { x: 0i64, y: 0i64 }),
    {
        Vec2 { x: 0, y: 0 }
    }

    pub fn splat(v: i64) -> (r: Vec2)
        ensures
            r == (Vec2 { x: v, y: v }),
    {
        Vec2 { x: v, y: v }
    }

    pub fn plus(self, o: Vec2) -> (r: Vec2)
        ensures
            r == self.spec_plus(o),
    {
        Vec2 { x: add_sat(self.x, o.x), y: add_sat(self.y, o.y) }
    }

    pub fn minus(self, o: Vec2) -> (r: Vec2)
        ensures
            r == self.spec_minus(o),
    {
        Vec2 { x: sub_sat(self.x, o.x), y: sub_sat(self.y, o.y) }
    }

    pub fn times(self, s: i64) -> (r: Vec2)
        ensures
            r == self.spec_times(s),
    {
        Vec2 { x: mul_fixed(self.x, s), y: mul_fixed(self.y, s) }
    }

    pub fn over(self, s: i64) -> (r: Vec2)
        requires
            s > 0,
        ensures
            r == self.spec_over(s),
    {
        Vec2 { x: div_fixed(self.x, s), y: div_fixed(self.y, s) }
    }
}

} // verus!
