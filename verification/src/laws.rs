//! The library's laws: properties of the tick transition and its parts,
//! stated and proved once for all inputs.

use crate::fixed::SCALE;
use crate::fixed::lemma_div_fixed_zero;
use crate::fixed::lemma_mul_fixed_zero;
use crate::fixed::sat64;
use crate::fixed::spec_add_sat;
use crate::fixed::spec_mul_fixed;
use crate::player::phys::PlayerPhys;
use crate::player::phys::spec_accel;
use crate::player::phys::spec_friction_vel_x;
use crate::player::phys::spec_max2;
use crate::player::phys::spec_min2;
use crate::player::phys::spec_new_loc;
use crate::player::phys::spec_reflect;
use crate::player::phys::spec_tick_probes;
use crate::player::phys::spec_vel_integrated;
use crate::player::phys::spec_x_max_agg;
use crate::player::phys::spec_x_min_agg;
use crate::player::phys::spec_y_max_agg;
use crate::player::phys::spec_y_min_agg;
use crate::player::phys::tick_spec;
use crate::vec2::Vec2;
use crate::world::WorldMap;
use vstd::arithmetic::div_mod::lemma_div_is_ordered;
use vstd::arithmetic::div_mod::lemma_div_multiples_vanish;
use vstd::math::abs;
use vstd::prelude::*;

verus! {

/// Horizontal friction never flips the sign of the velocity within one tick:
/// the result has the sign of the input or is exactly zero, and is never
/// faster than the input.
pub proof fn lemma_friction_preserves_sign(vx: i64, fric_x: i64, dt: i64)
    ensures
        spec_friction_vel_x(vx, fric_x, dt) == 0 || ((spec_friction_vel_x(vx, fric_x, dt) < 0)
            <==> (vx < 0)),
        abs(spec_friction_vel_x(vx, fric_x, dt)) <= abs(vx as int),
{
}

/// Reflecting a velocity off a boundary with a bounce factor between 0 and 1
/// never increases its magnitude.
pub proof fn lemma_reflect_no_energy_gain(v: int, b: int)
    requires
        0 <= b <= SCALE,
        i64::MIN <= v <= i64::MAX,
    ensures
        abs(spec_reflect(v, b)) <= abs(v),
{
    let n = crate::fixed::spec_neg_sat(v);
    assert(abs(n) <= abs(v));
    let x = n * b;
    crate::fixed::lemma_mul_sign_abs(n, b);
    let an = abs(n) as int;
    assert(abs(x) == an * b);
    assert(an * b <= an * (SCALE as int)) by (nonlinear_arith)
        requires
            0 <= b <= SCALE as int,
            an >= 0,
    ;
    lemma_div_is_ordered(abs(x) as int, an * (SCALE as int), SCALE as int);
    lemma_div_multiples_vanish(an, SCALE as int);
    assert(an * (SCALE as int) == (SCALE as int) * an) by (nonlinear_arith);
    assert((abs(x) as int) / (SCALE as int) <= an);
    assert(abs(crate::fixed::div_trunc(x, SCALE as int)) == (abs(x) as int) / (SCALE as int));
    assert(abs(sat64(crate::fixed::div_trunc(x, SCALE as int))) <= abs(
        crate::fixed::div_trunc(x, SCALE as int),
    ));
}

/// A sequence member is one of four named values.
proof fn lemma_member4(s: Seq<int>, a: int, b: int, c: int, d: int, x: int)
    requires
        s == seq![a, b, c, d],
        s.contains(x),
    ensures
        x == a || x == b || x == c || x == d,
{
    let i = choose|i: int| 0 <= i < s.len() && s[i] == x;
    assert(s.len() == 4);
    if i == 0 {
        assert(s[0] == a);
    } else if i == 1 {
        assert(s[1] == b);
    } else if i == 2 {
        assert(s[2] == c);
    } else {
        assert(s[3] == d);
    }
}

/// Multi-probe aggregation is order-independent: two probe tuples holding the
/// same values (in any order) have the same most-restrictive aggregates, both
/// for the `max`-of-minima and the `min`-of-maxima side.
pub proof fn lemma_aggregate_order_independent(
    a: int,
    b: int,
    c: int,
    d: int,
    p: int,
    q: int,
    r: int,
    s: int,
)
    requires
        seq![a, b, c, d].to_multiset() == seq![p, q, r, s].to_multiset(),
    ensures
        spec_max2(spec_max2(a, b), spec_max2(c, d)) == spec_max2(spec_max2(p, q), spec_max2(r, s)),
        spec_min2(spec_min2(a, b), spec_min2(c, d)) == spec_min2(spec_min2(p, q), spec_min2(r, s)),
{
    let s1 = seq![a, b, c, d];
    let s2 = seq![p, q, r, s];
    s1.to_multiset_ensures();
    s2.to_multiset_ensures();
    let hi1 = spec_max2(spec_max2(a, b), spec_max2(c, d));
    let hi2 = spec_max2(spec_max2(p, q), spec_max2(r, s));
    assert(s1.contains(hi1)) by {
        if hi1 == a {
            assert(s1[0] == a);
        } else if hi1 == b {
            assert(s1[1] == b);
        } else if hi1 == c {
            assert(s1[2] == c);
        } else {
            assert(s1[3] == d);
        }
    }
    assert(s2.contains(hi2)) by {
        if hi2 == p {
            assert(s2[0] == p);
        } else if hi2 == q {
            assert(s2[1] == q);
        } else if hi2 == r {
            assert(s2[2] == r);
        } else {
            assert(s2[3] == s);
        }
    }
    assert(s1.to_multiset().count(hi1) > 0);
    assert(s2.to_multiset().count(hi1) > 0);
    assert(s2.contains(hi1));
    assert(s2.to_multiset().count(hi2) > 0);
    assert(s1.to_multiset().count(hi2) > 0);
    assert(s1.contains(hi2));
    lemma_member4(s2, p, q, r, s, hi1);
    lemma_member4(s1, a, b, c, d, hi2);
    let lo1 = spec_min2(spec_min2(a, b), spec_min2(c, d));
    let lo2 = spec_min2(spec_min2(p, q), spec_min2(r, s));
    assert(s1.contains(lo1)) by {
        if lo1 == a {
            assert(s1[0] == a);
        } else if lo1 == b {
            assert(s1[1] == b);
        } else if lo1 == c {
            assert(s1[2] == c);
        } else {
            assert(s1[3] == d);
        }
    }
    assert(s2.contains(lo2)) by {
        if lo2 == p {
            assert(s2[0] == p);
        } else if lo2 == q {
            assert(s2[1] == q);
        } else if lo2 == r {
            assert(s2[2] == r);
        } else {
            assert(s2[3] == s);
        }
    }
    assert(s1.to_multiset().count(lo1) > 0);
    assert(s2.to_multiset().count(lo1) > 0);
    assert(s2.contains(lo1));
    assert(s2.to_multiset().count(lo2) > 0);
    assert(s1.to_multiset().count(lo2) > 0);
    assert(s1.contains(lo2));
    lemma_member4(s2, p, q, r, s, lo1);
    lemma_member4(s1, a, b, c, d, lo2);
}

/// The three-probe form of aggregation order-independence, for the edges
/// probed at three offsets.
pub proof fn lemma_aggregate3_order_independent(
    a: int,
    b: int,
    c: int,
    p: int,
    q: int,
    r: int,
)
    requires
        seq![a, b, c].to_multiset() == seq![p, q, r].to_multiset(),
    ensures
        spec_max2(spec_max2(a, b), c) == spec_max2(spec_max2(p, q), r),
        spec_min2(spec_min2(a, b), c) == spec_min2(spec_min2(p, q), r),
{
    let s1 = seq![a, b, c];
    let s2 = seq![p, q, r];
    s1.to_multiset_ensures();
    s2.to_multiset_ensures();
    let hi1 = spec_max2(spec_max2(a, b), c);
    let hi2 = spec_max2(spec_max2(p, q), r);
    let lo1 = spec_min2(spec_min2(a, b), c);
    let lo2 = spec_min2(spec_min2(p, q), r);
    assert(s1.contains(hi1) && s1.contains(lo1)) by {
        assert(s1[0] == a && s1[1] == b && s1[2] == c);
    }
    assert(s2.contains(hi2) && s2.contains(lo2)) by {
        assert(s2[0] == p && s2[1] == q && s2[2] == r);
    }
    assert(s1.to_multiset().count(hi1) > 0 && s1.to_multiset().count(lo1) > 0);
    assert(s2.to_multiset().count(hi1) > 0 && s2.to_multiset().count(lo1) > 0);
    assert(s2.contains(hi1) && s2.contains(lo1));
    assert(s2.to_multiset().count(hi2) > 0 && s2.to_multiset().count(lo2) > 0);
    assert(s1.to_multiset().count(hi2) > 0 && s1.to_multiset().count(lo2) > 0);
    assert(s1.contains(hi2) && s1.contains(lo2));
    assert forall|x: int| s2.contains(x) implies x == p || x == q || x == r by {
        let i = choose|i: int| 0 <= i < s2.len() && s2[i] == x;
        assert(s2[0] == p && s2[1] == q && s2[2] == r);
    }
    assert forall|x: int| s1.contains(x) implies x == a || x == b || x == c by {
        let i = choose|i: int| 0 <= i < s1.len() && s1[i] == x;
        assert(s1[0] == a && s1[1] == b && s1[2] == c);
    }
}

/// A tick changes none of the body's configuration: forces, mass and size
/// pass through unchanged, so a valid state stays valid.
pub proof fn lemma_tick_preserves_params(p: PlayerPhys, w: WorldMap, dt: i64)
    ensures
        tick_spec(p, w, dt).force == p.force,
        tick_spec(p, w, dt).movement_forces == p.movement_forces,
        tick_spec(p, w, dt).mass == p.mass,
        tick_spec(p, w, dt).size == p.size,
        p.wf() ==> tick_spec(p, w, dt).wf(),
{
}

/// A body at rest directly on a collision tile with bounce factor zero stays
/// at rest: after one tick with no applied forces its vertical velocity is
/// exactly zero and its height unchanged — gravity is countered by the floor
/// clamp. (The tick must actually press the body into the floor: for a
/// timestep so small that the gravity displacement truncates to zero the
/// clamp never fires and a residual downward velocity remains.)
pub proof fn lemma_rest_on_floor(p: PlayerPhys, w: WorldMap, dt: i64)
    requires
        p.wf(),
        w.wf(),
        dt > 0,
        p.vel == (Vec2 { x: 0i64, y: 0i64 }),
        p.force == (Vec2 { x: 0i64, y: 0i64 }),
        p.movement_forces == (Vec2 { x: 0i64, y: 0i64 }),
        spec_tick_probes(p, w).material is Some,
        spec_tick_probes(p, w).material->Some_0.0 == 0,
        p.loc.y == spec_y_min_agg(spec_tick_probes(p, w)),
        spec_new_loc(p, dt).y < p.loc.y,
        spec_x_min_agg(spec_tick_probes(p, w)) <= p.loc.x,
        spec_add_sat(p.loc.x as int, p.size.x as int) <= spec_x_max_agg(spec_tick_probes(p, w)),
        spec_add_sat(p.loc.y as int, p.size.y as int) <= spec_y_max_agg(spec_tick_probes(p, w)),
    ensures
        tick_spec(p, w, dt).vel.y == 0,
        tick_spec(p, w, dt).loc.y == p.loc.y,
{
    lemma_div_fixed_zero(p.mass as int);
    lemma_mul_fixed_zero(dt as int);
    let accel = spec_accel(p);
    assert(accel == (Vec2 { x: 0i64, y: 0i64 }));
    let vel1 = spec_vel_integrated(p, dt);
    assert(vel1.x == 0);
    let new_loc = spec_new_loc(p, dt);
    assert(new_loc.x == p.loc.x);
    let pr = spec_tick_probes(p, w);
    let fric = pr.material->Some_0.1;
    assert(spec_friction_vel_x(0i64, fric.x, dt) == 0);
    assert(spec_reflect(vel1.y as int, 0) == 0) by {
        lemma_mul_fixed_zero(crate::fixed::spec_neg_sat(vel1.y as int));
    }
}

/// One tick of a body colliding with its probed boundaries never leaves the
/// tick with more vertical speed than the body hit them with: for any bounce
/// factor between 0 and 1, the post-tick |velocity.y| is bounded by the
/// magnitude of the integrated (impact) vertical velocity.
pub proof fn lemma_bounce_no_energy_gain(p: PlayerPhys, w: WorldMap, dt: i64)
    requires
        p.wf(),
        w.wf(),
        dt > 0,
        spec_tick_probes(p, w).material is Some ==> 0 <= spec_tick_probes(
            p,
            w,
        ).material->Some_0.0 <= SCALE,
    ensures
        abs(tick_spec(p, w, dt).vel.y as int) <= abs(spec_vel_integrated(p, dt).y as int),
{
    let pr = spec_tick_probes(p, w);
    let b: i64 = if pr.material is Some {
        pr.material->Some_0.0
    } else {
        0
    };
    let vy0 = spec_vel_integrated(p, dt).y;
    let vy1 = if spec_new_loc(p, dt).y < spec_y_min_agg(pr) {
        spec_reflect(vy0 as int, b as int)
    } else {
        vy0 as int
    };
    lemma_reflect_no_energy_gain(vy0 as int, b as int);
    lemma_reflect_no_energy_gain(vy1, b as int);
}

/// The state after `n` ticks.
pub open spec fn spec_ticks(p: PlayerPhys, w: WorldMap, dt: i64, n: nat) -> PlayerPhys
    decreases n,
{
    if n == 0 {
        p
    } else {
        spec_ticks(tick_spec(p, w, dt), w, dt, (n - 1) as nat)
    }
}

/// A tick on which nothing but the accumulated forces touches the horizontal
/// velocity: the feet probes find no collision material (the body is
/// airborne), the horizontal clamps do not fire, and the velocity update does
/// not saturate.
pub open spec fn x_free_step(p: PlayerPhys, w: WorldMap, dt: i64) -> bool {
    let pr = spec_tick_probes(p, w);
    &&& pr.material is None
    &&& spec_new_loc(p, dt).x >= spec_x_min_agg(pr)
    &&& spec_add_sat(spec_new_loc(p, dt).x as int, p.size.x as int) <= spec_x_max_agg(pr)
    &&& i64::MIN <= p.vel.x + spec_mul_fixed(spec_accel(p).x as int, dt as int) <= i64::MAX
}

/// A run of `n` ticks, each of them x-free.
pub open spec fn x_free_run(p: PlayerPhys, w: WorldMap, dt: i64, n: nat) -> bool
    decreases n,
{
    n == 0 || (x_free_step(p, w, dt) && x_free_run(tick_spec(p, w, dt), w, dt, (n - 1) as nat))
}

/// On an x-free tick the horizontal velocity gains exactly the acceleration
/// step `accel.x * dt` — no friction is applied while airborne.
pub proof fn lemma_airborne_tick_vel_x(p: PlayerPhys, w: WorldMap, dt: i64)
    requires
        p.wf(),
        w.wf(),
        dt > 0,
        x_free_step(p, w, dt),
    ensures
        tick_spec(p, w, dt).vel.x == p.vel.x + spec_mul_fixed(spec_accel(p).x as int, dt as int),
{
    lemma_mul_fixed_zero(dt as int);
    let vel1 = spec_vel_integrated(p, dt);
    assert(vel1.x == p.vel.x + spec_mul_fixed(spec_accel(p).x as int, dt as int));
}

/// A body airborne for `n` ticks under constant forces gains horizontal
/// velocity linearly: after `n` ticks, `velocity.x` has grown by exactly
/// `n` times the per-tick acceleration step `(force.x / mass) * dt` — the
/// discrete form of `(F/m) * n * dt`.
pub proof fn lemma_airborne_velocity(p: PlayerPhys, w: WorldMap, dt: i64, n: nat)
    requires
        p.wf(),
        w.wf(),
        dt > 0,
        x_free_run(p, w, dt, n),
    ensures
        spec_ticks(p, w, dt, n).vel.x == p.vel.x + n * spec_mul_fixed(
            spec_accel(p).x as int,
            dt as int,
        ),
    decreases n,
{
    let step = spec_mul_fixed(spec_accel(p).x as int, dt as int);
    if n == 0 {
        assert(0 * step == 0) by (nonlinear_arith);
    } else {
        let p1 = tick_spec(p, w, dt);
        lemma_airborne_tick_vel_x(p, w, dt);
        lemma_tick_preserves_params(p, w, dt);
        assert(spec_accel(p1) == spec_accel(p));
        lemma_airborne_velocity(p1, w, dt, (n - 1) as nat);
        assert(p1.vel.x + (n - 1) * step == p.vel.x + n * step) by (nonlinear_arith)
            requires
                n >= 1,
                p1.vel.x == p.vel.x + step,
        ;
    }
}

} // verus!
