//! The per-tick force-integration and collision-resolution state machine.
//!
//! One tick, given the timestep `dt` and the world: integrate forces and
//! gravity into the velocity, advance the location by explicit Euler,
//! re-probe the four boundary directions from the pre-update lattice cell,
//! commit the new location, apply horizontal floor friction if the feet
//! probes found a collision material, and resolve each violated axis limit by
//! reflecting the velocity (scaled by the material's bounce factor) and
//! clamping the location to the boundary. The whole transition is the pure
//! function [`tick_spec`], and [`PlayerPhys::update`] is proved to compute
//! exactly that function.

use crate::constants::GRAVITY_X;
use crate::constants::GRAVITY_Y;
use crate::errors::ConfigurationError;
use crate::fixed::abs_lt;
use crate::fixed::add_sat;
use crate::fixed::floor_div;
use crate::fixed::max;
use crate::fixed::min;
use crate::fixed::mul_fixed;
use crate::fixed::neg_sat;
use crate::fixed::spec_add_sat;
use crate::fixed::spec_mul_fixed;
use crate::fixed::spec_mul_sat;
use crate::fixed::spec_neg_sat;
use crate::fixed::spec_sub_sat;
use crate::fixed::sub_sat;
use crate::probe::ProbeDir;
use crate::probe::probe;
use crate::probe::scan_down_material;
use crate::probe::spec_probe_cell;
use crate::vec2::Vec2;
use crate::world::WorldMap;
use vstd::math::abs;
use vstd::prelude::*;

verus! {

/// The direction the body last moved in; sticky while the horizontal
/// movement force is exactly zero.
#[derive(Clone, Copy, Debug, PartialEq, Eq, Hash, Structural)]
pub enum HorizontalDirection {
    Left,
    Right,
}

/// A recoverable per-tick anomaly, surfaced to the caller instead of logged
/// from inside the simulation.
#[derive(Clone, Copy, Debug, PartialEq, Eq, Structural)]
pub enum TickAnomaly {
    /// An axis limit was violated although the feet probes recorded no
    /// collision material this tick; the clamp fell back to bounce factor 0.
    ClampWithoutMaterial,
}

/// The player's physics state. Locations are meters, velocities m/s,
/// accelerations m/s^2, forces newtons, the mass kilograms, all as
/// fixed-point scalars.
#[derive(Clone, Copy, Debug)]
pub struct PlayerPhys {
    /// Location of the bottom-left corner of the body, m.
    pub loc: Vec2,
    /// Accumulated external force, N.
    pub force: Vec2,
    /// Acceleration derived from the forces last tick, m/s^2.
    pub accel: Vec2,
    /// Velocity, m/s.
    pub vel: Vec2,
    /// Forces from left/right movement input only, N.
    pub movement_forces: Vec2,
    /// Mass, kg; positive by construction.
    pub mass: i64,
    /// Last direction of movement; `Right` by default.
    pub last_direction: HorizontalDirection,
    /// Body width and height from the bottom-left corner, m.
    pub size: Vec2,
    /// Feet-edge probed minima, m (one per probe column).
    pub y0_min: i64,
    pub y1_min: i64,
    pub y2_min: i64,
    /// Head-edge probed maxima, m.
    pub y0_max: i64,
    pub y1_max: i64,
    pub y2_max: i64,
    /// Left-edge probed minima, m (one per probe row).
    pub x0_min: i64,
    pub x1_min: i64,
    pub x2_min: i64,
    pub x3_min: i64,
    /// Right-edge probed maxima, m.
    pub x0_max: i64,
    pub x1_max: i64,
    pub x2_max: i64,
    pub x3_max: i64,
    /// The anomaly of the last tick, if any.
    pub last_anomaly: Option<TickAnomaly>,
}

/// Gravitational acceleration.
pub open spec fn spec_gravity() -> Vec2 {
    Vec2 { x: GRAVITY_X, y: GRAVITY_Y }
}

pub fn gravity() -> (g: Vec2)
    ensures
        g == spec_gravity(),
{
    Vec2 { x: GRAVITY_X, y: GRAVITY_Y }
}

/// The acceleration derived from the accumulated and movement forces.
pub open spec fn spec_accel(p: PlayerPhys) -> Vec2 {
    p.force.spec_plus(p.movement_forces).spec_over(p.mass)
}

/// The velocity after integrating gravity and the derived acceleration.
pub open spec fn spec_vel_integrated(p: PlayerPhys, dt: i64) -> Vec2 {
    p.vel.spec_plus(spec_gravity().spec_times(dt)).spec_plus(spec_accel(p).spec_times(dt))
}

/// The tentative location after one explicit Euler step.
pub open spec fn spec_new_loc(p: PlayerPhys, dt: i64) -> Vec2 {
    p.loc.spec_plus(spec_vel_integrated(p, dt).spec_times(dt))
}

/// The probed boundary for one scan, in world units.
pub open spec fn spec_limit(w: WorldMap, sx: int, sy: int, dir: ProbeDir) -> int {
    spec_mul_sat(spec_probe_cell(w.grid(), w.effect_map@, sx, sy, dir), w.map_px_to_meter as int)
}

/// The collision material recorded by the three feet probes: the latest probe
/// that found a material wins.
pub open spec fn spec_feet_material(w: WorldMap, cx: int, cy: int) -> Option<(i64, Vec2)> {
    let m0 = scan_down_material(w.grid(), w.effect_map@, cx, cy);
    let m1 = scan_down_material(w.grid(), w.effect_map@, spec_add_sat(cx, 1), cy);
    let m2 = scan_down_material(w.grid(), w.effect_map@, spec_add_sat(cx, 2), cy);
    if m2 is Some {
        m2
    } else if m1 is Some {
        m1
    } else {
        m0
    }
}

/// Horizontal floor friction: the friction impulse, sign-matched opposite to
/// the current velocity, is subtracted only when doing so shrinks the speed
/// without flipping its sign; otherwise the velocity is clamped to zero.
pub open spec fn spec_friction_vel_x(vx: i64, fric_x: i64, dt: i64) -> int {
    let f0 = spec_mul_fixed(spec_mul_fixed(fric_x as int, GRAVITY_Y as int), dt as int);
    let f = if vx >= 0 {
        spec_neg_sat(f0)
    } else {
        f0
    };
    let cand = spec_sub_sat(vx as int, f);
    if abs(cand) < abs(vx as int) && ((cand < 0) == (vx < 0)) {
        cand
    } else {
        0
    }
}

/// Velocity reflection against a boundary: negate and scale by the bounce
/// factor.
pub open spec fn spec_reflect(v: int, b: int) -> int {
    spec_mul_fixed(spec_neg_sat(v), b)
}

pub open spec fn spec_max2(a: int, b: int) -> int {
    if a > b {
        a
    } else {
        b
    }
}

pub open spec fn spec_min2(a: int, b: int) -> int {
    if a > b {
        b
    } else {
        a
    }
}

/// Everything the probing phase of one tick computes from the pre-update
/// location: the fourteen per-probe limits (already adjusted to the body's
/// collision box) and the feet material.
pub struct ProbePhase {
    pub y0_min: int,
    pub y1_min: int,
    pub y2_min: int,
    pub y0_max: int,
    pub y1_max: int,
    pub y2_max: int,
    pub x0_min: int,
    pub x1_min: int,
    pub x2_min: int,
    pub x3_min: int,
    pub x0_max: int,
    pub x1_max: int,
    pub x2_max: int,
    pub x3_max: int,
    pub material: Option<(i64, Vec2)>,
}

/// The probing phase of one tick, from the pre-update lattice cell
/// `(cx, cy)`: three feet probes and three head probes across the body's
/// columns, four left and four right probes across its rows; the head maxima
/// are pulled in by one pixel and the left minima pushed out by one, to the
/// edge of the sampled tile.
pub open spec fn spec_probe_phase(w: WorldMap, cx: int, cy: int) -> ProbePhase {
    let px = w.map_px_to_meter as int;
    let cx1 = spec_add_sat(cx, 1);
    let cx2 = spec_add_sat(cx, 2);
    let cy1 = spec_add_sat(cy, 1);
    let cy2 = spec_add_sat(cy, 2);
    let cy3 = spec_add_sat(cy, 3);
    let cy4 = spec_add_sat(cy, 4);
    ProbePhase {
        y0_min: spec_limit(w, cx, cy, ProbeDir::YMin),
        y1_min: spec_limit(w, cx1, cy, ProbeDir::YMin),
        y2_min: spec_limit(w, cx2, cy, ProbeDir::YMin),
        y0_max: spec_sub_sat(spec_limit(w, cx, cy4, ProbeDir::YMax), px),
        y1_max: spec_sub_sat(spec_limit(w, cx1, cy4, ProbeDir::YMax), px),
        y2_max: spec_sub_sat(spec_limit(w, cx2, cy4, ProbeDir::YMax), px),
        x0_min: spec_add_sat(spec_limit(w, cx, cy1, ProbeDir::XMin), px),
        x1_min: spec_add_sat(spec_limit(w, cx, cy2, ProbeDir::XMin), px),
        x2_min: spec_add_sat(spec_limit(w, cx, cy3, ProbeDir::XMin), px),
        x3_min: spec_add_sat(spec_limit(w, cx, cy4, ProbeDir::XMin), px),
        x0_max: spec_limit(w, cx2, cy1, ProbeDir::XMax),
        x1_max: spec_limit(w, cx2, cy2, ProbeDir::XMax),
        x2_max: spec_limit(w, cx2, cy3, ProbeDir::XMax),
        x3_max: spec_limit(w, cx2, cy4, ProbeDir::XMax),
        material: spec_feet_material(w, cx, cy),
    }
}

/// The most restrictive aggregate boundary on each side: the largest of the
/// minimum-side probes and the smallest of the maximum-side probes.
pub open spec fn spec_x_min_agg(pr: ProbePhase) -> int {
    spec_max2(spec_max2(pr.x0_min, pr.x1_min), spec_max2(pr.x2_min, pr.x3_min))
}

pub open spec fn spec_y_min_agg(pr: ProbePhase) -> int {
    spec_max2(spec_max2(pr.y0_min, pr.y1_min), pr.y2_min)
}

pub open spec fn spec_x_max_agg(pr: ProbePhase) -> int {
    spec_min2(spec_min2(pr.x0_max, pr.x1_max), spec_min2(pr.x2_max, pr.x3_max))
}

pub open spec fn spec_y_max_agg(pr: ProbePhase) -> int {
    spec_min2(spec_min2(pr.y0_max, pr.y1_max), pr.y2_max)
}

/// The axis clamps of one tick, applied in order (left, right, bottom, top),
/// each reflecting the velocity by the bounce factor `b` and clamping the
/// location to the violated boundary. Returns the resolved location and
/// velocity and whether any clamp fired.
pub open spec fn spec_resolve(
    loc: Vec2,
    vel: Vec2,
    size: Vec2,
    b: i64,
    x_min: int,
    x_max: int,
    y_min: int,
    y_max: int,
) -> (Vec2, Vec2, bool) {
    let (vx1, lx1, hit1) = if loc.x < x_min {
        (spec_reflect(vel.x as int, b as int), x_min, true)
    } else {
        (vel.x as int, loc.x as int, false)
    };
    let (vx2, lx2, hit2) = if spec_add_sat(lx1, size.x as int) > x_max {
        (spec_reflect(vx1, b as int), spec_sub_sat(x_max, size.x as int), true)
    } else {
        (vx1, lx1, false)
    };
    let (vy1, ly1, hit3) = if loc.y < y_min {
        (spec_reflect(vel.y as int, b as int), y_min, true)
    } else {
        (vel.y as int, loc.y as int, false)
    };
    let (vy2, ly2, hit4) = if spec_add_sat(ly1, size.y as int) > y_max {
        (spec_reflect(vy1, b as int), spec_sub_sat(y_max, size.y as int), true)
    } else {
        (vy1, ly1, false)
    };
    (
        Vec2 { x: lx2 as i64, y: ly2 as i64 },
        Vec2 { x: vx2 as i64, y: vy2 as i64 },
        hit1 || hit2 || hit3 || hit4,
    )
}

/// The facing direction after one tick: follows the sign of the horizontal
/// movement force, sticky when it is exactly zero.
pub open spec fn spec_facing(p: PlayerPhys) -> HorizontalDirection {
    if p.movement_forces.x > 0 {
        HorizontalDirection::Right
    } else if p.movement_forces.x < 0 {
        HorizontalDirection::Left
    } else {
        p.last_direction
    }
}

/// The lattice cell column of the body's pre-update location.
pub open spec fn spec_cell_x(p: PlayerPhys, w: WorldMap) -> int {
    p.loc.x as int / w.map_px_to_meter as int
}

/// The lattice cell row of the body's pre-update location.
pub open spec fn spec_cell_y(p: PlayerPhys, w: WorldMap) -> int {
    p.loc.y as int / w.map_px_to_meter as int
}

/// The probing phase a tick runs from the body's pre-update cell.
pub open spec fn spec_tick_probes(p: PlayerPhys, w: WorldMap) -> ProbePhase {
    spec_probe_phase(w, spec_cell_x(p, w), spec_cell_y(p, w))
}

/// One full tick: the state after `update(dt, w)` on state `p`.
pub open spec fn tick_spec(p: PlayerPhys, w: WorldMap, dt: i64) -> PlayerPhys {
    let accel = spec_accel(p);
    let vel1 = spec_vel_integrated(p, dt);
    let new_loc = spec_new_loc(p, dt);
    let pr = spec_tick_probes(p, w);
    let vel2 = if pr.material is Some {
        Vec2 {
            x: spec_friction_vel_x(vel1.x, pr.material->Some_0.1.x, dt) as i64,
            y: vel1.y,
        }
    } else {
        vel1
    };
    let bounce = if pr.material is Some {
        pr.material->Some_0.0
    } else {
        0
    };
    let (loc3, vel3, hit) = spec_resolve(
        new_loc,
        vel2,
        p.size,
        bounce,
        spec_x_min_agg(pr),
        spec_x_max_agg(pr),
        spec_y_min_agg(pr),
        spec_y_max_agg(pr),
    );
    PlayerPhys {
        loc: loc3,
        accel,
        vel: vel3,
        last_direction: spec_facing(p),
        y0_min: pr.y0_min as i64,
        y1_min: pr.y1_min as i64,
        y2_min: pr.y2_min as i64,
        y0_max: pr.y0_max as i64,
        y1_max: pr.y1_max as i64,
        y2_max: pr.y2_max as i64,
        x0_min: pr.x0_min as i64,
        x1_min: pr.x1_min as i64,
        x2_min: pr.x2_min as i64,
        x3_min: pr.x3_min as i64,
        x0_max: pr.x0_max as i64,
        x1_max: pr.x1_max as i64,
        x2_max: pr.x2_max as i64,
        x3_max: pr.x3_max as i64,
        last_anomaly: if pr.material is None && hit {
            Some(TickAnomaly::ClampWithoutMaterial)
        } else {
            None
        },
        ..p
    }
}

impl PlayerPhys {
    /// A valid state: positive mass and a positive body size, established at
    /// construction and preserved by every tick.
    pub open spec fn wf(self) -> bool {
        &&& self.mass > 0
        &&& self.size.x > 0
        &&& self.size.y > 0
    }

    /// Construct a body at rest. A nonpositive mass or body size is a
    /// configuration error and rejects construction.
    pub fn new(loc: Vec2, mass: i64, size: Vec2) -> (r: Result<PlayerPhys, ConfigurationError>)
        ensures
            r is Ok <==> (mass > 0 && size.x > 0 && size.y > 0),
            r is Ok ==> r->Ok_0 == (PlayerPhys {
                loc,
                force: Vec2 { x: 0i64, y: 0i64 },
                accel: Vec2 { x: 0i64, y: 0i64 },
                vel: Vec2 { x: 0i64, y: 0i64 },
                movement_forces: Vec2 { x: 0i64, y: 0i64 },
                mass,
                last_direction: HorizontalDirection::Right,
                size,
                y0_min: 0i64,
                y1_min: 0i64,
                y2_min: 0i64,
                y0_max: 0i64,
                y1_max: 0i64,
                y2_max: 0i64,
                x0_min: 0i64,
                x1_min: 0i64,
                x2_min: 0i64,
                x3_min: 0i64,
                x0_max: 0i64,
                x1_max: 0i64,
                x2_max: 0i64,
                x3_max: 0i64,
                last_anomaly: None,
            }),
            r is Ok ==> r->Ok_0.wf(),
            r is Err ==> r->Err_0 == (if mass <= 0 {
                ConfigurationError::NonPositiveMass
            } else {
                ConfigurationError::NonPositiveSize
            }),
    {
        if mass <= 0 {
            return Err(ConfigurationError::NonPositiveMass);
        }
        if size.x <= 0 || size.y <= 0 {
            return Err(ConfigurationError::NonPositiveSize);
        }
        Ok(
            PlayerPhys {
                loc,
                force: Vec2::zero(),
                accel: Vec2::zero(),
                vel: Vec2::zero(),
                movement_forces: Vec2::zero(),
                mass,
                last_direction: HorizontalDirection::Right,
                size,
                y0_min: 0,
                y1_min: 0,
                y2_min: 0,
                y0_max: 0,
                y1_max: 0,
                y2_max: 0,
                x0_min: 0,
                x1_min: 0,
                x2_min: 0,
                x3_min: 0,
                x0_max: 0,
                x1_max: 0,
                x2_max: 0,
                x3_max: 0,
                last_anomaly: None,
            },
        )
    }

    /// Add a jump impulse straight to the vertical velocity.
    pub fn jump(&mut self, jump_force: i64)
        ensures
            *final(self) == (PlayerPhys {
                vel: Vec2 {
                    x: old(self).vel.x,
                    y: spec_add_sat(old(self).vel.y as int, jump_force as int) as i64,
                },
                ..*old(self)
            }),
    {
        self.vel.y = add_sat(self.vel.y, jump_force);
    }

    /// One tick of the state machine: exactly the transition [`tick_spec`].
    pub fn update(&mut self, dt: i64, world: &WorldMap)
        requires
            old(self).wf(),
            world.wf(),
            dt > 0,
        ensures
            *final(self) == tick_spec(*old(self), *world, dt),
            final(self).wf(),
    {
        let px = world.map_px_to_meter;
        let forces = self.force.plus(self.movement_forces);
        let accel = forces.over(self.mass);
        let vel1 = self.vel.plus(gravity().times(dt)).plus(accel.times(dt));
        let new_loc = self.loc.plus(vel1.times(dt));

        let cx = floor_div(self.loc.x, px);
        let cy = floor_div(self.loc.y, px);
        let cx1 = add_sat(cx, 1);
        let cx2 = add_sat(cx, 2);
        let cy1 = add_sat(cy, 1);
        let cy2 = add_sat(cy, 2);
        let cy3 = add_sat(cy, 3);
        let cy4 = add_sat(cy, 4);

        let (y0_min, m0) = probe(world, cx, cy, ProbeDir::YMin);
        let (y1_min, m1) = probe(world, cx1, cy, ProbeDir::YMin);
        let (y2_min, m2) = probe(world, cx2, cy, ProbeDir::YMin);
        let material = match m2 {
            Some(_) => m2,
            None => match m1 {
                Some(_) => m1,
                None => m0,
            },
        };

        let (l0, _) = probe(world, cx, cy4, ProbeDir::YMax);
        let y0_max = sub_sat(l0, px);
        let (l1, _) = probe(world, cx1, cy4, ProbeDir::YMax);
        let y1_max = sub_sat(l1, px);
        let (l2, _) = probe(world, cx2, cy4, ProbeDir::YMax);
        let y2_max = sub_sat(l2, px);

        let (l3, _) = probe(world, cx, cy1, ProbeDir::XMin);
        let x0_min = add_sat(l3, px);
        let (l4, _) = probe(world, cx, cy2, ProbeDir::XMin);
        let x1_min = add_sat(l4, px);
        let (l5, _) = probe(world, cx, cy3, ProbeDir::XMin);
        let x2_min = add_sat(l5, px);
        let (l6, _) = probe(world, cx, cy4, ProbeDir::XMin);
        let x3_min = add_sat(l6, px);

        let (x0_max, _) = probe(world, cx2, cy1, ProbeDir::XMax);
        let (x1_max, _) = probe(world, cx2, cy2, ProbeDir::XMax);
        let (x2_max, _) = probe(world, cx2, cy3, ProbeDir::XMax);
        let (x3_max, _) = probe(world, cx2, cy4, ProbeDir::XMax);

        let mut vx = vel1.x;
        let vy = vel1.y;
        if let Some((_, friction_coeff)) = material {
            let f0 = mul_fixed(mul_fixed(friction_coeff.x, GRAVITY_Y), dt);
            let f = if vx >= 0 {
                neg_sat(f0)
            } else {
                f0
            };
            let cand = sub_sat(vx, f);
            vx = if abs_lt(cand, vx) && ((cand < 0) == (vx < 0)) {
                cand
            } else {
                0
            };
        }

        let x_min_agg = max(max(x0_min, x1_min), max(x2_min, x3_min));
        let y_min_agg = max(max(y0_min, y1_min), y2_min);
        let x_max_agg = min(min(x0_max, x1_max), min(x2_max, x3_max));
        let y_max_agg = min(min(y0_max, y1_max), y2_max);

        let bounce = match material {
            Some((b, _)) => b,
            None => 0,
        };
        let mut lx = new_loc.x;
        let mut ly = new_loc.y;
        let mut vy2 = vy;
        let mut violated = false;
        if lx < x_min_agg {
            vx = mul_fixed(neg_sat(vx), bounce);
            lx = x_min_agg;
            violated = true;
        }
        if add_sat(lx, self.size.x) > x_max_agg {
            vx = mul_fixed(neg_sat(vx), bounce);
            lx = sub_sat(x_max_agg, self.size.x);
            violated = true;
        }
        if ly < y_min_agg {
            vy2 = mul_fixed(neg_sat(vy2), bounce);
            ly = y_min_agg;
            violated = true;
        }
        if add_sat(ly, self.size.y) > y_max_agg {
            vy2 = mul_fixed(neg_sat(vy2), bounce);
            ly = sub_sat(y_max_agg, self.size.y);
            violated = true;
        }

        self.accel = accel;
        self.vel = Vec2 { x: vx, y: vy2 };
        self.loc = Vec2 { x: lx, y: ly };
        self.y0_min = y0_min;
        self.y1_min = y1_min;
        self.y2_min = y2_min;
        self.y0_max = y0_max;
        self.y1_max = y1_max;
        self.y2_max = y2_max;
        self.x0_min = x0_min;
        self.x1_min = x1_min;
        self.x2_min = x2_min;
        self.x3_min = x3_min;
        self.x0_max = x0_max;
        self.x1_max = x1_max;
        self.x2_max = x2_max;
        self.x3_max = x3_max;
        if self.movement_forces.x > 0 {
            self.last_direction = HorizontalDirection::Right;
        } else if self.movement_forces.x < 0 {
            self.last_direction = HorizontalDirection::Left;
        }
        self.last_anomaly = if material.is_none() && violated {
            Some(TickAnomaly::ClampWithoutMaterial)
        } else {
            None
        };
    }
}

} // verus!
