//! The collision probe: from a starting lattice cell, walk pixel by pixel
//! along one of four scan directions until a tile carrying a `Collision`
//! effect is found or the scan leaves the raster, and return where it
//! stopped, with the stopping tile's collision material.
//!
//! Coordinate convention: world cells are addressed as `(x, y)` with y
//! increasing upward, while the raster stores rows top-down, so world row `y`
//! is raster row `height - 1 - y`. A cell is in bounds when `0 <= x < width`
//! and `0 <= y < height`.

use crate::fixed::mul_sat;
use crate::fixed::spec_mul_sat;
use crate::raster::Raster;
use crate::raster::TileColor;
use crate::raster::raster_grid;
use crate::vec2::Vec2;
use crate::world::TileEffect;
use crate::world::TileEffectCondition;
use crate::world::WorldMap;
use crate::world::lemma_material_iff_collision;
use crate::world::scan_effects;
use crate::world::spec_collision_material;
use crate::world::spec_effects_at;
use crate::world::spec_has_collision;
use vstd::prelude::*;

verus! {

/// The four scan directions: toward the feet (-y), the head (+y), the left
/// (-x) and the right (+x).
#[derive(Clone, Copy, Debug, PartialEq, Eq, Structural)]
pub enum ProbeDir {
    YMin,
    YMax,
    XMin,
    XMax,
}

/// Whether world cell `(x, y)` lies inside the raster.
pub open spec fn cell_in_bounds(g: Seq<Seq<(u8, u8, u8, u8)>>, x: int, y: int) -> bool {
    &&& 0 <= y < g.len()
    &&& 0 <= x < g[g.len() - 1 - y].len()
}

/// The color of world cell `(x, y)` (meaningful only in bounds).
pub open spec fn cell_color(g: Seq<Seq<(u8, u8, u8, u8)>>, x: int, y: int) -> TileColor {
    TileColor {
        r: g[g.len() - 1 - y][x].0,
        g: g[g.len() - 1 - y][x].1,
        b: g[g.len() - 1 - y][x].2,
        a: g[g.len() - 1 - y][x].3,
    }
}

/// Whether world cell `(x, y)` is inside the raster and carries a `Collision`
/// effect in the registry `t`.
pub open spec fn solid_at(
    g: Seq<Seq<(u8, u8, u8, u8)>>,
    t: Map<TileColor, (Seq<TileEffect>, Seq<TileEffectCondition>)>,
    x: int,
    y: int,
) -> bool {
    cell_in_bounds(g, x, y) && spec_has_collision(spec_effects_at(t, cell_color(g, x, y)))
}

/// The collision material of world cell `(x, y)`: bounce factor and friction
/// coefficient of its last `Collision` effect.
pub open spec fn material_at(
    g: Seq<Seq<(u8, u8, u8, u8)>>,
    t: Map<TileColor, (Seq<TileEffect>, Seq<TileEffectCondition>)>,
    x: int,
    y: int,
) -> Option<(i64, Vec2)> {
    spec_collision_material(spec_effects_at(t, cell_color(g, x, y)))
}

/// Where a downward scan from `(x, y)` stops: the first cell at or below `y`
/// that is solid or outside the raster.
pub open spec fn scan_down(
    g: Seq<Seq<(u8, u8, u8, u8)>>,
    t: Map<TileColor, (Seq<TileEffect>, Seq<TileEffectCondition>)>,
    x: int,
    y: int,
) -> int
    decreases y + 1,
{
    if !cell_in_bounds(g, x, y) || solid_at(g, t, x, y) {
        y
    } else {
        scan_down(g, t, x, y - 1)
    }
}

/// The material found by a downward scan: `Some` exactly when the scan
/// stopped on a solid cell rather than leaving the raster.
pub open spec fn scan_down_material(
    g: Seq<Seq<(u8, u8, u8, u8)>>,
    t: Map<TileColor, (Seq<TileEffect>, Seq<TileEffectCondition>)>,
    x: int,
    y: int,
) -> Option<(i64, Vec2)>
    decreases y + 1,
{
    if !cell_in_bounds(g, x, y) {
        None
    } else if solid_at(g, t, x, y) {
        material_at(g, t, x, y)
    } else {
        scan_down_material(g, t, x, y - 1)
    }
}

/// Where an upward scan from `(x, y)` stops.
pub open spec fn scan_up(
    g: Seq<Seq<(u8, u8, u8, u8)>>,
    t: Map<TileColor, (Seq<TileEffect>, Seq<TileEffectCondition>)>,
    x: int,
    y: int,
) -> int
    decreases g.len() - y,
{
    if !cell_in_bounds(g, x, y) || solid_at(g, t, x, y) {
        y
    } else {
        scan_up(g, t, x, y + 1)
    }
}

/// The material found by an upward scan.
pub open spec fn scan_up_material(
    g: Seq<Seq<(u8, u8, u8, u8)>>,
    t: Map<TileColor, (Seq<TileEffect>, Seq<TileEffectCondition>)>,
    x: int,
    y: int,
) -> Option<(i64, Vec2)>
    decreases g.len() - y,
{
    if !cell_in_bounds(g, x, y) {
        None
    } else if solid_at(g, t, x, y) {
        material_at(g, t, x, y)
    } else {
        scan_up_material(g, t, x, y + 1)
    }
}

/// Where a leftward scan from `(x, y)` stops.
pub open spec fn scan_left(
    g: Seq<Seq<(u8, u8, u8, u8)>>,
    t: Map<TileColor, (Seq<TileEffect>, Seq<TileEffectCondition>)>,
    x: int,
    y: int,
) -> int
    decreases x + 1,
{
    if !cell_in_bounds(g, x, y) || solid_at(g, t, x, y) {
        x
    } else {
        scan_left(g, t, x - 1, y)
    }
}

/// The material found by a leftward scan.
pub open spec fn scan_left_material(
    g: Seq<Seq<(u8, u8, u8, u8)>>,
    t: Map<TileColor, (Seq<TileEffect>, Seq<TileEffectCondition>)>,
    x: int,
    y: int,
) -> Option<(i64, Vec2)>
    decreases x + 1,
{
    if !cell_in_bounds(g, x, y) {
        None
    } else if solid_at(g, t, x, y) {
        material_at(g, t, x, y)
    } else {
        scan_left_material(g, t, x - 1, y)
    }
}

/// Where a rightward scan from `(x, y)` stops.
pub open spec fn scan_right(
    g: Seq<Seq<(u8, u8, u8, u8)>>,
    t: Map<TileColor, (Seq<TileEffect>, Seq<TileEffectCondition>)>,
    x: int,
    y: int,
) -> int
    decreases (if 0 <= y < g.len() {
        g[g.len() - 1 - y].len() as int
    } else {
        0
    }) - x,
{
    if !cell_in_bounds(g, x, y) || solid_at(g, t, x, y) {
        x
    } else {
        scan_right(g, t, x + 1, y)
    }
}

/// The material found by a rightward scan.
pub open spec fn scan_right_material(
    g: Seq<Seq<(u8, u8, u8, u8)>>,
    t: Map<TileColor, (Seq<TileEffect>, Seq<TileEffectCondition>)>,
    x: int,
    y: int,
) -> Option<(i64, Vec2)>
    decreases (if 0 <= y < g.len() {
        g[g.len() - 1 - y].len() as int
    } else {
        0
    }) - x,
{
    if !cell_in_bounds(g, x, y) {
        None
    } else if solid_at(g, t, x, y) {
        material_at(g, t, x, y)
    } else {
        scan_right_material(g, t, x + 1, y)
    }
}

/// The downward scan finds the nearest boundary: it stops at or below its
/// start, every cell it passed is inside the raster and passable, the
/// stopping cell is solid or outside the raster, and the scan hands back a
/// material exactly when it stopped on a solid cell.
pub proof fn lemma_scan_down_nearest(
    g: Seq<Seq<(u8, u8, u8, u8)>>,
    t: Map<TileColor, (Seq<TileEffect>, Seq<TileEffectCondition>)>,
    x: int,
    y: int,
)
    ensures
        scan_down(g, t, x, y) <= y,
        forall|j: int|
            scan_down(g, t, x, y) < j <= y ==> cell_in_bounds(g, x, j) && !solid_at(g, t, x, j),
        solid_at(g, t, x, scan_down(g, t, x, y)) || !cell_in_bounds(g, x, scan_down(g, t, x, y)),
        solid_at(g, t, x, scan_down(g, t, x, y)) <==> scan_down_material(g, t, x, y) is Some,
    decreases y + 1,
{
    if !cell_in_bounds(g, x, y) || solid_at(g, t, x, y) {
        if solid_at(g, t, x, y) {
            lemma_material_iff_collision(spec_effects_at(t, cell_color(g, x, y)));
        }
    } else {
        lemma_scan_down_nearest(g, t, x, y - 1);
    }
}

/// The upward scan finds the nearest boundary above, in the same sense as
/// [`lemma_scan_down_nearest`].
pub proof fn lemma_scan_up_nearest(
    g: Seq<Seq<(u8, u8, u8, u8)>>,
    t: Map<TileColor, (Seq<TileEffect>, Seq<TileEffectCondition>)>,
    x: int,
    y: int,
)
    ensures
        scan_up(g, t, x, y) >= y,
        forall|j: int|
            y <= j < scan_up(g, t, x, y) ==> cell_in_bounds(g, x, j) && !solid_at(g, t, x, j),
        solid_at(g, t, x, scan_up(g, t, x, y)) || !cell_in_bounds(g, x, scan_up(g, t, x, y)),
        solid_at(g, t, x, scan_up(g, t, x, y)) <==> scan_up_material(g, t, x, y) is Some,
    decreases g.len() - y,
{
    if !cell_in_bounds(g, x, y) || solid_at(g, t, x, y) {
        if solid_at(g, t, x, y) {
            lemma_material_iff_collision(spec_effects_at(t, cell_color(g, x, y)));
        }
    } else {
        lemma_scan_up_nearest(g, t, x, y + 1);
    }
}

/// The leftward scan finds the nearest boundary, in the same sense as
/// [`lemma_scan_down_nearest`].
pub proof fn lemma_scan_left_nearest(
    g: Seq<Seq<(u8, u8, u8, u8)>>,
    t: Map<TileColor, (Seq<TileEffect>, Seq<TileEffectCondition>)>,
    x: int,
    y: int,
)
    ensures
        scan_left(g, t, x, y) <= x,
        forall|j: int|
            scan_left(g, t, x, y) < j <= x ==> cell_in_bounds(g, j, y) && !solid_at(g, t, j, y),
        solid_at(g, t, scan_left(g, t, x, y), y) || !cell_in_bounds(g, scan_left(g, t, x, y), y),
        solid_at(g, t, scan_left(g, t, x, y), y) <==> scan_left_material(g, t, x, y) is Some,
    decreases x + 1,
{
    if !cell_in_bounds(g, x, y) || solid_at(g, t, x, y) {
        if solid_at(g, t, x, y) {
            lemma_material_iff_collision(spec_effects_at(t, cell_color(g, x, y)));
        }
    } else {
        lemma_scan_left_nearest(g, t, x - 1, y);
    }
}

/// The rightward scan finds the nearest boundary, in the same sense as
/// [`lemma_scan_down_nearest`].
pub proof fn lemma_scan_right_nearest(
    g: Seq<Seq<(u8, u8, u8, u8)>>,
    t: Map<TileColor, (Seq<TileEffect>, Seq<TileEffectCondition>)>,
    x: int,
    y: int,
)
    ensures
        scan_right(g, t, x, y) >= x,
        forall|j: int|
            x <= j < scan_right(g, t, x, y) ==> cell_in_bounds(g, j, y) && !solid_at(g, t, j, y),
        solid_at(g, t, scan_right(g, t, x, y), y) || !cell_in_bounds(g, scan_right(g, t, x, y), y),
        solid_at(g, t, scan_right(g, t, x, y), y) <==> scan_right_material(g, t, x, y) is Some,
    decreases (if 0 <= y < g.len() {
        g[g.len() - 1 - y].len() as int
    } else {
        0
    }) - x,
{
    if !cell_in_bounds(g, x, y) || solid_at(g, t, x, y) {
        if solid_at(g, t, x, y) {
            lemma_material_iff_collision(spec_effects_at(t, cell_color(g, x, y)));
        }
    } else {
        lemma_scan_right_nearest(g, t, x + 1, y);
    }
}

/// Where a scan in direction `dir` stops, as a lattice coordinate along the
/// scan axis.
pub open spec fn spec_probe_cell(
    g: Seq<Seq<(u8, u8, u8, u8)>>,
    t: Map<TileColor, (Seq<TileEffect>, Seq<TileEffectCondition>)>,
    x: int,
    y: int,
    dir: ProbeDir,
) -> int {
    match dir {
        ProbeDir::YMin => scan_down(g, t, x, y),
        ProbeDir::YMax => scan_up(g, t, x, y),
        ProbeDir::XMin => scan_left(g, t, x, y),
        ProbeDir::XMax => scan_right(g, t, x, y),
    }
}

/// The material of the tile a scan in direction `dir` stopped on, if any.
pub open spec fn spec_probe_material(
    g: Seq<Seq<(u8, u8, u8, u8)>>,
    t: Map<TileColor, (Seq<TileEffect>, Seq<TileEffectCondition>)>,
    x: int,
    y: int,
    dir: ProbeDir,
) -> Option<(i64, Vec2)> {
    match dir {
        ProbeDir::YMin => scan_down_material(g, t, x, y),
        ProbeDir::YMax => scan_up_material(g, t, x, y),
        ProbeDir::XMin => scan_left_material(g, t, x, y),
        ProbeDir::XMax => scan_right_material(g, t, x, y),
    }
}

/// The color of the raster pixel at column `xu`, row `yu` (in bounds by the
/// precondition; the fallback arm is unreachable).
fn color_at(r: &Raster, xu: u32, yu: u32) -> (c: TileColor)
    requires
        (yu as nat) < raster_grid(*r).len(),
        (xu as nat) < raster_grid(*r)[yu as int].len(),
    ensures
        c == (TileColor {
            r: raster_grid(*r)[yu as int][xu as int].0,
            g: raster_grid(*r)[yu as int][xu as int].1,
            b: raster_grid(*r)[yu as int][xu as int].2,
            a: raster_grid(*r)[yu as int][xu as int].3,
        }),
{
    match r.color_checked(xu, yu) {
        Some(c) => c,
        None => TileColor::transparent(),
    }
}

/// The collision material of the world cell `(x, y)`, or `None` for a cell
/// that is unregistered or carries no `Collision` effect; also reports
/// whether the cell is solid.
fn material_of_cell(world: &WorldMap, xu: u32, row: u32, x: i64, y: i64) -> (r: Option<(i64, Vec2)>)
    requires
        cell_in_bounds(world.grid(), x as int, y as int),
        world.grid().len() - 1 - y == row,
        xu == x,
    ensures
        r == material_at(world.grid(), world.effect_map@, x as int, y as int),
        r is Some <==> solid_at(world.grid(), world.effect_map@, x as int, y as int),
{
    let c = color_at(&world.map, xu, row);
    proof {
        assert(c == cell_color(world.grid(), x as int, y as int));
        lemma_material_iff_collision(
            spec_effects_at(world.effect_map@, cell_color(world.grid(), x as int, y as int)),
        );
    }
    match world.effect_map.lookup(c) {
        Some(entry) => scan_effects(&entry.effects),
        None => None,
    }
}

/// One directional probe: walk from lattice cell `(start_x, start_y)` along
/// `dir` until a solid tile or the raster's edge stops the scan, and return
/// the stopping coordinate converted to world units (saturating at the
/// scalar range) together with the stopping tile's collision material.
pub fn probe(world: &WorldMap, start_x: i64, start_y: i64, dir: ProbeDir) -> (r: (
    i64,
    Option<(i64, Vec2)>,
))
    ensures
        r.0 == spec_mul_sat(
            spec_probe_cell(world.grid(), world.effect_map@, start_x as int, start_y as int, dir),
            world.map_px_to_meter as int,
        ),
        r.1 == spec_probe_material(
            world.grid(),
            world.effect_map@,
            start_x as int,
            start_y as int,
            dir,
        ),
        spec_probe_cell(
            world.grid(),
            world.effect_map@,
            start_x as int,
            start_y as int,
            dir,
        ) >= i64::MIN,
        spec_probe_cell(world.grid(), world.effect_map@, start_x as int, start_y as int, dir)
            <= i64::MAX,
{
    let (cell, material) = probe_cell(world, start_x, start_y, dir);
    (mul_sat(cell, world.map_px_to_meter), material)
}

/// The probe's walk itself, returning the stopping lattice coordinate.
fn probe_cell(world: &WorldMap, start_x: i64, start_y: i64, dir: ProbeDir) -> (r: (
    i64,
    Option<(i64, Vec2)>,
))
    ensures
        r.0 == spec_probe_cell(
            world.grid(),
            world.effect_map@,
            start_x as int,
            start_y as int,
            dir,
        ),
        r.1 == spec_probe_material(
            world.grid(),
            world.effect_map@,
            start_x as int,
            start_y as int,
            dir,
        ),
{
    let ghost g = world.grid();
    let ghost t = world.effect_map@;
    let h = world.map.height();
    let w = world.map.width();
    match dir {
        ProbeDir::YMin => {
            let mut y = start_y;
            loop
                invariant
                    dir is YMin,
                    scan_down(g, t, start_x as int, y as int) == scan_down(
                        g,
                        t,
                        start_x as int,
                        start_y as int,
                    ),
                    scan_down_material(g, t, start_x as int, y as int) == scan_down_material(
                        g,
                        t,
                        start_x as int,
                        start_y as int,
                    ),
                    g == world.grid(),
                    t == world.effect_map@,
                    h as nat == g.len(),
                    forall|i: int| 0 <= i < g.len() ==> #[trigger] g[i].len() == w as nat,
                decreases y + 1,
            {
                if y < 0 || y >= h as i64 || start_x < 0 || start_x >= w as i64 {
                    proof {
                        if 0 <= y && (y as int) < g.len() {
                            assert(g[g.len() - 1 - (y as int)].len() == w as nat);
                        }
                        assert(!cell_in_bounds(g, start_x as int, y as int));
                    }
                    return (y, None);
                }
                proof {
                    assert(g[g.len() - 1 - (y as int)].len() == w as nat);
                    assert(cell_in_bounds(g, start_x as int, y as int));
                }
                let row = h - 1 - (y as u32);
                match material_of_cell(world, start_x as u32, row, start_x, y) {
                    Some(m) => {
                        proof {
                            assert(solid_at(g, t, start_x as int, y as int));
                            assert(scan_down(g, t, start_x as int, y as int) == y as int);
                        }
                        return (y, Some(m));
                    },
                    None => {},
                }
                proof {
                    assert(!solid_at(g, t, start_x as int, y as int));
                    assert(scan_down(g, t, start_x as int, y as int) == scan_down(
                        g,
                        t,
                        start_x as int,
                        y - 1,
                    ));
                    assert(scan_down_material(g, t, start_x as int, y as int)
                        == scan_down_material(g, t, start_x as int, y - 1));
                }
                y = y - 1;
            }
        },
        ProbeDir::YMax => {
            let mut y = start_y;
            loop
                invariant
                    dir is YMax,
                    scan_up(g, t, start_x as int, y as int) == scan_up(
                        g,
                        t,
                        start_x as int,
                        start_y as int,
                    ),
                    scan_up_material(g, t, start_x as int, y as int) == scan_up_material(
                        g,
                        t,
                        start_x as int,
                        start_y as int,
                    ),
                    g == world.grid(),
                    t == world.effect_map@,
                    h as nat == g.len(),
                    forall|i: int| 0 <= i < g.len() ==> #[trigger] g[i].len() == w as nat,
                decreases g.len() - y,
            {
                if y < 0 || y >= h as i64 || start_x < 0 || start_x >= w as i64 {
                    proof {
                        if 0 <= y && (y as int) < g.len() {
                            assert(g[g.len() - 1 - (y as int)].len() == w as nat);
                        }
                        assert(!cell_in_bounds(g, start_x as int, y as int));
                    }
                    return (y, None);
                }
                proof {
                    assert(g[g.len() - 1 - (y as int)].len() == w as nat);
                    assert(cell_in_bounds(g, start_x as int, y as int));
                }
                let row = h - 1 - (y as u32);
                match material_of_cell(world, start_x as u32, row, start_x, y) {
                    Some(m) => {
                        proof {
                            assert(solid_at(g, t, start_x as int, y as int));
                            assert(scan_up(g, t, start_x as int, y as int) == y as int);
                        }
                        return (y, Some(m));
                    },
                    None => {},
                }
                proof {
                    assert(!solid_at(g, t, start_x as int, y as int));
                    assert(scan_up(g, t, start_x as int, y as int) == scan_up(
                        g,
                        t,
                        start_x as int,
                        y + 1,
                    ));
                    assert(scan_up_material(g, t, start_x as int, y as int) == scan_up_material(
                        g,
                        t,
                        start_x as int,
                        y + 1,
                    ));
                }
                y = y + 1;
            }
        },
        ProbeDir::XMin => {
            let mut x = start_x;
            loop
                invariant
                    dir is XMin,
                    scan_left(g, t, x as int, start_y as int) == scan_left(
                        g,
                        t,
                        start_x as int,
                        start_y as int,
                    ),
                    scan_left_material(g, t, x as int, start_y as int) == scan_left_material(
                        g,
                        t,
                        start_x as int,
                        start_y as int,
                    ),
                    g == world.grid(),
                    t == world.effect_map@,
                    h as nat == g.len(),
                    forall|i: int| 0 <= i < g.len() ==> #[trigger] g[i].len() == w as nat,
                decreases x + 1,
            {
                if start_y < 0 || start_y >= h as i64 || x < 0 || x >= w as i64 {
                    proof {
                        if 0 <= start_y && (start_y as int) < g.len() {
                            assert(g[g.len() - 1 - (start_y as int)].len() == w as nat);
                        }
                        assert(!cell_in_bounds(g, x as int, start_y as int));
                    }
                    return (x, None);
                }
                proof {
                    assert(g[g.len() - 1 - (start_y as int)].len() == w as nat);
                    assert(cell_in_bounds(g, x as int, start_y as int));
                }
                let row = h - 1 - (start_y as u32);
                match material_of_cell(world, x as u32, row, x, start_y) {
                    Some(m) => {
                        proof {
                            assert(solid_at(g, t, x as int, start_y as int));
                            assert(scan_left(g, t, x as int, start_y as int) == x as int);
                        }
                        return (x, Some(m));
                    },
                    None => {},
                }
                proof {
                    assert(!solid_at(g, t, x as int, start_y as int));
                    assert(scan_left(g, t, x as int, start_y as int) == scan_left(
                        g,
                        t,
                        x - 1,
                        start_y as int,
                    ));
                    assert(scan_left_material(g, t, x as int, start_y as int)
                        == scan_left_material(g, t, x - 1, start_y as int));
                }
                x = x - 1;
            }
        },
        ProbeDir::XMax => {
            let mut x = start_x;
            loop
                invariant
                    dir is XMax,
                    scan_right(g, t, x as int, start_y as int) == scan_right(
                        g,
                        t,
                        start_x as int,
                        start_y as int,
                    ),
                    scan_right_material(g, t, x as int, start_y as int) == scan_right_material(
                        g,
                        t,
                        start_x as int,
                        start_y as int,
                    ),
                    g == world.grid(),
                    t == world.effect_map@,
                    h as nat == g.len(),
                    forall|i: int| 0 <= i < g.len() ==> #[trigger] g[i].len() == w as nat,
                decreases w as int - x,
            {
                if start_y < 0 || start_y >= h as i64 || x < 0 || x >= w as i64 {
                    proof {
                        if 0 <= start_y && (start_y as int) < g.len() {
                            assert(g[g.len() - 1 - (start_y as int)].len() == w as nat);
                        }
                        assert(!cell_in_bounds(g, x as int, start_y as int));
                    }
                    return (x, None);
                }
                proof {
                    assert(g[g.len() - 1 - (start_y as int)].len() == w as nat);
                    assert(cell_in_bounds(g, x as int, start_y as int));
                }
                let row = h - 1 - (start_y as u32);
                match material_of_cell(world, x as u32, row, x, start_y) {
                    Some(m) => {
                        proof {
                            assert(solid_at(g, t, x as int, start_y as int));
                            assert(scan_right(g, t, x as int, start_y as int) == x as int);
                        }
                        return (x, Some(m));
                    },
                    None => {},
                }
                proof {
                    assert(!solid_at(g, t, x as int, start_y as int));
                    assert(scan_right(g, t, x as int, start_y as int) == scan_right(
                        g,
                        t,
                        x + 1,
                        start_y as int,
                    ));
                    assert(scan_right_material(g, t, x as int, start_y as int)
                        == scan_right_material(g, t, x + 1, start_y as int));
                }
                x = x + 1;
            }
        },
    }
}

} // verus!
