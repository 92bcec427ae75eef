//! The world: a raster of pixel colors, a pixel-to-meter scale, and the tile
//! effect registry mapping each registered color to its material effects.

use crate::errors::ConfigurationError;
use crate::fixed::floor_div;
use crate::fixed::mul_sat;
use crate::fixed::spec_mul_sat;
use crate::raster::Raster;
use crate::raster::TileColor;
use crate::raster::raster_grid;
use crate::vec2::Vec2;
use vstd::arithmetic::div_mod::lemma_div_multiples_vanish;
use vstd::prelude::*;

verus! {

/// When a conditional tile effect applies: any condition being true means all
/// of the entry's effects apply.
#[derive(Clone, Copy, Debug, PartialEq, Eq, Structural)]
pub enum TileEffectCondition {
    StandingOn,
    InsideOf,
}

/// A material property attached to a raster color.
#[derive(Clone, Copy, Debug, PartialEq, Eq, Structural)]
pub enum TileEffect {
    /// Base collision tile; needs no [`TileEffectCondition`] to take effect,
    /// it just signals that this is a collision block
    /// (bounce factor, friction coefficient).
    Collision(i64, Vec2),
    /// Faster horizontal speed (multiplier).
    HorizontalSpeedBoost(i64),
    /// Enables the launch action (launch strength).
    LaunchEnable(i64),
    /// Constant force while inside (force).
    Wind(Vec2),
}

/// The effects and conditions registered for one color.
pub struct TileEntry {
    pub effects: Vec<TileEffect>,
    pub conditions: Vec<TileEffectCondition>,
}

/// The registry: an ordered list of registrations, read as a map in which a
/// later registration of the same color replaces an earlier one.
pub struct EffectTable {
    pub entries: Vec<(TileColor, TileEntry)>,
}

/// The map described by a registration list, later registrations winning.
pub open spec fn table_view(s: Seq<(TileColor, TileEntry)>) -> Map<
    TileColor,
    (Seq<TileEffect>, Seq<TileEffectCondition>),
>
    decreases s.len(),
{
    if s.len() == 0 {
        Map::empty()
    } else {
        table_view(s.drop_last()).insert(
            s.last().0,
            (s.last().1.effects@, s.last().1.conditions@),
        )
    }
}

/// A key is in the map exactly when some registration carries it, and its
/// value is the latest such registration's entry.
#[verifier::rlimit(50)]
pub proof fn lemma_table_view(s: Seq<(TileColor, TileEntry)>, c: TileColor)
    ensures
        table_view(s).contains_key(c) <==> (exists|j: int|
            0 <= j < s.len() && (#[trigger] s[j]).0 == c),
        forall|k: int|
            (0 <= k < s.len() && (#[trigger] s[k]).0 == c && (forall|j: int|
                k < j < s.len() ==> (#[trigger] s[j]).0 != c)) ==> table_view(s)[c] == (
                s[k].1.effects@,
                s[k].1.conditions@,
            ),
    decreases s.len(),
{
    if s.len() == 0 {
    } else {
        let prefix = s.drop_last();
        lemma_table_view(prefix, c);
        if s.last().0 == c {
            assert(s[s.len() - 1].0 == c);
            assert forall|k: int|
                (0 <= k < s.len() && (#[trigger] s[k]).0 == c && (forall|j: int|
                    k < j < s.len() ==> (#[trigger] s[j]).0 != c)) implies table_view(s)[c] == (
                s[k].1.effects@,
                s[k].1.conditions@,
            ) by {
                if k < s.len() - 1 {
                    assert(s[s.len() - 1].0 != c);
                }
            }
        } else {
            assert(table_view(s)[c] == table_view(prefix)[c] || !table_view(s).contains_key(c));
            if exists|j: int| 0 <= j < s.len() && (#[trigger] s[j]).0 == c {
                let j = choose|j: int| 0 <= j < s.len() && (#[trigger] s[j]).0 == c;
                assert(j != s.len() - 1);
                assert(prefix[j] == s[j]);
            }
            assert forall|k: int|
                (0 <= k < s.len() && (#[trigger] s[k]).0 == c && (forall|j: int|
                    k < j < s.len() ==> (#[trigger] s[j]).0 != c)) implies table_view(s)[c] == (
                s[k].1.effects@,
                s[k].1.conditions@,
            ) by {
                assert(k != s.len() - 1);
                assert(prefix[k] == s[k]);
                assert(forall|j: int| k < j < prefix.len() ==> (#[trigger] prefix[j]).0 != c);
            }
        }
    }
}

impl View for EffectTable {
    type V = Map<TileColor, (Seq<TileEffect>, Seq<TileEffectCondition>)>;

    open spec fn view(&self) -> Self::V {
        table_view(self.entries@)
    }
}

impl EffectTable {
    pub fn new() -> (t: EffectTable)
        ensures
            t@ == Map::<TileColor, (Seq<TileEffect>, Seq<TileEffectCondition>)>::empty(),
    {
        EffectTable { entries: Vec::new() }
    }

    /// Register `color`, replacing any earlier registration of it.
    pub fn register(
        &mut self,
        color: TileColor,
        effects: Vec<TileEffect>,
        conditions: Vec<TileEffectCondition>,
    )
        ensures
            final(self)@ == old(self)@.insert(color, (effects@, conditions@)),
    {
        let ghost before = self.entries@;
        self.entries.push((color, TileEntry { effects, conditions }));
        proof {
            assert(self.entries@.drop_last() =~= before);
        }
    }

    /// Exact-match lookup: `Some` exactly for registered colors; any color
    /// without an entry is an unknown tile, treated as passable by the probe.
    pub fn lookup(&self, color: TileColor) -> (r: Option<&TileEntry>)
        ensures
            r is Some <==> self@.contains_key(color),
            r is Some ==> self@[color] == (r->Some_0.effects@, r->Some_0.conditions@),
    {
        let mut i: usize = self.entries.len();
        while i > 0
            invariant
                i <= self.entries.len(),
                forall|j: int|
                    i <= j < self.entries@.len() ==> (#[trigger] self.entries@[j]).0 != color,
            decreases i,
        {
            i = i - 1;
            if self.entries[i].0 == color {
                proof {
                    lemma_table_view(self.entries@, color);
                }
                return Some(&self.entries[i].1);
            }
        }
        proof {
            lemma_table_view(self.entries@, color);
        }
        None
    }
}

/// The explicit outcome of classifying a scanned color against the registry:
/// a tile with no entry is an [`TileStatus::UnknownTile`], which the probe
/// resolves permissively (treated as passable); callers wanting a strict
/// policy can reject worlds whose rasters contain one.
#[derive(Clone, Copy, Debug, PartialEq, Eq, Structural)]
pub enum TileStatus {
    Registered,
    UnknownTile,
}

/// The effect list registered for a color: empty for an unregistered color,
/// which the probe treats as passable.
pub open spec fn spec_effects_at(
    t: Map<TileColor, (Seq<TileEffect>, Seq<TileEffectCondition>)>,
    c: TileColor,
) -> Seq<TileEffect> {
    if t.contains_key(c) {
        t[c].0
    } else {
        Seq::empty()
    }
}

/// Whether a tile entry's effect list carries a `Collision` effect.
pub open spec fn spec_has_collision(effects: Seq<TileEffect>) -> bool {
    exists|i: int| 0 <= i < effects.len() && effects[i] is Collision
}

/// The collision material of an effect list: the bounce factor and friction
/// coefficient of its last `Collision` effect, if any.
pub open spec fn spec_collision_material(effects: Seq<TileEffect>) -> Option<(i64, Vec2)>
    decreases effects.len(),
{
    if effects.len() == 0 {
        None
    } else {
        match effects.last() {
            TileEffect::Collision(b, f) => Some((b, f)),
            _ => spec_collision_material(effects.drop_last()),
        }
    }
}

/// An effect list has a collision material exactly when it carries a
/// `Collision` effect.
pub proof fn lemma_material_iff_collision(effects: Seq<TileEffect>)
    ensures
        spec_collision_material(effects) is Some <==> spec_has_collision(effects),
    decreases effects.len(),
{
    if effects.len() == 0 {
    } else {
        lemma_material_iff_collision(effects.drop_last());
        if effects.last() is Collision {
            assert(effects[effects.len() - 1] is Collision);
        } else {
            if spec_has_collision(effects) {
                let i = choose|i: int| 0 <= i < effects.len() && effects[i] is Collision;
                assert(effects.drop_last()[i] == effects[i]);
            }
            if spec_has_collision(effects.drop_last()) {
                let i = choose|i: int|
                    0 <= i < effects.drop_last().len() && effects.drop_last()[i] is Collision;
                assert(effects[i] == effects.drop_last()[i]);
            }
        }
    }
}

/// Scan an effect list for its collision material, the last `Collision`
/// effect winning.
pub fn scan_effects(effects: &Vec<TileEffect>) -> (r: Option<(i64, Vec2)>)
    ensures
        r == spec_collision_material(effects@),
{
    let mut material: Option<(i64, Vec2)> = None;
    let mut i: usize = 0;
    while i < effects.len()
        invariant
            i <= effects.len(),
            material == spec_collision_material(effects@.take(i as int)),
        decreases effects.len() - i,
    {
        match effects[i] {
            TileEffect::Collision(b, f) => {
                material = Some((b, f));
            },
            _ => {},
        }
        proof {
            assert(effects@.take(i + 1).drop_last() =~= effects@.take(i as int));
            assert(effects@.take(i + 1).last() == effects@[i as int]);
        }
        i = i + 1;
    }
    proof {
        assert(effects@.take(effects@.len() as int) =~= effects@);
    }
    material
}

/// The world: the raster, its effect registry, the pixel-to-meter scale and
/// the camera location (read by an external renderer only).
pub struct WorldMap {
    pub map: Raster,
    pub effect_map: EffectTable,
    pub map_px_to_meter: i64,
    pub cam_loc: Vec2,
}

impl WorldMap {
    /// A well-formed world has a positive pixel scale and an entry for the
    /// empty/background color, so that scans never treat empty space as an
    /// unregistered color.
    pub open spec fn wf(self) -> bool {
        &&& self.map_px_to_meter > 0
        &&& self.effect_map@.contains_key(TileColor::spec_rgba(0, 0, 0, 0))
    }

    /// The raster's pixel grid.
    pub open spec fn grid(self) -> Seq<Seq<(u8, u8, u8, u8)>> {
        raster_grid(self.map)
    }

    /// Classify a color against the registry: the explicit, named outcome for
    /// a color with no entry.
    pub fn tile_status(&self, color: TileColor) -> (r: TileStatus)
        ensures
            r == (if self.effect_map@.contains_key(color) {
                TileStatus::Registered
            } else {
                TileStatus::UnknownTile
            }),
    {
        match self.effect_map.lookup(color) {
            Some(_) => TileStatus::Registered,
            None => TileStatus::UnknownTile,
        }
    }

    /// Build a world. A nonpositive pixel scale or a registry without an
    /// entry for the empty/background color is a configuration error and
    /// rejects construction.
    pub fn new(map: Raster, effect_map: EffectTable, map_px_to_meter: i64, cam_loc: Vec2) -> (r:
        Result<WorldMap, ConfigurationError>)
        ensures
            r is Ok <==> (map_px_to_meter > 0 && effect_map@.contains_key(
                TileColor::spec_rgba(0, 0, 0, 0),
            )),
            r is Ok ==> r->Ok_0 == (WorldMap { map, effect_map, map_px_to_meter, cam_loc }),
            r is Ok ==> r->Ok_0.wf(),
            r is Err ==> r->Err_0 == (if map_px_to_meter <= 0 {
                ConfigurationError::NonPositiveScale
            } else {
                ConfigurationError::MissingBackgroundEntry
            }),
    {
        if map_px_to_meter <= 0 {
            return Err(ConfigurationError::NonPositiveScale);
        }
        match effect_map.lookup(TileColor::transparent()) {
            Some(_) => Ok(WorldMap { map, effect_map, map_px_to_meter, cam_loc }),
            None => Err(ConfigurationError::MissingBackgroundEntry),
        }
    }
}

/// The map of the reference tile-effect configuration: six registered
/// colors, a collision-free background among them, and `Collision` materials
/// with bounce factors between 0 and 0.9.
pub open spec fn default_table_map() -> Map<TileColor, (Seq<TileEffect>, Seq<TileEffectCondition>)> {
    Map::<TileColor, (Seq<TileEffect>, Seq<TileEffectCondition>)>::empty().insert(
            TileColor::spec_rgba(230, 180, 50, 255),
            (
                seq![
                    TileEffect::Collision(0i64, Vec2 { x: 150_000i64, y: 0i64 }),
                    TileEffect::HorizontalSpeedBoost(2_000_000i64),
                ],
                seq![TileEffectCondition::StandingOn],
            ),
        ).insert(
            TileColor::spec_rgba(50, 222, 250, 255),
            (seq![TileEffect::LaunchEnable(1_000_000i64)], seq![TileEffectCondition::InsideOf]),
        ).insert(
            TileColor::spec_rgba(0, 0, 0, 0),
            (Seq::<TileEffect>::empty(), Seq::<TileEffectCondition>::empty()),
        ).insert(
            TileColor::spec_rgba(255, 75, 125, 255),
            (
                seq![TileEffect::Wind(Vec2 { x: 3_000_000i64, y: 7_000_000i64 })],
                seq![TileEffectCondition::InsideOf],
            ),
        ).insert(
            TileColor::spec_rgba(255, 255, 255, 255),
            (
                seq![TileEffect::Collision(150_000i64, Vec2 { x: 500_000i64, y: 0i64 })],
                Seq::<TileEffectCondition>::empty(),
            ),
        ).insert(
            TileColor::spec_rgba(0, 255, 20, 255),
            (
                seq![TileEffect::Collision(900_000i64, Vec2 { x: 800_000i64, y: 0i64 })],
                Seq::<TileEffectCondition>::empty(),
            ),
        )
}

/// Build the reference tile-effect configuration, [`default_table_map`].
pub fn default_effect_table() -> (t: EffectTable)
    ensures
        t@ == default_table_map(),
        t@.contains_key(TileColor::spec_rgba(0, 0, 0, 0)),
{
    let mut t = EffectTable::new();
    t.register(
        TileColor::rgba(230, 180, 50, 255),
        vec![
            TileEffect::Collision(0, Vec2::new(150_000, 0)),
            TileEffect::HorizontalSpeedBoost(2_000_000),
        ],
        vec![TileEffectCondition::StandingOn],
    );
    t.register(
        TileColor::rgba(50, 222, 250, 255),
        vec![TileEffect::LaunchEnable(1_000_000)],
        vec![TileEffectCondition::InsideOf],
    );
    t.register(TileColor::transparent(), Vec::new(), Vec::new());
    t.register(
        TileColor::rgba(255, 75, 125, 255),
        vec![TileEffect::Wind(Vec2::new(3_000_000, 7_000_000))],
        vec![TileEffectCondition::InsideOf],
    );
    t.register(
        TileColor::rgba(255, 255, 255, 255),
        vec![TileEffect::Collision(150_000, Vec2::new(500_000, 0))],
        Vec::new(),
    );
    t.register(
        TileColor::rgba(0, 255, 20, 255),
        vec![TileEffect::Collision(900_000, Vec2::new(800_000, 0))],
        Vec::new(),
    );
    proof {
        assert(t@ =~~= default_table_map());
    }
    t
}

/// Convert a lattice cell index to the world coordinate of its lower/left
/// edge.
pub fn pixel_to_world(cell: i64, px_scale: i64) -> (r: i64)
    requires
        px_scale > 0,
    ensures
        r == spec_mul_sat(cell as int, px_scale as int),
{
    mul_sat(cell, px_scale)
}

/// Convert a world coordinate to the lattice cell containing it.
pub fn world_to_pixel(w: i64, px_scale: i64) -> (r: i64)
    requires
        px_scale > 0,
    ensures
        r == (w as int) / (px_scale as int),
{
    floor_div(w, px_scale)
}

/// Pixel-space round trip: mapping a grid-aligned cell to world units and
/// back is the identity, as long as the world coordinate does not saturate.
pub proof fn lemma_pixel_world_round_trip(cell: int, px_scale: int)
    requires
        px_scale > 0,
        i64::MIN <= cell * px_scale <= i64::MAX,
    ensures
        spec_mul_sat(cell, px_scale) / px_scale == cell,
{
    lemma_div_multiples_vanish(cell, px_scale);
    assert(px_scale * cell == cell * px_scale) by (nonlinear_arith);
}

} // verus!
