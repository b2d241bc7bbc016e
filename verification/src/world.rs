//! Authoritative spatial facts shared by perception, validation and movement.
//!
//! Pixel coordinates are carried as integer millipixels (thousandths of a
//! pixel) so that every comparison made on them is exact.

use vstd::prelude::*;

use crate::text::optional_text;

verus! {

/// A tile coordinate in the current scene.
#[derive(Debug, Clone, Copy, PartialEq, Eq, Hash, Structural)]
pub struct TilePosition {
    pub x: i32,
    pub y: i32,
}

/// A pixel coordinate, in thousandths of a pixel.
#[derive(Debug, Clone, Copy, PartialEq, Eq, Structural)]
pub struct PixelPosition {
    pub x: i64,
    pub y: i64,
}

/// The body's position: its exact pixel and the tile that pixel lies on.
#[derive(Debug, Clone, Copy, PartialEq, Eq, Structural)]
pub struct Position {
    pub pixel: PixelPosition,
    pub tile: TilePosition,
}

#[derive(Debug, Clone, Copy, PartialEq, Eq, Structural)]
pub enum TileKind {
    Traversable,
    Blocked,
    Door,
    Unknown,
}

/// One structured tile of the local map.
#[derive(Debug, Clone, Copy, PartialEq, Eq, Structural)]
pub struct MapTile {
    pub position: TilePosition,
    pub kind: TileKind,
    pub walkable: Option<bool>,
}

#[derive(Debug, Clone, Copy, PartialEq, Eq, Structural)]
pub enum CardinalDirection {
    North,
    East,
    South,
    West,
}

/// A door drawn on the local map.
#[derive(Debug, Clone)]
pub struct Doorway {
    pub tile: TilePosition,
    pub leads_to: Option<String>,
    pub label: Option<String>,
}

/// The structured local map around the body.
#[derive(Debug, Clone)]
pub struct LocalMap {
    pub revision: u64,
    pub origin_tile_x: i32,
    pub origin_tile_y: i32,
    pub width: usize,
    pub height: usize,
    pub tiles: Vec<MapTile>,
    pub doors: Vec<Doorway>,
    pub ascii: String,
}

/// An exit from the scene that the backend reports as reachable.
#[derive(Debug, Clone)]
pub struct ReachableExit {
    pub tile: TilePosition,
    pub destination_scene: Option<String>,
    pub label: Option<String>,
    pub path_length_tiles: u32,
}

/// A reachable exit with its texts as characters.
pub struct ReachableExitView {
    pub tile: TilePosition,
    pub destination_scene: Option<Seq<char>>,
    pub label: Option<Seq<char>>,
    pub path_length_tiles: u32,
}

impl View for ReachableExit {
    type V = ReachableExitView;

    open spec fn view(&self) -> ReachableExitView {
        ReachableExitView {
            tile: self.tile,
            destination_scene: optional_text(self.destination_scene),
            label: optional_text(self.label),
            path_length_tiles: self.path_length_tiles,
        }
    }
}

impl ReachableExit {
    /// A copy with the same content.
    pub fn duplicate(&self) -> (copy: ReachableExit)
        ensures
            copy@ == self@,
    {
        ReachableExit {
            tile: self.tile,
            destination_scene: self.destination_scene.clone(),
            label: self.label.clone(),
            path_length_tiles: self.path_length_tiles,
        }
    }
}

/// A reachable tile at the edge of the local map.
#[derive(Debug, Clone, Copy, PartialEq, Eq, Structural)]
pub struct ReachableWaypoint {
    pub tile: TilePosition,
    pub direction: CardinalDirection,
    pub path_length_tiles: u32,
}

/// Health reported for one enemy in the current battle.
#[derive(Debug, Clone)]
pub struct EnemyHealth {
    pub id: String,
    pub label: Option<String>,
    pub health: Option<i64>,
    pub max_health: Option<i64>,
}

/// The authoritative combat facts of one frame.
#[derive(Debug, Clone)]
pub struct CombatSnapshot {
    pub active: Option<bool>,
    pub current_hostiles: usize,
    pub enemy_health: Vec<EnemyHealth>,
}

impl CombatSnapshot {
    /// No battle facts at all.
    pub fn empty() -> (combat: CombatSnapshot)
        ensures
            combat.active.is_none(),
            combat.current_hostiles == 0,
            combat.enemy_health@.len() == 0,
    {
        CombatSnapshot { active: None, current_hostiles: 0, enemy_health: Vec::new() }
    }
}

/// Where a game event came from.
#[derive(Debug, Clone, Copy, PartialEq, Eq, Structural)]
pub enum GameEventOrigin {
    Backend,
    Derived,
}

/// The kind of a recent game event.
#[derive(Debug, Clone, Copy, PartialEq, Eq, Structural)]
pub enum GameEventKind {
    SceneEntered,
    SceneLeft,
    DamageTaken,
    MovementFailed,
    /// Any other event kind the world reports.
    Other,
}

/// One recent game event.
#[derive(Debug, Clone)]
pub struct GameEvent {
    pub sequence: Option<u64>,
    /// Milliseconds since the Unix epoch at which the event was observed.
    pub observed_at_ms: i64,
    pub origin: GameEventOrigin,
    pub kind: GameEventKind,
    pub entity_id: Option<String>,
    pub amount: Option<i64>,
    pub tile: Option<TilePosition>,
    pub detail: Option<String>,
}

impl LocalMap {
    /// An empty map with no structured tiles.
    pub fn empty() -> (map: LocalMap)
        ensures
            map.tiles@.len() == 0,
            map.doors@.len() == 0,
            map.revision == 0,
            map.origin_tile_x == 0,
            map.origin_tile_y == 0,
            map.width == 0,
            map.height == 0,
            map.ascii@.len() == 0,
    {
        LocalMap {
            revision: 0,
            origin_tile_x: 0,
            origin_tile_y: 0,
            width: 0,
            height: 0,
            tiles: Vec::new(),
            doors: Vec::new(),
            ascii: String::new(),
        }
    }
}

/// The squared Euclidean distance between two pixel positions, in square millipixels.
pub open spec fn squared_distance(a: PixelPosition, b: PixelPosition) -> int {
    (b.x - a.x) * (b.x - a.x) + (b.y - a.y) * (b.y - a.y)
}

/// `r` is the integer square root of `n`, rounded down.
pub open spec fn is_floor_sqrt(r: int, n: int) -> bool {
    0 <= r && r * r <= n < (r + 1) * (r + 1)
}

pub open spec fn floor_sqrt(n: int) -> int {
    choose|r: int| is_floor_sqrt(r, n)
}

/// The limit above which distances are reported as `u64::MAX` (2^126 square millipixels).
pub open spec fn squared_distance_limit() -> int {
    0x4000_0000_0000_0000_0000_0000_0000_0000
}

/// The distance between two pixel positions in whole millipixels, rounded down;
/// `u64::MAX` for distances of 2^63 millipixels or more.
pub open spec fn pixel_distance(a: PixelPosition, b: PixelPosition) -> u64 {
    if squared_distance(a, b) >= squared_distance_limit() {
        u64::MAX
    } else {
        floor_sqrt(squared_distance(a, b)) as u64
    }
}

proof fn lemma_floor_sqrt_unique(r: int, s: int, n: int)
    requires
        is_floor_sqrt(r, n),
        is_floor_sqrt(s, n),
    ensures
        r == s,
{
    if r < s {
        assert((r + 1) * (r + 1) <= s * s) by (nonlinear_arith)
            requires
                0 <= r,
                r + 1 <= s,
        ;
    } else if s < r {
        assert((s + 1) * (s + 1) <= r * r) by (nonlinear_arith)
            requires
                0 <= s,
                s + 1 <= r,
        ;
    }
}

/// The integer square root of `n`, rounded down.
fn integer_sqrt(n: u128) -> (root: u64)
    requires
        n < squared_distance_limit(),
    ensures
        is_floor_sqrt(root as int, n as int),
        root as int == floor_sqrt(n as int),
{
    let mut low: u128 = 0;
    let mut high: u128 = 0x8000_0000_0000_0000;
    assert(high * high == squared_distance_limit());
    while high - low > 1
        invariant
            low < high <= 0x8000_0000_0000_0000,
            low * low <= n,
            n < high * high,
        decreases high - low,
    {
        let middle: u128 = low + (high - low) / 2;
        assert(middle * middle <= 0x8000_0000_0000_0000 * 0x8000_0000_0000_0000) by (nonlinear_arith)
            requires
                middle <= 0x8000_0000_0000_0000,
        ;
        if middle * middle <= n {
            low = middle;
        } else {
            high = middle;
        }
    }
    assert(high == low + 1);
    proof {
        let r = low as int;
        assert(is_floor_sqrt(r, n as int));
        lemma_floor_sqrt_unique(r, floor_sqrt(n as int), n as int);
    }
    low as u64
}

/// The distance between two pixel positions, as `pixel_distance` defines it.
pub fn distance_between(a: PixelPosition, b: PixelPosition) -> (distance: u64)
    ensures
        distance == pixel_distance(a, b),
{
    let dx: i128 = b.x as i128 - a.x as i128;
    let dy: i128 = b.y as i128 - a.y as i128;
    let ax: u128 = if dx < 0 { (-dx) as u128 } else { dx as u128 };
    let ay: u128 = if dy < 0 { (-dy) as u128 } else { dy as u128 };
    let limit: u128 = 0x8000_0000_0000_0000;
    assert(ax * ax == dx * dx) by (nonlinear_arith)
        requires
            ax == dx || ax == -dx,
    ;
    assert(ay * ay == dy * dy) by (nonlinear_arith)
        requires
            ay == dy || ay == -dy,
    ;
    if ax >= limit || ay >= limit {
        assert(squared_distance(a, b) >= squared_distance_limit()) by (nonlinear_arith)
            requires
                (ax >= limit || ay >= limit),
                ax * ax == dx * dx,
                ay * ay == dy * dy,
                squared_distance(a, b) == dx * dx + dy * dy,
                limit * limit == squared_distance_limit(),
        ;
        return u64::MAX;
    }
    assert(ax * ax < limit * limit && ay * ay < limit * limit) by (nonlinear_arith)
        requires
            ax < limit,
            ay < limit,
    ;
    let squared: u128 = ax * ax + ay * ay;
    assert(squared == squared_distance(a, b)) by (nonlinear_arith)
        requires
            squared == ax * ax + ay * ay,
            ax * ax == dx * dx,
            ay * ay == dy * dy,
            dx == b.x - a.x,
            dy == b.y - a.y,
    ;
    if squared >= limit * limit {
        return u64::MAX;
    }
    integer_sqrt(squared)
}

/// The structured tile at `position`, the first one listed when several are.
pub open spec fn tile_at(tiles: Seq<MapTile>, position: TilePosition) -> Option<MapTile>
    decreases tiles.len(),
{
    if tiles.len() == 0 {
        None
    } else if tiles[0].position == position {
        Some(tiles[0])
    } else {
        tile_at(tiles.drop_first(), position)
    }
}

/// Find the first structured tile at `position`.
pub fn find_tile(tiles: &Vec<MapTile>, position: TilePosition) -> (found: Option<MapTile>)
    ensures
        found == tile_at(tiles@, position),
{
    let mut i: usize = 0;
    assert(tiles@.skip(0) =~= tiles@);
    while i < tiles.len()
        invariant
            i <= tiles@.len(),
            tile_at(tiles@, position) == tile_at(tiles@.skip(i as int), position),
        decreases tiles@.len() - i,
    {
        assert(tiles@.skip(i as int).drop_first() =~= tiles@.skip(i + 1));
        if tiles[i].position == position {
            return Some(tiles[i]);
        }
        i = i + 1;
    }
    assert(tiles@.skip(i as int).len() == 0);
    None
}

} // verus!
