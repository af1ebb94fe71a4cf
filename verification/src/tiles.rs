//! Collision shapes that come in tiles: where the shape of one tile runs on into the next, and
//! how the pieces are put together.
//!
//! Putting polygons together looks into no point, so the polygons there may hold points of any
//! type. Only the smoothing at the end measures the engine's vectors.

use vstd::prelude::*;
use godot::builtin::Vector2;
use crate::landing_surface::{can_probe, LandingSurface, Side};
use crate::smoothing::{smooth_polygon, smoothed};

verus! {

/// One of the four sides of a square tile, and the tile that lies beyond it.
#[derive(PartialEq, Eq, Structural, Clone, Copy, Debug)]
pub enum TileSide {
    Left,
    Right,
    Up,
    Down,
}

/// The place of a tile on the grid. `y` grows downwards.
#[derive(PartialEq, Eq, Structural, Clone, Copy, Debug)]
pub struct Cell {
    pub x: i32,
    pub y: i32,
}

impl Cell {
    /// The cell one step to the given side.
    pub open spec fn beside(self, side: TileSide) -> (int, int) {
        match side {
            TileSide::Left => (self.x - 1, self.y as int),
            TileSide::Right => (self.x + 1, self.y as int),
            TileSide::Up => (self.x as int, self.y - 1),
            TileSide::Down => (self.x as int, self.y + 1),
        }
    }

    /// The cell one step to the given side.
    pub fn neighbour(self, side: TileSide) -> (r: Cell)
        requires
            i32::MIN <= self.beside(side).0 <= i32::MAX,
            i32::MIN <= self.beside(side).1 <= i32::MAX,
        ensures
            (r.x as int, r.y as int) == self.beside(side),
    {
        match side {
            TileSide::Left => Cell { x: self.x - 1, y: self.y },
            TileSide::Right => Cell { x: self.x + 1, y: self.y },
            TileSide::Up => Cell { x: self.x, y: self.y - 1 },
            TileSide::Down => Cell { x: self.x, y: self.y + 1 },
        }
    }
}

/// How one edge of a tile's polygon lies in the tile, in the tile's own coordinates.
#[derive(Clone, Copy, Debug)]
pub struct EdgeAlignment {
    /// Both ends have the same `x`.
    pub vertical: bool,
    /// The first end lies half a tile to the right of the centre.
    pub on_right: bool,
    /// The first end lies half a tile to the left of the centre.
    pub on_left: bool,
    /// Both ends have the same `y`.
    pub horizontal: bool,
    /// The first end lies half a tile below the centre.
    pub on_bottom: bool,
    /// The first end lies half a tile above the centre.
    pub on_top: bool,
}

impl EdgeAlignment {
    /// The edge lies flush on the given side of the tile. An edge on the right is not taken
    /// for one on the left, nor one on the bottom for one on the top.
    pub open spec fn flush_on(self, side: TileSide) -> bool {
        match side {
            TileSide::Right => self.vertical && self.on_right,
            TileSide::Left => self.vertical && !self.on_right && self.on_left,
            TileSide::Down => self.horizontal && self.on_bottom,
            TileSide::Up => self.horizontal && !self.on_bottom && self.on_top,
        }
    }
}

/// Where a collision lies on the boundary of its tile.
#[derive(Clone, Copy, Debug)]
pub struct CollisionAlignment {
    /// The collision lies half a tile to the left of the centre.
    pub on_left: bool,
    /// The collision lies half a tile above the centre.
    pub on_top: bool,
    /// The collision lies half a tile to the right of the centre.
    pub on_right: bool,
    /// The collision lies half a tile below the centre.
    pub on_bottom: bool,
}

impl CollisionAlignment {
    /// The one side on whose boundary the collision counts as lying: left before top before
    /// right before bottom.
    pub open spec fn side(self) -> Option<TileSide> {
        if self.on_left {
            Some(TileSide::Left)
        } else if self.on_top {
            Some(TileSide::Up)
        } else if self.on_right {
            Some(TileSide::Right)
        } else if self.on_bottom {
            Some(TileSide::Down)
        } else {
            None
        }
    }

    /// The side of the tile on whose boundary the collision lies, if any. A collision on such
    /// a boundary may belong to the tile beyond it: where the tile of the collision is empty
    /// and the one beside it is not, the engine may still name the empty one.
    pub fn boundary_side(self) -> (r: Option<TileSide>)
        ensures
            r == self.side(),
    {
        if self.on_left {
            Some(TileSide::Left)
        } else if self.on_top {
            Some(TileSide::Up)
        } else if self.on_right {
            Some(TileSide::Right)
        } else if self.on_bottom {
            Some(TileSide::Down)
        } else {
            None
        }
    }
}

/// The sides of a tile beyond which its collision shape may run on.
#[derive(PartialEq, Eq, Structural, Clone, Copy, Debug)]
pub struct Seams {
    pub left: bool,
    pub right: bool,
    pub up: bool,
    pub down: bool,
}

impl Seams {
    /// Whether the given side is among them.
    pub open spec fn has(self, side: TileSide) -> bool {
        match side {
            TileSide::Left => self.left,
            TileSide::Right => self.right,
            TileSide::Up => self.up,
            TileSide::Down => self.down,
        }
    }

    /// No side at all.
    pub fn none() -> (r: Seams)
        ensures
            forall|side: TileSide| !r.has(side),
    {
        Seams { left: false, right: false, up: false, down: false }
    }

    /// Whether the given side is among them.
    pub fn contains(&self, side: TileSide) -> (r: bool)
        ensures
            r == self.has(side),
    {
        match side {
            TileSide::Left => self.left,
            TileSide::Right => self.right,
            TileSide::Up => self.up,
            TileSide::Down => self.down,
        }
    }

    /// Adds a side. Adding one that is there already changes nothing.
    pub fn insert(&mut self, side: TileSide)
        ensures
            forall|other: TileSide| final(self).has(other) == (old(self).has(other) || other == side),
    {
        match side {
            TileSide::Left => {
                self.left = true;
            },
            TileSide::Right => {
                self.right = true;
            },
            TileSide::Up => {
                self.up = true;
            },
            TileSide::Down => {
                self.down = true;
            },
        }
    }

    /// Adds the side on which an edge lies flush, if it lies flush on one. A vertical edge can
    /// add left or right, and a horizontal one up or down.
    pub fn note_edge(&mut self, edge: EdgeAlignment)
        ensures
            forall|side: TileSide|
                final(self).has(side) == (old(self).has(side) || edge.flush_on(side)),
    {
        if edge.vertical {
            if edge.on_right {
                self.insert(TileSide::Right);
            } else if edge.on_left {
                self.insert(TileSide::Left);
            }
        }
        if edge.horizontal {
            if edge.on_bottom {
                self.insert(TileSide::Down);
            } else if edge.on_top {
                self.insert(TileSide::Up);
            }
        }
    }

    /// The sides in the order in which they are gone through: right, left, down, up.
    pub open spec fn in_turn(self) -> Seq<TileSide> {
        let right = if self.right {
            seq![TileSide::Right]
        } else {
            seq![]
        };
        let left = if self.left {
            seq![TileSide::Left]
        } else {
            seq![]
        };
        let down = if self.down {
            seq![TileSide::Down]
        } else {
            seq![]
        };
        let up = if self.up {
            seq![TileSide::Up]
        } else {
            seq![]
        };
        right + left + down + up
    }

    /// The sides one by one, each once: right, left, down, up.
    pub fn sides(&self) -> (r: Vec<TileSide>)
        ensures
            r@ == self.in_turn(),
            lists(r@, *self),
    {
        let mut r: Vec<TileSide> = Vec::new();
        if self.right {
            r.push(TileSide::Right);
        }
        if self.left {
            r.push(TileSide::Left);
        }
        if self.down {
            r.push(TileSide::Down);
        }
        if self.up {
            r.push(TileSide::Up);
        }
        proof {
            assert(r@ =~= self.in_turn());
            self.in_turn_lists();
        }
        r
    }

    /// Going through the sides in turn meets each side that there is, once.
    pub proof fn in_turn_lists(self)
        ensures
            lists(self.in_turn(), self),
    {
        let sides = self.in_turn();
        assert forall|side: TileSide| sides.contains(side) == self.has(side) by {
            if self.has(side) {
                let before: int = match side {
                    TileSide::Right => 0,
                    TileSide::Left => if self.right {
                        1
                    } else {
                        0
                    },
                    TileSide::Down => (if self.right {
                        1int
                    } else {
                        0
                    }) + (if self.left {
                        1int
                    } else {
                        0
                    }),
                    TileSide::Up => sides.len() - 1,
                };
                assert(sides[before] == side);
            }
        }
    }
}

/// The sides on which some edge of a tile's polygon lies flush: there the collision shape may
/// run on into the next tile.
pub fn flush_seams(edges: &Vec<EdgeAlignment>) -> (r: Seams)
    ensures
        forall|side: TileSide|
            r.has(side) == exists|i: int| 0 <= i < edges@.len() && #[trigger] edges@[i].flush_on(side),
{
    let mut seams = Seams::none();
    let mut i: usize = 0;
    while i < edges.len()
        invariant
            i <= edges.len(),
            forall|side: TileSide|
                seams.has(side) == exists|j: int| 0 <= j < i && #[trigger] edges@[j].flush_on(side),
        decreases edges.len() - i,
    {
        let ghost before = seams;
        seams.note_edge(edges[i]);
        proof {
            assert forall|side: TileSide|
                seams.has(side) == exists|j: int|
                    0 <= j < i + 1 && #[trigger] edges@[j].flush_on(side) by {
                // An edge that is flush on the side is the one just noted, or one before it.
                let earlier = exists|j: int| 0 <= j < i && #[trigger] edges@[j].flush_on(side);
                assert(seams.has(side) == (earlier || edges@[i as int].flush_on(side)));
            }
        }
        i += 1;
    }
    seams
}

/// What becomes of a polygon after an attempt to merge it with a neighbour: the merged
/// polygon where the merge gave exactly one, else the polygon as it was, the neighbour's shape
/// being apart from it.
pub open spec fn merge_choice<V>(points: Vec<V>, merged: Vec<Vec<V>>) -> Vec<V> {
    if merged@.len() == 1 {
        merged@[0]
    } else {
        points
    }
}

/// Takes the merged polygon where a merge gave exactly one, and keeps `points` otherwise.
pub fn merge_outcome<V>(points: Vec<V>, merged: Vec<Vec<V>>) -> (r: Vec<V>)
    ensures
        r == merge_choice(points, merged),
{
    let mut merged = merged;
    if merged.len() == 1 {
        merged.pop().unwrap()
    } else {
        points
    }
}

/// `r` is a possible outcome of carrying a polygon across the given sides in turn.
///
/// A side whose tile has no polygon is passed by. With no polygon so far, the first
/// neighbour's polygon is the outcome, and no further side is looked at. Else the neighbour's
/// polygon is merged with the one so far: see [`merge_choice`].
pub open spec fn extended<V, T, M>(
    so_far: Option<Vec<V>>,
    sides: Seq<TileSide>,
    neighbour: &T,
    merge: &M,
    r: Option<Vec<V>>,
) -> bool where T: Fn(TileSide) -> Option<Vec<V>>, M: Fn(&Vec<V>, &Vec<V>) -> Vec<Vec<V>>
    decreases sides.len(),
{
    if sides.len() == 0 {
        r == so_far
    } else {
        ||| neighbour.ensures((sides[0],), None) && extended(
            so_far,
            sides.skip(1),
            neighbour,
            merge,
            r,
        )
        ||| exists|next_points: Vec<V>| #[trigger]
            neighbour.ensures((sides[0],), Some(next_points)) && match so_far {
                None => r == Some(next_points),
                Some(points) => exists|merged: Vec<Vec<V>>| #[trigger]
                    merge.ensures((&next_points, &points), merged) && extended(
                        Some(merge_choice(points, merged)),
                        sides.skip(1),
                        neighbour,
                        merge,
                        r,
                    ),
            }
    }
}

/// Carries a polygon across the given sides of its tile: for each side in turn, the polygon
/// that `neighbour` finds in the tile beyond it is merged in by `merge`, where that gives one
/// polygon.
///
/// Where the tile itself has no polygon, the first neighbour's polygon is returned as it is:
/// this happens only where a collision lies right on the boundary of an empty tile.
pub fn extend_across_seams<V, T, M>(
    points: Option<Vec<V>>,
    sides: &Vec<TileSide>,
    neighbour: &T,
    merge: &M,
) -> (r: Option<Vec<V>>) where T: Fn(TileSide) -> Option<Vec<V>>, M: Fn(&Vec<V>, &Vec<V>) -> Vec<Vec<V>>
    requires
        forall|side: TileSide| neighbour.requires((side,)),
        forall|p: &Vec<V>, q: &Vec<V>| merge.requires((p, q)),
    ensures
        extended(points, sides@, neighbour, merge, r),
{
    let mut points_so_far = points;
    let mut i: usize = 0;
    proof {
        assert(sides@.skip(0) =~= sides@);
    }
    while i < sides.len()
        invariant
            i <= sides.len(),
            forall|side: TileSide| neighbour.requires((side,)),
            forall|p: &Vec<V>, q: &Vec<V>| merge.requires((p, q)),
            forall|r: Option<Vec<V>>|
                extended(points_so_far, sides@.skip(i as int), neighbour, merge, r) ==> extended(
                    points,
                    sides@,
                    neighbour,
                    merge,
                    r,
                ),
        decreases sides.len() - i,
    {
        let ghost before = points_so_far;
        let ghost rest = sides@.skip(i as int);
        proof {
            assert(rest.skip(1) =~= sides@.skip(i + 1));
        }
        match neighbour(sides[i]) {
            Some(next_points) => {
                match points_so_far {
                    None => {
                        return Some(next_points);
                    },
                    Some(own_points) => {
                        let merged = merge(&next_points, &own_points);
                        points_so_far = Some(merge_outcome(own_points, merged));
                        proof {
                            assert forall|r: Option<Vec<V>>|
                                extended(
                                    points_so_far,
                                    sides@.skip(i + 1),
                                    neighbour,
                                    merge,
                                    r,
                                ) implies extended(before, rest, neighbour, merge, r) by {
                            }
                        }
                    },
                }
            },
            None => {
                proof {
                    assert forall|r: Option<Vec<V>>|
                        extended(
                            points_so_far,
                            sides@.skip(i + 1),
                            neighbour,
                            merge,
                            r,
                        ) implies extended(before, rest, neighbour, merge, r) by {
                    }
                }
            },
        }
        i += 1;
    }
    points_so_far
}

/// Some edge lies flush on the given side.
pub open spec fn flush_somewhere(edges: Seq<EdgeAlignment>, side: TileSide) -> bool {
    exists|i: int| 0 <= i < edges.len() && #[trigger] edges[i].flush_on(side)
}

/// Whether the polygon of a tile is carried across the given side: it is where an edge of its
/// own polygon lies flush on that side, if it has a polygon, and where the collision lies on
/// that side's boundary.
pub open spec fn crosses(
    has_polygon: bool,
    edges: Seq<EdgeAlignment>,
    collision: CollisionAlignment,
    side: TileSide,
) -> bool {
    (has_polygon && flush_somewhere(edges, side)) || collision.side() == Some(side)
}

/// The sides across which the polygon of a tile is carried.
pub open spec fn seams_for(
    has_polygon: bool,
    edges: Seq<EdgeAlignment>,
    collision: CollisionAlignment,
) -> Seams {
    Seams {
        left: crosses(has_polygon, edges, collision, TileSide::Left),
        right: crosses(has_polygon, edges, collision, TileSide::Right),
        up: crosses(has_polygon, edges, collision, TileSide::Up),
        down: crosses(has_polygon, edges, collision, TileSide::Down),
    }
}

/// Finds the sides across which the polygon of a tile is carried.
pub fn find_seams(has_polygon: bool, edges: &Vec<EdgeAlignment>, collision: CollisionAlignment) -> (r:
    Seams)
    ensures
        r == seams_for(has_polygon, edges@, collision),
{
    let mut seams = if has_polygon {
        flush_seams(edges)
    } else {
        Seams::none()
    };
    if let Some(side) = collision.boundary_side() {
        seams.insert(side);
    }
    proof {
        assert(seams.has(TileSide::Left) == crosses(has_polygon, edges@, collision, TileSide::Left));
        assert(seams.has(TileSide::Right) == crosses(
            has_polygon,
            edges@,
            collision,
            TileSide::Right,
        ));
        assert(seams.has(TileSide::Up) == crosses(has_polygon, edges@, collision, TileSide::Up));
        assert(seams.has(TileSide::Down) == crosses(has_polygon, edges@, collision, TileSide::Down));
    }
    seams
}

/// `sides` lists the sides of `seams`, each once, in whatever order.
pub open spec fn lists(sides: Seq<TileSide>, seams: Seams) -> bool {
    &&& sides.no_duplicates()
    &&& forall|side: TileSide| sides.contains(side) == seams.has(side)
}

/// What the engine tells of the tile of a collision.
pub struct TileReading<V> {
    /// The tile's collision polygon in world coordinates, if it has one.
    pub own: Option<Vec<V>>,
    /// How each edge of that polygon lies in the tile; empty where there is no polygon.
    pub edges: Vec<EdgeAlignment>,
    /// Where the collision lies on the boundary of the tile.
    pub collision: CollisionAlignment,
}

/// `r` is a possible outcome of gathering the collision polygon for a tile: the tile's own
/// polygon, carried across its seams in turn.
pub open spec fn gathered<V, T, M>(
    own: Option<Vec<V>>,
    edges: Seq<EdgeAlignment>,
    collision: CollisionAlignment,
    neighbour: &T,
    merge: &M,
    r: Option<Vec<V>>,
) -> bool where T: Fn(TileSide) -> Option<Vec<V>>, M: Fn(&Vec<V>, &Vec<V>) -> Vec<Vec<V>> {
    extended(own, seams_for(own is Some, edges, collision).in_turn(), neighbour, merge, r)
}

/// The collision polygon for the tile of a collision, in world coordinates, grown by the
/// polygons of the tiles into which it runs on.
///
/// `own` is the tile's polygon, if it has one, `edges` tells how each edge of that polygon
/// lies in the tile, and `collision` where the collision lies on the tile's boundary.
/// `neighbour` gives the polygon of the tile beyond a side, in world coordinates and as it is,
/// and `merge` the union of two polygons as one polygon or several.
/// The seams are gone through in the order right, left, down, up.
pub fn get_collider_points_from_tile_map_layer<V, T, M>(
    own: Option<Vec<V>>,
    edges: &Vec<EdgeAlignment>,
    collision: CollisionAlignment,
    neighbour: &T,
    merge: &M,
) -> (r: Option<Vec<V>>) where T: Fn(TileSide) -> Option<Vec<V>>, M: Fn(&Vec<V>, &Vec<V>) -> Vec<Vec<V>>
    requires
        forall|side: TileSide| neighbour.requires((side,)),
        forall|p: &Vec<V>, q: &Vec<V>| merge.requires((p, q)),
    ensures
        gathered(own, edges@, collision, neighbour, merge, r),
{
    let seams = find_seams(own.is_some(), edges, collision);
    let sides = seams.sides();
    extend_across_seams(own, &sides, neighbour, merge)
}

/// `r` is a possible outcome of finding the polygon that a collision was with: the gathered
/// polygon of the tile, smoothed; nothing where the tiles give no polygon, or where the
/// collider is no layer of tiles.
pub open spec fn collider_points<T, M, N, I, E>(
    tile: Option<TileReading<Vector2>>,
    neighbour: &T,
    merge: &M,
    near: &N,
    inside: &I,
    same_normals: &E,
    r: Option<Vec<Vector2>>,
) -> bool where
    T: Fn(TileSide) -> Option<Vec<Vector2>>,
    M: Fn(&Vec<Vector2>, &Vec<Vector2>) -> Vec<Vec<Vector2>>,
    N: Fn(Vector2, Vector2) -> bool,
    I: Fn(LandingSurface, &Vec<Vector2>, Side) -> bool,
    E: Fn(Vector2, Vector2) -> bool,
 {
    match tile {
        None => r is None,
        Some(reading) => exists|raw: Option<Vec<Vector2>>| #[trigger]
            gathered(reading.own, reading.edges@, reading.collision, neighbour, merge, raw)
                && match raw {
                None => r is None,
                Some(points) => r is Some && smoothed(
                    points@,
                    near,
                    inside,
                    same_normals,
                    r.unwrap()@,
                ),
            },
    }
}

/// The polygon that a collision was with, in world coordinates and smoothed.
///
/// `tile` is what the engine tells of the tile of the collision; it is nothing where the
/// collider is not a layer of tiles, and then there is no polygon. For `neighbour` and
/// `merge` see [`get_collider_points_from_tile_map_layer`], for the other measurements
/// [`smooth_polygon`].
pub fn get_collider_points<T, M, N, I, E>(
    tile: Option<TileReading<Vector2>>,
    neighbour: &T,
    merge: &M,
    near: &N,
    inside: &I,
    same_normals: &E,
) -> (r: Option<Vec<Vector2>>) where
    T: Fn(TileSide) -> Option<Vec<Vector2>>,
    M: Fn(&Vec<Vector2>, &Vec<Vector2>) -> Vec<Vec<Vector2>>,
    N: Fn(Vector2, Vector2) -> bool,
    I: Fn(LandingSurface, &Vec<Vector2>, Side) -> bool,
    E: Fn(Vector2, Vector2) -> bool,

    requires
        forall|side: TileSide| neighbour.requires((side,)),
        forall|p: &Vec<Vector2>, q: &Vec<Vector2>| merge.requires((p, q)),
        forall|a: Vector2, b: Vector2| near.requires((a, b)),
        can_probe(inside),
        forall|n1: Vector2, n2: Vector2| same_normals.requires((n1, n2)),
    ensures
        collider_points(tile, neighbour, merge, near, inside, same_normals, r),
{
    if let Some(reading) = tile {
        let raw = get_collider_points_from_tile_map_layer(
            reading.own,
            &reading.edges,
            reading.collision,
            neighbour,
            merge,
        );
        if let Some(mut points) = raw {
            smooth_polygon(&mut points, near, inside, same_normals);
            return Some(points);
        }
    }
    None
}

} // verus!
