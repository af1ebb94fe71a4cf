//! Choosing the surface on which a collision lets the player land: along an edge, or at a corner.

use vstd::prelude::*;
use godot::builtin::Vector2;
use crate::landing_surface::{can_probe, HitTest, LandingSurface, Side};
use crate::math::{is_zero, zero_approx};
use crate::polygon::{next_index, next_point, prior_index, prior_point};

verus! {

/// `kept` is a possible outcome of keeping `found` only where the player can land on it.
pub open spec fn screened<C: Fn(LandingSurface) -> bool>(
    found: Option<LandingSurface>,
    can_land: &C,
    kept: Option<LandingSurface>,
) -> bool {
    match found {
        None => kept is None,
        Some(s) => can_land.ensures((s,), kept is Some) && (kept is Some ==> kept == found),
    }
}

/// `kept` is a possible outcome of looking for a surface from vertex `from` to vertex `to` on
/// which the player can land.
pub open spec fn neighbour<C, I>(
    points: &Vec<Vector2>,
    from: int,
    to: int,
    can_land: &C,
    inside: &I,
    kept: Option<LandingSurface>,
) -> bool where
    C: Fn(LandingSurface) -> bool,
    I: Fn(LandingSurface, &Vec<Vector2>, Side) -> bool,
 {
    exists|found: Option<LandingSurface>| #[trigger]
        LandingSurface::found(points, from, to, inside, found) && screened(found, can_land, kept)
}

/// The surface to land on where the one that was hit is too short: the neighbour that there
/// is; of two, the next one where its corner is the nearer, else the prior one; and the short
/// surface itself where there is no neighbour.
pub open spec fn neighbour_choice(
    surface: LandingSurface,
    next: Option<LandingSurface>,
    prior: Option<LandingSurface>,
    next_is_nearer: bool,
) -> LandingSurface {
    match (next, prior) {
        (None, None) => surface,
        (None, Some(p)) => p,
        (Some(n), None) => n,
        (Some(n), Some(p)) => if next_is_nearer {
            n
        } else {
            p
        },
    }
}

/// Picks between the neighbours of a surface that is too short to land on.
pub fn choose_neighbour(
    surface: LandingSurface,
    next: Option<LandingSurface>,
    prior: Option<LandingSurface>,
    next_is_nearer: bool,
) -> (r: LandingSurface)
    ensures
        r == neighbour_choice(surface, next, prior, next_is_nearer),
{
    match (next, prior) {
        (None, None) => surface,
        (None, Some(p)) => p,
        (Some(n), None) => n,
        (Some(n), Some(p)) => if next_is_nearer {
            n
        } else {
            p
        },
    }
}

/// `r` is a possible outcome of settling where to land once the edge from vertex `i` was hit:
/// the surface itself where the player can land on it, else the choice among its neighbours.
pub open spec fn resolved<C, I, D>(
    points: &Vec<Vector2>,
    i: int,
    surface: LandingSurface,
    can_land: &C,
    inside: &I,
    nearer: &D,
    r: LandingSurface,
) -> bool where
    C: Fn(LandingSurface) -> bool,
    I: Fn(LandingSurface, &Vec<Vector2>, Side) -> bool,
    D: Fn(Vector2, Vector2) -> bool,
 {
    let len = points@.len() as int;
    let i2 = next_index(len, i);
    ||| can_land.ensures((surface,), true) && r == surface
    ||| can_land.ensures((surface,), false) && exists|
        next: Option<LandingSurface>,
        prior: Option<LandingSurface>,
        next_is_nearer: bool,
    |
        {
            &&& neighbour(points, i2, next_index(len, i2), can_land, inside, next)
            &&& neighbour(points, i, prior_index(len, i), can_land, inside, prior)
            &&& next is Some && prior is Some ==> nearer.ensures(
                (next.unwrap().a, prior.unwrap().a),
                next_is_nearer,
            )
            &&& r == #[trigger] neighbour_choice(surface, next, prior, next_is_nearer)
        }
}

/// The surface on the edge from vertex `i` to the vertex after it, for a player moving by
/// `player_motion`.
pub open spec fn edge_surface(points: Seq<Vector2>, i: int, player_motion: Vector2) -> Option<
    LandingSurface,
> {
    LandingSurface::facing(points[i], points[next_index(points.len() as int, i)], player_motion)
}

/// The edge from vertex `i` can be found not to take the collision: it has no normal against
/// the player's motion, or the surface with that normal is not hit.
pub open spec fn passed_over<P, A, B>(
    points: Seq<Vector2>,
    i: int,
    collision_position: Vector2,
    player_motion: Vector2,
    collision_normal: Vector2,
    test: &HitTest<P, A, B>,
) -> bool where
    P: Fn(LandingSurface, Vector2) -> bool,
    A: Fn(Vector2, Vector2) -> bool,
    B: Fn(Vector2, Vector2, Vector2) -> bool,
 {
    match edge_surface(points, i, player_motion) {
        None => true,
        Some(surface) => surface.struck(collision_position, collision_normal, test, false),
    }
}

/// The edge from vertex `i` can be found to take the collision.
pub open spec fn struck_at<P, A, B>(
    points: Seq<Vector2>,
    i: int,
    collision_position: Vector2,
    player_motion: Vector2,
    collision_normal: Vector2,
    test: &HitTest<P, A, B>,
) -> bool where
    P: Fn(LandingSurface, Vector2) -> bool,
    A: Fn(Vector2, Vector2) -> bool,
    B: Fn(Vector2, Vector2, Vector2) -> bool,
 {
    match edge_surface(points, i, player_motion) {
        None => false,
        Some(surface) => surface.struck(collision_position, collision_normal, test, true),
    }
}

/// `r` is a possible outcome of picking the side of a polygon to land on after a collision
/// along an edge: the first edge that takes the collision decides, and no edge may.
pub open spec fn side_picked<P, A, B, C, I, D>(
    points: &Vec<Vector2>,
    collision_position: Vector2,
    player_motion: Vector2,
    collision_normal: Vector2,
    test: &HitTest<P, A, B>,
    can_land: &C,
    inside: &I,
    nearer: &D,
    r: Option<LandingSurface>,
) -> bool where
    P: Fn(LandingSurface, Vector2) -> bool,
    A: Fn(Vector2, Vector2) -> bool,
    B: Fn(Vector2, Vector2, Vector2) -> bool,
    C: Fn(LandingSurface) -> bool,
    I: Fn(LandingSurface, &Vec<Vector2>, Side) -> bool,
    D: Fn(Vector2, Vector2) -> bool,
 {
    match r {
        None => forall|j: int|
            0 <= j < points@.len() ==> #[trigger] passed_over(
                points@,
                j,
                collision_position,
                player_motion,
                collision_normal,
                test,
            ),
        Some(landing) => exists|i: int|
            {
                &&& 0 <= i < points@.len()
                &&& forall|j: int|
                    0 <= j < i ==> #[trigger] passed_over(
                        points@,
                        j,
                        collision_position,
                        player_motion,
                        collision_normal,
                        test,
                    )
                &&& #[trigger] struck_at(
                    points@,
                    i,
                    collision_position,
                    player_motion,
                    collision_normal,
                    test,
                )
                &&& resolved(
                    points,
                    i,
                    edge_surface(points@, i, player_motion).unwrap(),
                    can_land,
                    inside,
                    nearer,
                    landing,
                )
            },
    }
}

/// The surface runs from one vertex of the polygon to the vertex before or after it.
pub open spec fn runs_along(points: Seq<Vector2>, surface: LandingSurface) -> bool {
    exists|i: int|
        0 <= i < points.len() && surface.a == #[trigger] points[i] && (surface.b
            == points[next_index(points.len() as int, i)] || surface.b == points[prior_index(
            points.len() as int,
            i,
        )])
}

/// Keeps a surface only where the player can land on it.
fn screen<C: Fn(LandingSurface) -> bool>(found: Option<LandingSurface>, can_land: &C) -> (kept:
    Option<LandingSurface>)
    requires
        forall|s: LandingSurface| can_land.requires((s,)),
    ensures
        screened(found, can_land, kept),
{
    match found {
        Some(s) => if can_land(s) {
            Some(s)
        } else {
            None
        },
        None => None,
    }
}

/// Settles where to land once the edge from vertex `i` was hit as `surface`.
///
/// Where the player cannot land on `surface`, the edges on both sides are looked at, and only
/// those that the player can land on count: the edge after this one, taken from the vertex
/// that they share, and the edge before this one, taken from the vertex that they share.
/// Of two such, the one after wins where `nearer` finds its corner nearer to the player than
/// the corner of the one before, and the one before wins otherwise. With none, the player
/// lands on `surface` all the same, short as it is.
pub fn settle_landing<C, I, D>(
    points: &Vec<Vector2>,
    i: usize,
    surface: LandingSurface,
    can_land: &C,
    inside: &I,
    nearer: &D,
) -> (r: LandingSurface) where
    C: Fn(LandingSurface) -> bool,
    I: Fn(LandingSurface, &Vec<Vector2>, Side) -> bool,
    D: Fn(Vector2, Vector2) -> bool,

    requires
        i < points.len(),
        forall|s: LandingSurface| can_land.requires((s,)),
        can_probe(inside),
        forall|p: Vector2, q: Vector2| nearer.requires((p, q)),
    ensures
        resolved(points, i as int, surface, can_land, inside, nearer, r),
        surface.a == points@[i as int] && surface.b == points@[next_index(
            points@.len() as int,
            i as int,
        )] ==> runs_along(points@, r),
{
    if can_land(surface) {
        return surface;
    }
    let i2 = next_point(points, i);
    let next_surface = screen(
        LandingSurface::find_surface(points, i2, next_point(points, i2), inside),
        can_land,
    );
    let prior_surface = screen(
        LandingSurface::find_surface(points, i, prior_point(points, i), inside),
        can_land,
    );
    let next_is_nearer = match (next_surface, prior_surface) {
        (Some(n), Some(p)) => nearer(n.a, p.a),
        _ => false,
    };
    let r = choose_neighbour(surface, next_surface, prior_surface, next_is_nearer);
    proof {
        let len = points@.len() as int;
        assert(neighbour(
            points,
            i2 as int,
            next_index(len, i2 as int),
            can_land,
            inside,
            next_surface,
        ));
    }
    r
}

/// Picks the side of the polygon to land on after a collision that did not fall on a vertex.
///
/// The edges are taken in order. An edge that has no normal against the player's motion is
/// too small and is skipped. The first edge whose surface is hit by the collision decides:
/// see [`settle_landing`]. Where no edge is hit, there is nothing to land on.
///
/// The measurements:
/// - `test` tells whether a collision belongs to a surface: see [`LandingSurface::hit_by`];
/// - `can_land` tells whether a surface is long enough for the player's width;
/// - `inside` probes a side of a surface: see [`LandingSurface::examine_normal`];
/// - `nearer` takes two corners, and tells whether the first is nearer to the player than the
///   second, and not merely as near.
pub fn pick_side_to_land_on<P, A, B, C, I, D>(
    points: &Vec<Vector2>,
    collision_position: Vector2,
    player_motion: Vector2,
    collision_normal: Vector2,
    test: &HitTest<P, A, B>,
    can_land: &C,
    inside: &I,
    nearer: &D,
) -> (r: Option<LandingSurface>) where
    P: Fn(LandingSurface, Vector2) -> bool,
    A: Fn(Vector2, Vector2) -> bool,
    B: Fn(Vector2, Vector2, Vector2) -> bool,
    C: Fn(LandingSurface) -> bool,
    I: Fn(LandingSurface, &Vec<Vector2>, Side) -> bool,
    D: Fn(Vector2, Vector2) -> bool,

    requires
        test.total(),
        forall|s: LandingSurface| can_land.requires((s,)),
        can_probe(inside),
        forall|p: Vector2, q: Vector2| nearer.requires((p, q)),
    ensures
        side_picked(
            points,
            collision_position,
            player_motion,
            collision_normal,
            test,
            can_land,
            inside,
            nearer,
            r,
        ),
        r is Some ==> runs_along(points@, r.unwrap()),
{
    let mut i: usize = 0;
    while i < points.len()
        invariant
            i <= points.len(),
            test.total(),
            forall|s: LandingSurface| can_land.requires((s,)),
            can_probe(inside),
            forall|p: Vector2, q: Vector2| nearer.requires((p, q)),
            forall|j: int|
                0 <= j < i ==> #[trigger] passed_over(
                    points@,
                    j,
                    collision_position,
                    player_motion,
                    collision_normal,
                    test,
                ),
        decreases points.len() - i,
    {
        let i2 = next_point(points, i);
        let a = points[i];
        let b = points[i2];
        if let Some(surface) = LandingSurface::new(a, b, player_motion) {
            if surface.hit_by(collision_position, collision_normal, test) {
                let landing = settle_landing(points, i, surface, can_land, inside, nearer);
                proof {
                    assert(struck_at(
                        points@,
                        i as int,
                        collision_position,
                        player_motion,
                        collision_normal,
                        test,
                    ));
                }
                return Some(landing);
            }
        }
        i += 1;
    }
    None
}

/// The surface from the corner at `index` to the vertex that `next_pt_fn` finds beside it, with
/// the corner as its `a`; nothing where the edge has no normal against the player's motion.
pub fn pick_adjacent_side<F: Fn(&Vec<Vector2>, usize) -> usize>(
    points: &Vec<Vector2>,
    index: usize,
    next_pt_fn: F,
    player_motion: Vector2,
) -> (r: Option<LandingSurface>)
    requires
        index < points.len(),
        next_pt_fn.requires((points, index)),
        forall|other: usize| next_pt_fn.ensures((points, index), other) ==> other < points.len(),
    ensures
        exists|other: usize| #[trigger]
            next_pt_fn.ensures((points, index), other) && r == LandingSurface::facing(
                points@[index as int],
                points@[other as int],
                player_motion,
            ),
{
    let next_point_index = next_pt_fn(points, index);
    let a = points[index];
    let b = points[next_point_index];
    LandingSurface::new(a, b, player_motion)
}

/// The player can be found unable to land on the candidate, or there is no candidate.
pub open spec fn turned_down<C: Fn(LandingSurface) -> bool>(
    candidate: Option<LandingSurface>,
    can_land: &C,
) -> bool {
    candidate is Some ==> can_land.ensures((candidate.unwrap(),), false)
}

/// `r` can be the candidate, found fit to land on and with its normal corrected.
pub open spec fn taken<C, I>(
    candidate: Option<LandingSurface>,
    points: &Vec<Vector2>,
    can_land: &C,
    inside: &I,
    r: Option<LandingSurface>,
) -> bool where C: Fn(LandingSurface) -> bool, I: Fn(LandingSurface, &Vec<Vector2>, Side) -> bool {
    &&& candidate is Some
    &&& r is Some
    &&& can_land.ensures((candidate.unwrap(),), true)
    &&& candidate.unwrap().corrected(points, inside, r.unwrap())
}

/// `r` is a possible outcome of trying two candidates in turn: the first that the player can
/// land on, with its normal corrected, and nothing where the player can land on neither.
pub open spec fn tried_in_turn<C, I>(
    first: Option<LandingSurface>,
    second: Option<LandingSurface>,
    points: &Vec<Vector2>,
    can_land: &C,
    inside: &I,
    r: Option<LandingSurface>,
) -> bool where C: Fn(LandingSurface) -> bool, I: Fn(LandingSurface, &Vec<Vector2>, Side) -> bool {
    ||| taken(first, points, can_land, inside, r)
    ||| turned_down(first, can_land) && taken(second, points, can_land, inside, r)
    ||| turned_down(first, can_land) && turned_down(second, can_land) && r is None
}

/// The two candidates at a corner in the order in which they are tried: as they are, or
/// swapped.
pub open spec fn in_order(
    prior: Option<LandingSurface>,
    next: Option<LandingSurface>,
    swap: bool,
) -> (Option<LandingSurface>, Option<LandingSurface>) {
    if swap {
        (next, prior)
    } else {
        (prior, next)
    }
}

/// Puts the two candidates at a corner in the order in which they are tried.
pub fn order_candidates(
    prior: Option<LandingSurface>,
    next: Option<LandingSurface>,
    swap: bool,
) -> (r: (Option<LandingSurface>, Option<LandingSurface>))
    ensures
        r == in_order(prior, next, swap),
{
    if swap {
        (next, prior)
    } else {
        (prior, next)
    }
}

/// `r` is a possible outcome of picking the side to land on at the corner `index`.
pub open spec fn corner_side_picked<K, C, I>(
    points: &Vec<Vector2>,
    index: int,
    player_motion: Vector2,
    collision_normal: Vector2,
    closer: &K,
    can_land: &C,
    inside: &I,
    r: Option<LandingSurface>,
) -> bool where
    K: Fn(Vector2, Vector2, Vector2) -> bool,
    C: Fn(LandingSurface) -> bool,
    I: Fn(LandingSurface, &Vec<Vector2>, Side) -> bool,
 {
    let len = points@.len() as int;
    let prior = LandingSurface::facing(
        points@[index],
        points@[prior_index(len, index)],
        player_motion,
    );
    let next = LandingSurface::facing(points@[index], points@[next_index(len, index)], player_motion);
    if zero_approx(player_motion) {
        r is None
    } else {
        exists|swap: bool|
            {
                &&& if prior is Some && next is Some {
                    closer.ensures(
                        (next.unwrap().normal, prior.unwrap().normal, collision_normal),
                        swap,
                    )
                } else {
                    !swap
                }
                &&& tried_in_turn(
                    (#[trigger] in_order(prior, next, swap)).0,
                    in_order(prior, next, swap).1,
                    points,
                    can_land,
                    inside,
                    r,
                )
            }
    }
}

/// Tries one candidate: where there is one and the player can land on it, the candidate with
/// its normal corrected.
fn try_candidate<C, I>(
    candidate: Option<LandingSurface>,
    points: &Vec<Vector2>,
    can_land: &C,
    inside: &I,
) -> (r: Option<LandingSurface>) where
    C: Fn(LandingSurface) -> bool,
    I: Fn(LandingSurface, &Vec<Vector2>, Side) -> bool,

    requires
        forall|s: LandingSurface| can_land.requires((s,)),
        can_probe(inside),
    ensures
        match r {
            Some(landing) => taken(candidate, points, can_land, inside, r) && landing.a
                == candidate.unwrap().a && landing.b == candidate.unwrap().b,
            None => turned_down(candidate, can_land),
        },
{
    match candidate {
        Some(surface) => if can_land(surface) {
            // The normal was picked from the player's motion. At a corner that may be the side
            // on which the motion looks to come from inside.
            Some(surface.correct_normal(points, inside))
        } else {
            None
        },
        None => None,
    }
}

/// Picks the side to land on where the collision fell on the vertex `index` of the polygon.
///
/// Without motion nothing tells the two sides apart, and nothing is picked. Else the edges
/// from the corner to the vertex before it and to the vertex after it are the candidates; an
/// edge that has no normal against the player's motion is none. The edge to the vertex before
/// comes first, unless `closer` finds the normal of the other edge closer to the normal of
/// the collision. The first candidate that the player can land on is picked, with its normal
/// corrected against the polygon. Where the player can land on neither, nothing is picked,
/// and the caller has an error to report.
///
/// The measurements:
/// - `closer` takes two normals and the normal of the collision, and tells whether the first
///   agrees more with the collision's than the second does, and not merely as much;
/// - `can_land` tells whether a surface is long enough for the player's width;
/// - `inside` probes a side of a surface: see [`LandingSurface::examine_normal`].
pub fn pick_side_to_land_on_from_corner<K, C, I>(
    points: &Vec<Vector2>,
    index: usize,
    player_motion: Vector2,
    collision_normal: Vector2,
    closer: &K,
    can_land: &C,
    inside: &I,
) -> (r: Option<LandingSurface>) where
    K: Fn(Vector2, Vector2, Vector2) -> bool,
    C: Fn(LandingSurface) -> bool,
    I: Fn(LandingSurface, &Vec<Vector2>, Side) -> bool,

    requires
        index < points.len(),
        forall|n1: Vector2, n2: Vector2, n: Vector2| closer.requires((n1, n2, n)),
        forall|s: LandingSurface| can_land.requires((s,)),
        can_probe(inside),
    ensures
        corner_side_picked(
            points,
            index as int,
            player_motion,
            collision_normal,
            closer,
            can_land,
            inside,
            r,
        ),
        r is Some ==> r.unwrap().a == points@[index as int] && runs_along(points@, r.unwrap()),
{
    if is_zero(player_motion) {
        return None;
    }
    let landing_surface_a = pick_adjacent_side(points, index, prior_point::<Vector2>, player_motion);
    let landing_surface_b = pick_adjacent_side(points, index, next_point::<Vector2>, player_motion);
    // First comes the surface whose normal is closest to the normal of the collision.
    let swap = match (landing_surface_a, landing_surface_b) {
        (Some(a), Some(b)) => closer(b.normal, a.normal, collision_normal),
        _ => false,
    };
    let (first, second) = order_candidates(landing_surface_a, landing_surface_b, swap);
    match try_candidate(first, points, can_land, inside) {
        Some(landing) => Some(landing),
        None => try_candidate(second, points, can_land, inside),
    }
}

} // verus!
