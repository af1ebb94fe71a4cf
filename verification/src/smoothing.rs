//! Thinning a polygon out: points that double their neighbour go, and so do the corners that
//! are none, where one edge runs on into the next.

use vstd::prelude::*;
use godot::builtin::Vector2;
use crate::landing_surface::{can_probe, LandingSurface, Side};
use crate::polygon::{
    lemma_without_keeps_prefix, lemma_without_nothing, named, next_and_prior_undo_each_other,
    next_index, next_point, prior_index, remove_points, without,
};

verus! {

/// `dropped` holds a vertex exactly where `near` said of it and the vertex before it that they
/// are as good as one point.
pub open spec fn doubles_marked<N: Fn(Vector2, Vector2) -> bool>(
    polygon: Seq<Vector2>,
    near: &N,
    dropped: Set<int>,
) -> bool {
    forall|i: int|
        0 <= i < polygon.len() ==> near.ensures(
            (polygon[i], polygon[next_index(polygon.len() as int, i)]),
            dropped.contains(#[trigger] next_index(polygon.len() as int, i)),
        )
}

/// `after` is a possible outcome of taking the doubled points out of `before`.
pub open spec fn thinned<N: Fn(Vector2, Vector2) -> bool>(
    before: Seq<Vector2>,
    near: &N,
    after: Seq<Vector2>,
) -> bool {
    exists|dropped: Set<int>| #[trigger]
        doubles_marked(before, near, dropped) && after == without(before, dropped)
}

/// `verdict` is a possible outcome of holding the normal `before` of one edge against the
/// edge from vertex `i2` on: they agree where that edge gives a surface and `same_normals`
/// holds of the two normals.
pub open spec fn agrees_with_next<I, E>(
    polygon: &Vec<Vector2>,
    before: Vector2,
    i2: int,
    inside: &I,
    same_normals: &E,
    verdict: bool,
) -> bool where
    I: Fn(LandingSurface, &Vec<Vector2>, Side) -> bool,
    E: Fn(Vector2, Vector2) -> bool,
 {
    let i3 = next_index(polygon@.len() as int, i2);
    ||| !verdict && LandingSurface::found(polygon, i2, i3, inside, None)
    ||| exists|bc: LandingSurface| #[trigger]
        LandingSurface::found(polygon, i2, i3, inside, Some(bc)) && same_normals.ensures(
            (before, bc.normal),
            verdict,
        )
}

/// `verdict` is a possible outcome of asking whether the edge from vertex `i` runs straight on
/// into the edge after it: it does where both edges give a surface and `same_normals` holds of
/// the two normals.
pub open spec fn runs_on<I, E>(
    polygon: &Vec<Vector2>,
    i: int,
    inside: &I,
    same_normals: &E,
    verdict: bool,
) -> bool where
    I: Fn(LandingSurface, &Vec<Vector2>, Side) -> bool,
    E: Fn(Vector2, Vector2) -> bool,
 {
    let i2 = next_index(polygon@.len() as int, i);
    ||| !verdict && LandingSurface::found(polygon, i, i2, inside, None)
    ||| exists|ab: LandingSurface| #[trigger]
        LandingSurface::found(polygon, i, i2, inside, Some(ab)) && agrees_with_next(
            polygon,
            ab.normal,
            i2,
            inside,
            same_normals,
            verdict,
        )
}

/// `dropped` holds a vertex exactly where the edge into it was found to run on into the edge
/// out of it.
pub open spec fn corners_marked<I, E>(
    polygon: &Vec<Vector2>,
    inside: &I,
    same_normals: &E,
    dropped: Set<int>,
) -> bool where
    I: Fn(LandingSurface, &Vec<Vector2>, Side) -> bool,
    E: Fn(Vector2, Vector2) -> bool,
 {
    forall|i: int|
        0 <= i < polygon@.len() ==> runs_on(
            polygon,
            i,
            inside,
            same_normals,
            dropped.contains(#[trigger] next_index(polygon@.len() as int, i)),
        )
}

/// `after` is a possible outcome of taking out of `before` the corners that are none.
pub open spec fn straightened<I, E>(
    before: &Vec<Vector2>,
    inside: &I,
    same_normals: &E,
    after: Seq<Vector2>,
) -> bool where
    I: Fn(LandingSurface, &Vec<Vector2>, Side) -> bool,
    E: Fn(Vector2, Vector2) -> bool,
 {
    exists|dropped: Set<int>| #[trigger]
        corners_marked(before, inside, same_normals, dropped) && after == without(
            before@,
            dropped,
        )
}

/// Where the stack holds, for each vertex below `upto`, the vertex after it or nothing.
spec fn stack_follows(stack: Seq<usize>, len: int, upto: int) -> bool {
    &&& stack.no_duplicates()
    &&& forall|k: int|
        0 <= k < stack.len() ==> exists|i: int|
            0 <= i < upto && #[trigger] stack[k] as int == next_index(len, i)
}

proof fn lemma_stack_push(stack: Seq<usize>, len: int, upto: int, top: usize, pushed: bool)
    requires
        stack_follows(stack, len, upto),
        0 <= upto < len,
        top as int == next_index(len, upto),
    ensures
        !named(stack).contains(top as int),
        stack_follows(
            if pushed {
                stack.push(top)
            } else {
                stack
            },
            len,
            upto + 1,
        ),
        forall|k: int| 0 <= k < stack.len() ==> stack[k] < len,
        forall|j: int|
            named(stack.push(top)).contains(j) <==> (named(stack).contains(j) || j == top as int),
{
    assert(forall|k: int| 0 <= k < stack.len() ==> stack[k] < len && stack[k] as int != top);
    let longer = stack.push(top);
    assert(forall|j: int| named(longer).contains(j) ==> named(stack).contains(j) || j == top);
    assert forall|j: int| (named(stack).contains(j) || j == top) implies named(longer).contains(
        j,
    ) by {
        if j == top {
            assert(longer[stack.len() as int] as int == j);
        } else {
            let k = choose|k: int| 0 <= k < stack.len() && stack[k] as int == j;
            assert(longer[k] as int == j);
        }
    }
    if pushed {
        assert forall|k: int| 0 <= k < longer.len() implies exists|i: int|
            0 <= i < upto + 1 && #[trigger] longer[k] as int == next_index(len, i) by {
            if k < stack.len() {
                let i = choose|i: int| 0 <= i < upto && stack[k] as int == next_index(len, i);
                assert(longer[k] as int == next_index(len, i));
            }
        }
    } else {
        assert(forall|k: int|
            0 <= k < stack.len() ==> exists|i: int|
                0 <= i < upto + 1 && #[trigger] stack[k] as int == next_index(len, i));
    }
}

/// Removes each point that `near` finds as good as the same as the point before it.
///
/// The last point is followed by the first, so the first point goes where it doubles the last.
pub fn remove_near_duplicates<N: Fn(Vector2, Vector2) -> bool>(polygon: &mut Vec<Vector2>, near: &N)
    requires
        forall|a: Vector2, b: Vector2| near.requires((a, b)),
    ensures
        thinned(old(polygon)@, near, final(polygon)@),
        final(polygon)@.len() <= old(polygon)@.len(),
{
    let mut stack: Vec<usize> = Vec::new();
    let len = polygon.len();
    let mut i: usize = 0;
    while i < len
        invariant
            i <= len,
            len == polygon@.len(),
            polygon@ == old(polygon)@,
            forall|a: Vector2, b: Vector2| near.requires((a, b)),
            stack_follows(stack@, len as int, i as int),
            forall|k: int| 0 <= k < stack@.len() ==> stack@[k] < len,
            forall|j: int|
                0 <= j < i ==> near.ensures(
                    (polygon@[j], polygon@[next_index(len as int, j)]),
                    named(stack@).contains(#[trigger] next_index(len as int, j)),
                ),
        decreases len - i,
    {
        let i2 = next_point(polygon, i);
        let a = polygon[i];
        let b = polygon[i2];
        let ghost before = stack@;
        let doubled = near(a, b);
        if doubled {
            stack.push(i2);
        }
        proof {
            lemma_stack_push(before, len as int, i as int, i2, doubled);
        }
        i += 1;
    }
    proof {
        assert(doubles_marked(polygon@, near, named(stack@)));
        lemma_without_keeps_prefix(polygon@, named(stack@), 0);
    }
    remove_points(polygon, &mut stack);
}

/// The vertices of `polygon` at which one edge runs straight on into the next.
fn straight_corners<I, E>(polygon: &Vec<Vector2>, inside: &I, same_normals: &E) -> (stack: Vec<
    usize,
>) where I: Fn(LandingSurface, &Vec<Vector2>, Side) -> bool, E: Fn(Vector2, Vector2) -> bool
    requires
        can_probe(inside),
        forall|n1: Vector2, n2: Vector2| same_normals.requires((n1, n2)),
    ensures
        stack@.no_duplicates(),
        forall|k: int| 0 <= k < stack@.len() ==> stack@[k] < polygon@.len(),
        corners_marked(polygon, inside, same_normals, named(stack@)),
{
    let mut stack: Vec<usize> = Vec::new();
    let len = polygon.len();
    let mut i: usize = 0;
    while i < len
        invariant
            i <= len,
            len == polygon@.len(),
            can_probe(inside),
            forall|n1: Vector2, n2: Vector2| same_normals.requires((n1, n2)),
            stack_follows(stack@, len as int, i as int),
            forall|k: int| 0 <= k < stack@.len() ==> stack@[k] < len,
            forall|j: int|
                0 <= j < i ==> runs_on(
                    polygon,
                    j,
                    inside,
                    same_normals,
                    named(stack@).contains(#[trigger] next_index(len as int, j)),
                ),
        decreases len - i,
    {
        let i2 = next_point(polygon, i);
        let ghost before = stack@;
        let mut straight = false;
        if let Some(surface_ab) = LandingSurface::find_surface(polygon, i, i2, inside) {
            let i3 = next_point(polygon, i2);
            if let Some(surface_bc) = LandingSurface::find_surface(polygon, i2, i3, inside) {
                if same_normals(surface_ab.normal, surface_bc.normal) {
                    stack.push(i2);
                    straight = true;
                }
                assert(agrees_with_next(
                    polygon,
                    surface_ab.normal,
                    i2 as int,
                    inside,
                    same_normals,
                    straight,
                ));
            } else {
                assert(agrees_with_next(
                    polygon,
                    surface_ab.normal,
                    i2 as int,
                    inside,
                    same_normals,
                    straight,
                ));
            }
        }
        proof {
            lemma_stack_push(before, len as int, i as int, i2, straight);
        }
        i += 1;
    }
    stack
}

/// Joins adjacent edges whose normals `same_normals` finds as good as equal into one longer
/// edge, by removing the vertex between them.
///
/// Every corner is judged on the polygon as it came in; the vertices go together at the end.
pub fn merge_straight_edges<I, E>(polygon: &mut Vec<Vector2>, inside: &I, same_normals: &E) where
    I: Fn(LandingSurface, &Vec<Vector2>, Side) -> bool,
    E: Fn(Vector2, Vector2) -> bool,

    requires
        can_probe(inside),
        forall|n1: Vector2, n2: Vector2| same_normals.requires((n1, n2)),
    ensures
        straightened(&*old(polygon), inside, same_normals, final(polygon)@),
        final(polygon)@.len() <= old(polygon)@.len(),
{
    let mut stack = straight_corners(polygon, inside, same_normals);
    proof {
        lemma_without_keeps_prefix(polygon@, named(stack@), 0);
    }
    remove_points(polygon, &mut stack);
}

/// `after` is a possible outcome of smoothing `before`: first the doubled points go, then, on
/// what is left, the corners that are none.
pub open spec fn smoothed<N, I, E>(
    before: Seq<Vector2>,
    near: &N,
    inside: &I,
    same_normals: &E,
    after: Seq<Vector2>,
) -> bool where
    N: Fn(Vector2, Vector2) -> bool,
    I: Fn(LandingSurface, &Vec<Vector2>, Side) -> bool,
    E: Fn(Vector2, Vector2) -> bool,
 {
    exists|between: Vec<Vector2>| #[trigger]
        thinned(before, near, between@) && straightened(&between, inside, same_normals, after)
}

/// Removes the points that a polygon does not need.
///
/// Tile data may not line up perfectly, which leaves two points right next to each other; and
/// where it does line up, tiling leaves points in the middle of a straight run. Both kinds go:
/// first the doubled points, see [`remove_near_duplicates`], and then, on what is left, the
/// corners that are none, see [`merge_straight_edges`].
///
/// The measurements:
/// - `near` tells whether two points are so near that one of them will do;
/// - `inside` probes a side of a surface: see [`LandingSurface::examine_normal`];
/// - `same_normals` tells whether two normals are as good as equal.
pub fn smooth_polygon<N, I, E>(
    polygon: &mut Vec<Vector2>,
    near: &N,
    inside: &I,
    same_normals: &E,
) where
    N: Fn(Vector2, Vector2) -> bool,
    I: Fn(LandingSurface, &Vec<Vector2>, Side) -> bool,
    E: Fn(Vector2, Vector2) -> bool,

    requires
        forall|a: Vector2, b: Vector2| near.requires((a, b)),
        can_probe(inside),
        forall|n1: Vector2, n2: Vector2| same_normals.requires((n1, n2)),
    ensures
        smoothed(old(polygon)@, near, inside, same_normals, final(polygon)@),
        final(polygon)@.len() <= old(polygon)@.len(),
{
    remove_near_duplicates(polygon, near);
    let ghost between = *polygon;
    merge_straight_edges(polygon, inside, same_normals);
}

/// No point of the polygon can be found to double the point before it.
pub open spec fn no_doubles<N: Fn(Vector2, Vector2) -> bool>(points: Seq<Vector2>, near: &N) -> bool {
    forall|i: int, answer: bool|
        0 <= i < points.len() && #[trigger] near.ensures(
            (points[i], points[next_index(points.len() as int, i)]),
            answer,
        ) ==> !answer
}

/// On no vector that holds these points can an edge be found to run straight on into the next.
pub open spec fn no_straight_corners<I, E>(
    points: Seq<Vector2>,
    inside: &I,
    same_normals: &E,
) -> bool where
    I: Fn(LandingSurface, &Vec<Vector2>, Side) -> bool,
    E: Fn(Vector2, Vector2) -> bool,
 {
    forall|polygon: Vec<Vector2>, i: int, verdict: bool|
        polygon@ == points && 0 <= i < points.len() && #[trigger] runs_on(
            &polygon,
            i,
            inside,
            same_normals,
            verdict,
        ) ==> !verdict
}

/// A polygon on which no point doubles its neighbour and no edge runs on into the next comes
/// out of smoothing as it went in.
pub proof fn smoothing_leaves_a_smooth_polygon<N, I, E>(
    points: Seq<Vector2>,
    near: &N,
    inside: &I,
    same_normals: &E,
    after: Seq<Vector2>,
) where
    N: Fn(Vector2, Vector2) -> bool,
    I: Fn(LandingSurface, &Vec<Vector2>, Side) -> bool,
    E: Fn(Vector2, Vector2) -> bool,

    requires
        no_doubles(points, near),
        no_straight_corners(points, inside, same_normals),
        smoothed(points, near, inside, same_normals, after),
    ensures
        after == points,
{
    let len = points.len() as int;
    let between = choose|between: Vec<Vector2>| #[trigger]
        thinned(points, near, between@) && straightened(&between, inside, same_normals, after);
    let doubled = choose|dropped: Set<int>| #[trigger]
        doubles_marked(points, near, dropped) && between@ == without(points, dropped);
    assert forall|j: int| 0 <= j < len implies !doubled.contains(j) by {
        let i = prior_index(len, j);
        next_and_prior_undo_each_other(len, j);
        assert(near.ensures(
            (points[i], points[next_index(len, i)]),
            doubled.contains(next_index(len, i)),
        ));
    }
    lemma_without_nothing(points, doubled);
    let straight = choose|dropped: Set<int>| #[trigger]
        corners_marked(&between, inside, same_normals, dropped) && after == without(
            between@,
            dropped,
        );
    assert forall|j: int| 0 <= j < len implies !straight.contains(j) by {
        let i = prior_index(len, j);
        next_and_prior_undo_each_other(len, j);
    }
    lemma_without_nothing(between@, straight);
}

/// Smoothing twice gives what smoothing once gives, wherever the first run leaves no point
/// that doubles its neighbour and no edge that runs on into the next.
///
/// A run judges every point on the polygon as it finds it, so it can leave such points behind:
/// where taking a point out brings two points together that double each other, only a second
/// run takes one of them out.
pub proof fn smoothing_twice_is_smoothing_once<N, I, E>(
    before: Seq<Vector2>,
    once: Seq<Vector2>,
    twice: Seq<Vector2>,
    near: &N,
    inside: &I,
    same_normals: &E,
) where
    N: Fn(Vector2, Vector2) -> bool,
    I: Fn(LandingSurface, &Vec<Vector2>, Side) -> bool,
    E: Fn(Vector2, Vector2) -> bool,

    requires
        smoothed(before, near, inside, same_normals, once),
        no_doubles(once, near),
        no_straight_corners(once, inside, same_normals),
        smoothed(once, near, inside, same_normals, twice),
    ensures
        twice == once,
{
    smoothing_leaves_a_smooth_polygon(once, near, inside, same_normals, twice);
}

} // verus!
