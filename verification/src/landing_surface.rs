//! One edge of the terrain as a place to land, and the checks that put its normal right.

use vstd::prelude::*;
use godot::builtin::Vector2;
use crate::math::{negate, negation_of, normal, normal_of, normalized_of, orthogonal_of, difference_of, unit_normal};

verus! {

/// Two end points of a surface, in world coordinates, and the normal that points away from it.
///
/// Where the player landed on a corner, that corner is `a`. An end point may be no more than
/// the end of a tile, with the surface going on beyond it.
#[derive(Clone, Copy, Debug)]
pub struct LandingSurface {
    pub a: Vector2,
    pub b: Vector2,
    pub normal: Vector2,
}

/// The two sides of a surface: the one its normal points to, and the other.
#[derive(PartialEq, Eq, Structural, Clone, Copy, Debug)]
pub enum Side {
    Front,
    Back,
}

/// What probing both sides of a surface says of its normal.
#[derive(PartialEq, Eq, Structural, Clone, Copy, Debug)]
pub enum NormalVerdict {
    /// The front is free: the normal points out of the polygon.
    Outward,
    /// The front is inside the polygon and the back is free: the normal points the wrong way.
    Inward,
    /// Both sides are inside the polygon: the polygon is not simple, and nothing can be decided.
    Ambiguous,
}

/// The three measurements that tell whether a collision belongs to a surface.
pub struct HitTest<P, A, B> {
    /// For a surface and a point: whether the point lies within tolerance of the line that the
    /// surface is part of.
    pub on_plane: P,
    /// For the normal of a surface and the normal of a collision: whether the two nearly agree.
    pub aligned: A,
    /// For the two ends of a surface and a point: whether the point lies between the ends, the
    /// way over the point being hardly longer than the way straight across.
    pub between: B,
}

impl<P, A, B> HitTest<P, A, B> where
    P: Fn(LandingSurface, Vector2) -> bool,
    A: Fn(Vector2, Vector2) -> bool,
    B: Fn(Vector2, Vector2, Vector2) -> bool,
 {
    /// Every measurement can be taken of every argument.
    pub open spec fn total(&self) -> bool {
        &&& forall|s: LandingSurface, p: Vector2| self.on_plane.requires((s, p))
        &&& forall|n1: Vector2, n2: Vector2| self.aligned.requires((n1, n2))
        &&& forall|a: Vector2, b: Vector2, p: Vector2| self.between.requires((a, b, p))
    }
}

/// The probe can be asked of every surface, polygon and side.
pub open spec fn can_probe<I: Fn(LandingSurface, &Vec<Vector2>, Side) -> bool>(inside: &I) -> bool {
    forall|s: LandingSurface, polygon: &Vec<Vector2>, side: Side|
        inside.requires((s, polygon, side))
}

impl LandingSurface {
    /// The surface from `a` to `b` for a player moving by `player_motion`, with the normal
    /// that points towards the player.
    pub open spec fn facing(a: Vector2, b: Vector2, player_motion: Vector2) -> Option<
        LandingSurface,
    > {
        match normal_of(a, b, player_motion) {
            Some(n) => Some(LandingSurface { a, b, normal: n }),
            None => None,
        }
    }

    /// A surface from `a` to `b` with the normal that points towards a player moving by
    /// `player_motion`; nothing where there is no such normal, the edge being too small.
    pub fn new(a: Vector2, b: Vector2, player_motion: Vector2) -> (r: Option<LandingSurface>)
        ensures
            r == Self::facing(a, b, player_motion),
    {
        if let Some(n) = normal(a, b, player_motion) {
            return Some(LandingSurface { a, b, normal: n });
        }
        None
    }

    /// This surface with its normal turned round.
    pub open spec fn turned(self) -> LandingSurface {
        LandingSurface { a: self.a, b: self.b, normal: negation_of(self.normal) }
    }

    /// `verdict` is a possible outcome of probing this surface against `polygon`: the back is
    /// only probed where the front is inside.
    pub open spec fn judged<I: Fn(LandingSurface, &Vec<Vector2>, Side) -> bool>(
        self,
        polygon: &Vec<Vector2>,
        inside: &I,
        verdict: NormalVerdict,
    ) -> bool {
        match verdict {
            NormalVerdict::Outward => inside.ensures((self, polygon, Side::Front), false),
            NormalVerdict::Inward => inside.ensures((self, polygon, Side::Front), true)
                && inside.ensures((self, polygon, Side::Back), false),
            NormalVerdict::Ambiguous => inside.ensures((self, polygon, Side::Front), true)
                && inside.ensures((self, polygon, Side::Back), true),
        }
    }

    /// This surface after `verdict`: turned round where the normal points inward, and left
    /// alone otherwise.
    pub open spec fn settled(self, verdict: NormalVerdict) -> LandingSurface {
        if verdict == NormalVerdict::Inward {
            self.turned()
        } else {
            self
        }
    }

    /// `r` is a possible outcome of correcting this surface's normal against `polygon`.
    pub open spec fn corrected<I: Fn(LandingSurface, &Vec<Vector2>, Side) -> bool>(
        self,
        polygon: &Vec<Vector2>,
        inside: &I,
        r: LandingSurface,
    ) -> bool {
        exists|verdict: NormalVerdict| #[trigger]
            self.judged(polygon, inside, verdict) && r == self.settled(verdict)
    }

    /// Probes the front of the surface and, where that lies inside `polygon`, the back too.
    ///
    /// `inside` takes a surface, a polygon and a side, and tells whether the point one normal
    /// away from the middle of the surface, on that side, lies inside the polygon.
    pub fn examine_normal<I: Fn(LandingSurface, &Vec<Vector2>, Side) -> bool>(
        &self,
        polygon: &Vec<Vector2>,
        inside: &I,
    ) -> (verdict: NormalVerdict)
        requires
            inside.requires((*self, polygon, Side::Front)),
            inside.requires((*self, polygon, Side::Back)),
        ensures
            self.judged(polygon, inside, verdict),
    {
        if inside(*self, polygon, Side::Front) {
            if inside(*self, polygon, Side::Back) {
                NormalVerdict::Ambiguous
            } else {
                NormalVerdict::Inward
            }
        } else {
            NormalVerdict::Outward
        }
    }

    /// Turns the normal round where `verdict` found it pointing inward.
    pub fn apply_verdict(self, verdict: NormalVerdict) -> (r: LandingSurface)
        ensures
            r == self.settled(verdict),
    {
        match verdict {
            NormalVerdict::Inward => LandingSurface {
                a: self.a,
                b: self.b,
                normal: negate(self.normal),
            },
            _ => self,
        }
    }

    /// A surface may have been made with its normal pointing into the polygon that it is part
    /// of. This gives the surface with the normal pointing out of `polygon`.
    ///
    /// Where both sides of the surface lie inside the polygon, the surface comes back as it
    /// was: [`LandingSurface::examine_normal`] tells that case from the others.
    pub fn correct_normal<I: Fn(LandingSurface, &Vec<Vector2>, Side) -> bool>(
        self,
        polygon: &Vec<Vector2>,
        inside: &I,
    ) -> (r: LandingSurface)
        requires
            can_probe(inside),
        ensures
            self.corrected(polygon, inside, r),
            r.a == self.a,
            r.b == self.b,
            (forall|answer: bool| inside.ensures((self, polygon, Side::Front), answer) ==> !answer)
                ==> r == self,
    {
        let verdict = self.examine_normal(polygon, inside);
        self.apply_verdict(verdict)
    }

    /// `r` is a possible outcome of testing whether a collision at `collision_position` with
    /// the normal `collision_normal` belongs to this surface: it does where all three
    /// measurements hold, taken in their order until one fails.
    pub open spec fn struck<P, A, B>(
        self,
        collision_position: Vector2,
        collision_normal: Vector2,
        test: &HitTest<P, A, B>,
        r: bool,
    ) -> bool where
        P: Fn(LandingSurface, Vector2) -> bool,
        A: Fn(Vector2, Vector2) -> bool,
        B: Fn(Vector2, Vector2, Vector2) -> bool,
     {
        ||| !r && test.on_plane.ensures((self, collision_position), false)
        ||| !r && test.on_plane.ensures((self, collision_position), true) && test.aligned.ensures(
            (self.normal, collision_normal),
            false,
        )
        ||| test.on_plane.ensures((self, collision_position), true) && test.aligned.ensures(
            (self.normal, collision_normal),
            true,
        ) && test.between.ensures((self.a, self.b, collision_position), r)
    }

    /// Whether a collision at `collision_position` with the normal `collision_normal` belongs
    /// to this surface: the position lies on the surface's line, the normals agree, and the
    /// position lies between the two ends.
    pub fn hit_by<P, A, B>(
        &self,
        collision_position: Vector2,
        collision_normal: Vector2,
        test: &HitTest<P, A, B>,
    ) -> (r: bool) where
        P: Fn(LandingSurface, Vector2) -> bool,
        A: Fn(Vector2, Vector2) -> bool,
        B: Fn(Vector2, Vector2, Vector2) -> bool,

        requires
            test.total(),
        ensures
            self.struck(collision_position, collision_normal, test, r),
    {
        if (test.on_plane)(*self, collision_position) {
            if (test.aligned)(self.normal, collision_normal) {
                return (test.between)(self.a, self.b, collision_position);
            }
        }
        false
    }

    /// The surface from `a` to `b` with the unit normal of the edge as it comes, to whichever
    /// side, if the edge has a length.
    pub open spec fn along(a: Vector2, b: Vector2) -> Option<LandingSurface> {
        match normalized_of(orthogonal_of(difference_of(a, b))) {
            Some(n) => Some(LandingSurface { a, b, normal: n }),
            None => None,
        }
    }

    /// `r` is a possible outcome of looking for a surface between the vertices `i` and `i2` of
    /// `polygon`: the surface along the edge, with its normal corrected.
    pub open spec fn found<I: Fn(LandingSurface, &Vec<Vector2>, Side) -> bool>(
        polygon: &Vec<Vector2>,
        i: int,
        i2: int,
        inside: &I,
        r: Option<LandingSurface>,
    ) -> bool {
        match Self::along(polygon@[i], polygon@[i2]) {
            None => r is None,
            Some(surface) => r is Some && surface.corrected(polygon, inside, r.unwrap()),
        }
    }

    /// Given two indices on a polygon, which are either consecutive or can be treated as such,
    /// the surface from the first vertex to the second with its normal pointing out of the
    /// polygon, if the edge has a length.
    pub fn find_surface<I: Fn(LandingSurface, &Vec<Vector2>, Side) -> bool>(
        polygon: &Vec<Vector2>,
        i: usize,
        i2: usize,
        inside: &I,
    ) -> (r: Option<LandingSurface>)
        requires
            i < polygon.len(),
            i2 < polygon.len(),
            can_probe(inside),
        ensures
            Self::found(polygon, i as int, i2 as int, inside, r),
            r is Some ==> r.unwrap().a == polygon@[i as int] && r.unwrap().b == polygon@[i2 as int],
    {
        let a = polygon[i];
        let b = polygon[i2];
        match unit_normal(a, b) {
            Some(normal) => {
                let surface = LandingSurface { a, b, normal };
                Some(surface.correct_normal(polygon, inside))
            },
            None => None,
        }
    }
}

/// A collision of which each of the three measurements can only hold belongs to the surface.
///
/// This is the library's part in a hit: the middle of a surface, taken with the surface's own
/// normal, hits the surface wherever the three measurements hold of it, and whether they do
/// is theirs to say.
pub proof fn hit_where_the_measurements_hold<P, A, B>(
    surface: LandingSurface,
    collision_position: Vector2,
    collision_normal: Vector2,
    test: &HitTest<P, A, B>,
    r: bool,
) where
    P: Fn(LandingSurface, Vector2) -> bool,
    A: Fn(Vector2, Vector2) -> bool,
    B: Fn(Vector2, Vector2, Vector2) -> bool,

    requires
        forall|answer: bool|
            test.on_plane.ensures((surface, collision_position), answer) ==> answer,
        forall|answer: bool|
            test.aligned.ensures((surface.normal, collision_normal), answer) ==> answer,
        forall|answer: bool|
            test.between.ensures((surface.a, surface.b, collision_position), answer) ==> answer,
        surface.struck(collision_position, collision_normal, test, r),
    ensures
        r,
{
}

/// Correcting the normal is idempotent on a surface that points out of the polygon: where the
/// front of a surface can only be found free, correcting it gives the surface back, and
/// correcting that again gives it back again.
pub proof fn correcting_an_outward_normal_changes_nothing<I: Fn(LandingSurface, &Vec<Vector2>, Side) -> bool>(
    surface: LandingSurface,
    polygon: &Vec<Vector2>,
    inside: &I,
    once: LandingSurface,
    twice: LandingSurface,
)
    requires
        forall|answer: bool| inside.ensures((surface, polygon, Side::Front), answer) ==> !answer,
        surface.corrected(polygon, inside, once),
        once.corrected(polygon, inside, twice),
    ensures
        once == surface,
        twice == once,
{
}

} // verus!
