//! What the engine computes of vectors from vectors alone, and the normal of an edge.
//!
//! What a vector holds is not visible here, so what the engine computes of vectors has a
//! name and no definition: the same vectors give the same result, and that is all that is
//! said of it.

use vstd::prelude::*;
use godot::builtin::Vector2;

verus! {

/// The engine's vector of two coordinates.
#[verifier::external_type_specification]
#[verifier::external_body]
pub struct ExVector2(godot::builtin::Vector2);

/// What `Sub::sub` gives for the two vectors: the first less the second.
pub uninterp spec fn difference_of(a: Vector2, b: Vector2) -> Vector2;

/// What `Neg::neg` gives for the vector: the vector turned round.
pub uninterp spec fn negation_of(v: Vector2) -> Vector2;

/// What `Vector2::orthogonal` gives for the vector: the vector turned by a quarter.
pub uninterp spec fn orthogonal_of(v: Vector2) -> Vector2;

/// What `Vector2::project` gives for the two vectors: the part of the first that lies along
/// the second.
pub uninterp spec fn projection_of(v: Vector2, onto: Vector2) -> Vector2;

/// What `Vector2::try_normalized` gives for the vector: the vector scaled to length one, if
/// it is not the zero vector.
pub uninterp spec fn normalized_of(v: Vector2) -> Option<Vector2>;

/// What `Vector2::is_zero_approx` gives for the vector: whether both coordinates are within
/// the engine's epsilon of zero.
pub uninterp spec fn zero_approx(v: Vector2) -> bool;

/// What `Vector2::is_finite` gives for the vector: whether both coordinates are finite
/// numbers.
pub uninterp spec fn finite(v: Vector2) -> bool;

/// What `PartialEq::eq` gives for the two vectors: whether they compare equal.
pub uninterp spec fn equal(a: Vector2, b: Vector2) -> bool;

/// `Sub::sub` of the engine's `Vector2`, which subtracts coordinate by coordinate. The
/// result is a function of the two vectors.
#[verifier::external_body]
fn difference(a: Vector2, b: Vector2) -> (r: Vector2)
    ensures
        r == difference_of(a, b),
{
    a - b
}

/// `Neg::neg` of the engine's `Vector2`, which negates each coordinate. The result is a
/// function of the vector.
#[verifier::external_body]
fn negated(v: Vector2) -> (r: Vector2)
    ensures
        r == negation_of(v),
{
    -v
}

/// `Vector2::orthogonal`, which swaps the coordinates and negates one. The result is a
/// function of the vector.
#[verifier::external_body]
fn orthogonal(v: Vector2) -> (r: Vector2)
    ensures
        r == orthogonal_of(v),
{
    v.orthogonal()
}

/// `Vector2::project`. The result is a function of the two vectors.
///
/// In a build with debug assertions the engine's vector library panics where one over the
/// squared length of `onto` is not finite. With finite coordinates of which one is at least
/// the engine's epsilon, the squared length is neither zero nor not a number.
#[verifier::external_body]
fn projected(v: Vector2, onto: Vector2) -> (r: Vector2)
    requires
        finite(onto),
        !zero_approx(onto),
    ensures
        r == projection_of(v, onto),
{
    v.project(onto)
}

/// `Vector2::try_normalized`, which gives nothing for the zero vector and the vector divided
/// by its length otherwise. The result is a function of the vector.
#[verifier::external_body]
fn try_normalized(v: Vector2) -> (r: Option<Vector2>)
    ensures
        r == normalized_of(v),
{
    v.try_normalized()
}

/// `Vector2::is_zero_approx`. The result is a function of the vector.
#[verifier::external_body]
fn is_zero_approx(v: Vector2) -> (r: bool)
    ensures
        r == zero_approx(v),
{
    v.is_zero_approx()
}

/// `Vector2::is_finite`. The result is a function of the vector.
#[verifier::external_body]
fn is_finite(v: Vector2) -> (r: bool)
    ensures
        r == finite(v),
{
    v.is_finite()
}

/// `PartialEq::eq` of the engine's `Vector2`, which compares coordinate by coordinate. The
/// result is a function of the two vectors.
#[verifier::external_body]
fn compared(a: Vector2, b: Vector2) -> (r: bool)
    ensures
        r == equal(a, b),
{
    a == b
}

/// The unit vector along the vector at right angles to the edge from `a` to `b`, where it can
/// be projected on: it is there, its coordinates are finite, and they are not both within the
/// engine's epsilon of zero.
///
/// It is not there for an edge without length. A unit vector fails the other two tests only
/// where the arithmetic has broken down: at ends that are not finite, or so far apart or so
/// close together that their distance is no number to divide by.
pub open spec fn axis_of(a: Vector2, b: Vector2) -> Option<Vector2> {
    match normalized_of(orthogonal_of(difference_of(b, a))) {
        Some(axis) => if finite(axis) && !zero_approx(axis) {
            Some(axis)
        } else {
            None
        },
        None => None,
    }
}

/// The normal of the edge from `a` to `b` that points towards a player who moves by
/// `player_motion`: the motion turned round, projected on the axis at right angles to the
/// edge, and scaled to length one.
///
/// There is none where the edge has no axis, see [`axis_of`], and none where the player
/// moves along the edge.
///
/// The motion is projected on the axis scaled to length one, and not on the axis as long as
/// the edge: in a build with debug assertions the engine's projection panics where one over
/// the squared length of what it projects on is not finite, and of a vector of length one
/// that can be told by the two tests that the engine has for it. The projection on either
/// points the same way.
pub open spec fn normal_of(a: Vector2, b: Vector2, player_motion: Vector2) -> Option<Vector2> {
    match axis_of(a, b) {
        Some(axis) => normalized_of(projection_of(negation_of(player_motion), axis)),
        None => None,
    }
}

/// Assuming the player collided with the surface between the points `a` and `b`, the normal
/// of the surface that points towards the player, if the surface has one.
pub fn normal(a: Vector2, b: Vector2, player_motion: Vector2) -> (r: Option<Vector2>)
    ensures
        r == normal_of(a, b, player_motion),
{
    match try_normalized(orthogonal(difference(b, a))) {
        Some(axis) => if is_finite(axis) && !is_zero_approx(axis) {
            try_normalized(projected(negated(player_motion), axis))
        } else {
            None
        },
        None => None,
    }
}

/// The unit vector at right angles to the edge from `a` to `b`, to one side of it or the
/// other; nothing where the two points are the same.
pub fn unit_normal(a: Vector2, b: Vector2) -> (r: Option<Vector2>)
    ensures
        r == normalized_of(orthogonal_of(difference_of(a, b))),
{
    try_normalized(orthogonal(difference(a, b)))
}

/// The unit vector that points from `from` to `to`, if the two are not the same point.
pub open spec fn direction_of(from: Vector2, to: Vector2) -> Option<Vector2> {
    normalized_of(difference_of(to, from))
}

/// The unit vector that points from `from` to `to`, if the two are not the same point.
pub fn direction(from: Vector2, to: Vector2) -> (r: Option<Vector2>)
    ensures
        r == direction_of(from, to),
{
    try_normalized(difference(to, from))
}

/// The opposite of a vector.
pub fn negate(normal: Vector2) -> (r: Vector2)
    ensures
        r == negation_of(normal),
{
    negated(normal)
}

/// Whether a motion is as good as none.
pub fn is_zero(motion: Vector2) -> (r: bool)
    ensures
        r == zero_approx(motion),
{
    is_zero_approx(motion)
}

/// Whether two points are the same point.
pub fn same_point(a: Vector2, b: Vector2) -> (r: bool)
    ensures
        r == equal(a, b),
{
    compared(a, b)
}

} // verus!
