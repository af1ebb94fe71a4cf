//! The player between air, surface and shimmy: what a physics step decides once the engine
//! has moved the body and reported what it ran into.

use vstd::prelude::*;
use godot::builtin::Vector2;
use crate::direction::Direction;
use crate::landing_surface::{can_probe, HitTest, LandingSurface, Side};
use crate::math::{direction, direction_of, equal, is_zero, same_point, zero_approx};
use crate::polygon::{find_point, is_first_at};
use crate::selection::{
    corner_side_picked, pick_side_to_land_on, pick_side_to_land_on_from_corner, side_picked,
};

verus! {

/// What it takes to put a new player where an old one was.
#[derive(Clone, Copy, Debug)]
pub struct PlayerInfo {
    /// Position local to the parent.
    pub pos: Vector2,
    pub vel: Vector2,
    pub dir: Direction,
}

/// Which way the normal of a landing points, as far as that can be told with room to spare.
#[derive(Clone, Copy, Debug)]
pub struct NormalReading {
    /// The normal points clearly to the right.
    pub right: bool,
    /// The normal points clearly to the left.
    pub left: bool,
    /// The normal points clearly down: the surface is overhead.
    pub down: bool,
    /// The normal points clearly up: the surface is underfoot.
    pub up: bool,
}

/// The axis that the normal of a landing goes by.
#[derive(PartialEq, Eq, Structural, Clone, Copy, Debug)]
pub enum NormalAxis {
    /// A wall to the left of the player; its normal points right.
    Right,
    /// A wall to the right of the player; its normal points left.
    Left,
    /// A ceiling; its normal points down.
    Down,
    /// A floor; its normal points up.
    Up,
    /// None of these: a landing that should not happen.
    Askew,
}

impl NormalReading {
    /// The axis of the reading: right before left before down before up.
    pub open spec fn axis(self) -> NormalAxis {
        if self.right {
            NormalAxis::Right
        } else if self.left {
            NormalAxis::Left
        } else if self.down {
            NormalAxis::Down
        } else if self.up {
            NormalAxis::Up
        } else {
            NormalAxis::Askew
        }
    }

    /// The axis that the normal goes by.
    pub fn dominant_axis(&self) -> (r: NormalAxis)
        ensures
            r == self.axis(),
    {
        if self.right {
            NormalAxis::Right
        } else if self.left {
            NormalAxis::Left
        } else if self.down {
            NormalAxis::Down
        } else if self.up {
            NormalAxis::Up
        } else {
            NormalAxis::Askew
        }
    }
}

/// What a physics step begins with.
#[derive(Clone, Copy, Debug)]
pub enum StepPlan {
    /// The player is shimmying: glide on towards this point, and let gravity and collisions be.
    Glide(Vector2),
    /// Move by the velocity, after adding gravity to it where the player is falling.
    Move { falling: bool },
}

/// The two signs that set the direction of a jump.
#[derive(PartialEq, Eq, Structural, Clone, Copy, Debug)]
pub struct JumpSigns {
    /// Sign of the jump's strength along `y`: 1 off a ceiling, which is downwards, else -1.
    pub strength: i8,
    /// Sign of the angle by which the jump is turned away from the vertical.
    pub angle: i8,
}

/// The part of a player's state that landing, shimmying and jumping turn on.
#[derive(Clone, Copy, Debug)]
pub struct Player {
    pub direction: Direction,
    pub target_velocity: Vector2,
    /// True when on any surface: floor, wall, ceiling.
    pub on_surface: bool,
    pub on_ceiling: bool,
    /// Where a player who landed on a corner or off an edge is shimmying to, until fully on
    /// the surface.
    pub shimmy_dest: Option<Vector2>,
    /// When true, presses of "jump" are marked as handled, so that nothing else sees them.
    pub consume_input: bool,
}

impl Player {
    /// Being on a ceiling is being on a surface.
    pub open spec fn wf(&self) -> bool {
        self.on_ceiling ==> self.on_surface
    }

    /// The sign of a jump's strength in the given state.
    pub open spec fn strength_sign(on_ceiling: bool) -> int {
        if on_ceiling {
            1
        } else {
            -1
        }
    }

    /// The sign of a jump's angle in the given state: off a floor or a wall -1 for a player
    /// facing left and 1 for one facing right, and off a ceiling the other way round.
    pub open spec fn angle_sign(direction: Direction, on_ceiling: bool) -> int {
        match direction {
            Direction::Left => if on_ceiling {
                1
            } else {
                -1
            },
            Direction::Right => if on_ceiling {
                -1
            } else {
                1
            },
        }
    }

    /// A player in the air, at rest, facing left.
    pub fn new(at_rest: Vector2) -> (r: Self)
        ensures
            r.direction == Direction::Left,
            r.target_velocity == at_rest,
            !r.on_surface,
            !r.on_ceiling,
            r.shimmy_dest is None,
            !r.consume_input,
            r.wf(),
    {
        Player {
            direction: Direction::Left,
            target_velocity: at_rest,
            on_surface: false,
            on_ceiling: false,
            shimmy_dest: None,
            consume_input: false,
        }
    }

    /// What the physics step begins with: a shimmy under way suspends everything else, and
    /// gravity pulls only on a player who is on no surface.
    pub fn begin_step(&self) -> (r: StepPlan)
        ensures
            r == match self.shimmy_dest {
                Some(dest) => StepPlan::Glide(dest),
                None => StepPlan::Move { falling: !self.on_surface },
            },
    {
        match self.shimmy_dest {
            Some(dest) => StepPlan::Glide(dest),
            None => StepPlan::Move { falling: !self.on_surface },
        }
    }

    /// Whether a player now at `position` has come to the end of the shimmy: there is a
    /// shimmy, and the position is its destination.
    pub open spec fn arrived_at(self, position: Vector2) -> bool {
        self.shimmy_dest is Some && equal(position, self.shimmy_dest.unwrap())
    }

    /// Ends the shimmy where the glide has brought the player to `new_position` and that is
    /// its destination, and says whether it did: then the usual animation is due again.
    pub fn finish_glide(&mut self, new_position: Vector2) -> (ended: bool)
        ensures
            ended == old(self).arrived_at(new_position),
            final(self).shimmy_dest == if ended {
                None
            } else {
                old(self).shimmy_dest
            },
            final(self).direction == old(self).direction,
            final(self).target_velocity == old(self).target_velocity,
            final(self).on_surface == old(self).on_surface,
            final(self).on_ceiling == old(self).on_ceiling,
            final(self).consume_input == old(self).consume_input,
    {
        match self.shimmy_dest {
            Some(shimmy_dest) => {
                if same_point(new_position, shimmy_dest) {
                    self.shimmy_dest = None;
                    true
                } else {
                    false
                }
            },
            None => false,
        }
    }

    /// Whether the player landed on the corner of the surface, and not somewhere along it:
    /// the collision is at the end `a` of the surface.
    pub fn landed_on_corner(surface: &LandingSurface, collision_position: Vector2) -> (r: bool)
        ensures
            r == equal(collision_position, surface.a),
    {
        same_point(collision_position, surface.a)
    }

    /// The normal to land by: that of the landing surface where one was found, else the one
    /// that the engine reported for the collision.
    pub fn landing_normal(landing_surface: Option<LandingSurface>, collision_normal: Vector2) -> (r: Vector2)
        ensures
            r == match landing_surface {
                Some(surface) => surface.normal,
                None => collision_normal,
            },
    {
        match landing_surface {
            Some(surface) => surface.normal,
            None => collision_normal,
        }
    }

    /// The way the player faces after landing by a normal of the given axis.
    ///
    /// A wall turns the player towards it: a player who runs to the right into a wall, whose
    /// normal points left, faces right on it. The wall on the other side is taken the same
    /// way round, so a normal that points right leaves the player facing left. A floor and a
    /// ceiling leave the player as before, and so does an askew normal.
    pub open spec fn facing_after(direction: Direction, axis: NormalAxis) -> Direction {
        match axis {
            NormalAxis::Left => Direction::Right,
            NormalAxis::Right => Direction::Left,
            NormalAxis::Down => direction,
            NormalAxis::Up => direction,
            NormalAxis::Askew => direction,
        }
    }

    /// Whether the sprite is mirrored after landing by a normal of the given axis, if the
    /// landing says anything of it.
    ///
    /// On a wall the sprite is mirrored for a player who faces left and not for one who
    /// faces right, the way the player faces being the way after the landing. On a floor it
    /// is the other way round, and on a ceiling, where the player hangs upside down, as on a
    /// wall.
    pub open spec fn mirrored_after(direction: Direction, axis: NormalAxis) -> Option<bool> {
        match axis {
            NormalAxis::Left => Some(false),
            NormalAxis::Right => Some(true),
            NormalAxis::Down => Some(direction == Direction::Left),
            NormalAxis::Up => Some(direction == Direction::Right),
            NormalAxis::Askew => None,
        }
    }

    /// On a wall the mirroring goes by the way the player faces after the landing.
    pub proof fn mirroring_on_a_wall_goes_by_the_facing(direction: Direction, axis: NormalAxis)
        requires
            axis == NormalAxis::Left || axis == NormalAxis::Right,
        ensures
            Self::mirrored_after(direction, axis) == Some(
                Self::facing_after(direction, axis) == Direction::Left,
            ),
    {
    }

    /// Puts the player on a surface whose normal goes by `axis`, and gives the mirroring that
    /// the sprite is to have.
    ///
    /// With an askew normal the player is on the surface all the same, nothing else changes,
    /// and no mirroring is given: the caller has an error to report.
    pub fn land(&mut self, axis: NormalAxis) -> (flip_h: Option<bool>)
        ensures
            final(self).on_surface,
            final(self).on_ceiling == (old(self).on_ceiling || axis == NormalAxis::Down),
            final(self).direction == Self::facing_after(old(self).direction, axis),
            flip_h == Self::mirrored_after(old(self).direction, axis),
            final(self).target_velocity == old(self).target_velocity,
            final(self).shimmy_dest == old(self).shimmy_dest,
            final(self).consume_input == old(self).consume_input,
            final(self).wf(),
    {
        self.on_surface = true;
        match axis {
            NormalAxis::Left => {
                self.direction = Direction::Right;
                Some(false)
            },
            NormalAxis::Right => {
                self.direction = Direction::Left;
                Some(true)
            },
            NormalAxis::Down => {
                self.on_ceiling = true;
                Some(self.direction == Direction::Left)
            },
            NormalAxis::Up => Some(self.direction == Direction::Right),
            NormalAxis::Askew => None,
        }
    }

    /// Starts a shimmy to `dest`, unless the way there `would_collide`; says whether it started.
    pub fn start_shimmy(&mut self, dest: Vector2, would_collide: bool) -> (started: bool)
        ensures
            started == !would_collide,
            final(self).shimmy_dest == if would_collide {
                old(self).shimmy_dest
            } else {
                Some(dest)
            },
            final(self).direction == old(self).direction,
            final(self).target_velocity == old(self).target_velocity,
            final(self).on_surface == old(self).on_surface,
            final(self).on_ceiling == old(self).on_ceiling,
            final(self).consume_input == old(self).consume_input,
    {
        if would_collide {
            false
        } else {
            self.shimmy_dest = Some(dest);
            true
        }
    }

    /// The mirroring of the sprite for a jump off a floor or a wall, where the player jumps
    /// right side up; nothing for a jump off a ceiling, where the player stays as turned.
    pub fn jump_pose(&self) -> (flip_h: Option<bool>)
        ensures
            flip_h == if self.on_ceiling {
                None
            } else {
                Some(self.direction == Direction::Right)
            },
    {
        if self.on_ceiling {
            None
        } else {
            Some(self.direction == Direction::Right)
        }
    }

    /// The signs by which the strength and the angle of a jump are multiplied.
    pub fn jump_signs(&self) -> (r: JumpSigns)
        ensures
            r.strength == Self::strength_sign(self.on_ceiling),
            r.angle == Self::angle_sign(self.direction, self.on_ceiling),
    {
        let ceiling_multiplier: i8 = if self.on_ceiling {
            1
        } else {
            -1
        };
        let facing: i8 = match self.direction {
            Direction::Left => 1,
            Direction::Right => -1,
        };
        JumpSigns { strength: ceiling_multiplier, angle: facing * ceiling_multiplier }
    }

    /// Sends the player off the surface with the given velocity.
    pub fn take_off(&mut self, velocity: Vector2)
        ensures
            final(self).target_velocity == velocity,
            !final(self).on_surface,
            !final(self).on_ceiling,
            final(self).direction == old(self).direction,
            final(self).shimmy_dest == old(self).shimmy_dest,
            final(self).consume_input == old(self).consume_input,
            final(self).wf(),
    {
        self.target_velocity = velocity;
        self.on_surface = false;
        self.on_ceiling = false;
    }

    /// Ends a physics step for a player on a surface: with a jump the player takes off with
    /// its velocity, without one the player stays at rest. A player in the air is left alone.
    pub fn finish_step(&mut self, jump: Option<Vector2>, at_rest: Vector2)
        ensures
            *final(self) == if !old(self).on_surface {
                *old(self)
            } else {
                match jump {
                    Some(velocity) => Player {
                        target_velocity: velocity,
                        on_surface: false,
                        on_ceiling: false,
                        ..*old(self)
                    },
                    None => Player { target_velocity: at_rest, ..*old(self) },
                }
            },
            old(self).wf() ==> final(self).wf(),
    {
        if self.on_surface {
            match jump {
                Some(velocity) => {
                    self.take_off(velocity);
                },
                None => {
                    self.target_velocity = at_rest;
                },
            }
        }
    }

    /// Sets whether presses of "jump" are consumed. This is not the same as disabling jumps.
    pub fn consume_input(&mut self, accept: bool)
        ensures
            *final(self) == (Player { consume_input: accept, ..*old(self) }),
    {
        self.consume_input = accept;
    }

    /// Whether an input event is to be marked as handled: a press of "jump", while input is
    /// consumed.
    pub fn swallows(&self, jump_pressed: bool) -> (r: bool)
        ensures
            r == (self.consume_input && jump_pressed),
    {
        self.consume_input && jump_pressed
    }

    /// What it takes to put a new player where this one is, `pos` being this one's position.
    pub fn get_player_info(&self, pos: Vector2) -> (info: PlayerInfo)
        ensures
            info.pos == pos,
            info.vel == self.target_velocity,
            info.dir == self.direction,
    {
        PlayerInfo { pos, vel: self.target_velocity, dir: self.direction }
    }

    /// Takes velocity and direction from `info`, and gives the position that the body is to
    /// be set to.
    pub fn set_player_info(&mut self, info: &PlayerInfo) -> (pos: Vector2)
        ensures
            pos == info.pos,
            *final(self) == (Player {
                target_velocity: info.vel,
                direction: info.dir,
                ..*old(self)
            }),
    {
        self.target_velocity = info.vel;
        self.direction = info.dir;
        info.pos
    }
}

/// What a collision with a polygon came to.
#[derive(Clone, Copy, Debug)]
pub enum LandingPick {
    /// The collision fell on no vertex. The side picked, or nothing where no side took it.
    Side(Option<LandingSurface>),
    /// The collision fell on the vertex of this index, and the player had no motion to tell
    /// the two sides of the corner apart.
    CornerWithoutMotion(usize),
    /// The collision fell on the vertex of this index. The side picked, or nothing where the
    /// player can land on neither side of the corner.
    Corner(usize, Option<LandingSurface>),
}

impl LandingPick {
    /// The surface to land on, if one was picked.
    pub open spec fn picked(self) -> Option<LandingSurface> {
        match self {
            LandingPick::Side(surface) => surface,
            LandingPick::CornerWithoutMotion(_) => None,
            LandingPick::Corner(_, surface) => surface,
        }
    }

    /// The surface to land on, if one was picked.
    pub fn surface(&self) -> (r: Option<LandingSurface>)
        ensures
            r == self.picked(),
    {
        match self {
            LandingPick::Side(surface) => *surface,
            LandingPick::CornerWithoutMotion(_) => None,
            LandingPick::Corner(_, surface) => *surface,
        }
    }
}

/// `r` is a possible outcome of picking the surface to land on after a collision with the
/// polygon `points`: by the corner where the collision fell on a vertex, else by the edge.
pub open spec fn landing_picked<K, P, A, B, C, I, D>(
    points: &Vec<Vector2>,
    collision_position: Vector2,
    player_motion: Vector2,
    collision_normal: Vector2,
    closer: &K,
    test: &HitTest<P, A, B>,
    can_land: &C,
    inside: &I,
    nearer: &D,
    r: LandingPick,
) -> bool where
    K: Fn(Vector2, Vector2, Vector2) -> bool,
    P: Fn(LandingSurface, Vector2) -> bool,
    A: Fn(Vector2, Vector2) -> bool,
    B: Fn(Vector2, Vector2, Vector2) -> bool,
    C: Fn(LandingSurface) -> bool,
    I: Fn(LandingSurface, &Vec<Vector2>, Side) -> bool,
    D: Fn(Vector2, Vector2) -> bool,
 {
    match r {
        LandingPick::Side(surface) => {
            &&& is_first_at(points@, collision_position, None)
            &&& side_picked(
                points,
                collision_position,
                player_motion,
                collision_normal,
                test,
                can_land,
                inside,
                nearer,
                surface,
            )
        },
        LandingPick::CornerWithoutMotion(index) => {
            &&& is_first_at(points@, collision_position, Some(index))
            &&& zero_approx(player_motion)
        },
        LandingPick::Corner(index, surface) => {
            &&& is_first_at(points@, collision_position, Some(index))
            &&& !zero_approx(player_motion)
            &&& corner_side_picked(
                points,
                index as int,
                player_motion,
                collision_normal,
                closer,
                can_land,
                inside,
                surface,
            )
        },
    }
}

/// Picks the surface to land on after a collision at `collision_position` with the polygon
/// `points`: where the position is a vertex of the polygon the player hit a corner, see
/// [`pick_side_to_land_on_from_corner`], else a side, see [`pick_side_to_land_on`].
///
/// The outcome tells the three ways of finding no surface apart: no side took the collision,
/// the player hit a corner without motion, and the player fits on neither side of a corner.
pub fn pick_landing_surface<K, P, A, B, C, I, D>(
    points: &Vec<Vector2>,
    collision_position: Vector2,
    player_motion: Vector2,
    collision_normal: Vector2,
    closer: &K,
    test: &HitTest<P, A, B>,
    can_land: &C,
    inside: &I,
    nearer: &D,
) -> (r: LandingPick) where
    K: Fn(Vector2, Vector2, Vector2) -> bool,
    P: Fn(LandingSurface, Vector2) -> bool,
    A: Fn(Vector2, Vector2) -> bool,
    B: Fn(Vector2, Vector2, Vector2) -> bool,
    C: Fn(LandingSurface) -> bool,
    I: Fn(LandingSurface, &Vec<Vector2>, Side) -> bool,
    D: Fn(Vector2, Vector2) -> bool,

    requires
        forall|n1: Vector2, n2: Vector2, n: Vector2| closer.requires((n1, n2, n)),
        test.total(),
        forall|s: LandingSurface| can_land.requires((s,)),
        can_probe(inside),
        forall|p: Vector2, q: Vector2| nearer.requires((p, q)),
    ensures
        landing_picked(
            points,
            collision_position,
            player_motion,
            collision_normal,
            closer,
            test,
            can_land,
            inside,
            nearer,
            r,
        ),
{
    match find_point(points, collision_position) {
        Some(index) => {
            if is_zero(player_motion) {
                LandingPick::CornerWithoutMotion(index)
            } else {
                LandingPick::Corner(
                    index,
                    pick_side_to_land_on_from_corner(
                        points,
                        index,
                        player_motion,
                        collision_normal,
                        closer,
                        can_land,
                        inside,
                    ),
                )
            }
        },
        None => LandingPick::Side(
            pick_side_to_land_on(
                points,
                collision_position,
                player_motion,
                collision_normal,
                test,
                can_land,
                inside,
                nearer,
            ),
        ),
    }
}

/// `r` is a possible outcome of one step of gliding from `old_position` towards
/// `shimmy_dest`: the destination itself where no direction leads there or the step comes
/// close to it, else the position that the step comes to.
pub open spec fn glided<A, C>(
    old_position: Vector2,
    shimmy_dest: Vector2,
    advance: &A,
    close: &C,
    r: Vector2,
) -> bool where A: Fn(Vector2, Vector2) -> Vector2, C: Fn(Vector2, Vector2) -> bool {
    match direction_of(old_position, shimmy_dest) {
        None => r == shimmy_dest,
        Some(direction) => exists|possible: Vector2| #[trigger]
            advance.ensures((old_position, direction), possible) && {
                ||| close.ensures((possible, shimmy_dest), true) && r == shimmy_dest
                ||| close.ensures((possible, shimmy_dest), false) && r == possible
            },
    }
}

/// Where one step of the shimmy takes a player from `old_position` on the way to
/// `shimmy_dest`.
///
/// The player goes where `advance` takes it from its position in the direction of the
/// destination, unless `close` finds that place close to the destination: then the player
/// is put on the destination, so as not to overshoot it. A player with no direction to go in
/// is put on the destination too.
pub fn glide<A, C>(old_position: Vector2, shimmy_dest: Vector2, advance: &A, close: &C) -> (r:
    Vector2) where A: Fn(Vector2, Vector2) -> Vector2, C: Fn(Vector2, Vector2) -> bool
    requires
        forall|from: Vector2, direction: Vector2| advance.requires((from, direction)),
        forall|p: Vector2, q: Vector2| close.requires((p, q)),
    ensures
        glided(old_position, shimmy_dest, advance, close, r),
{
    match direction(old_position, shimmy_dest) {
        Some(towards) => {
            let possible_position = advance(old_position, towards);
            if close(possible_position, shimmy_dest) {
                shimmy_dest
            } else {
                possible_position
            }
        },
        None => shimmy_dest,
    }
}

/// `r` is a possible outcome of looking for the place to shimmy to on a surface: what
/// `overhang` finds from `a` towards `b`, and where it finds nothing, from `b` towards `a`.
pub open spec fn shimmy_dest_found<F: Fn(Vector2, Vector2, Vector2) -> Option<Vector2>>(
    surface: LandingSurface,
    overhang: &F,
    r: Option<Vector2>,
) -> bool {
    ||| r is Some && overhang.ensures((surface.a, surface.b, surface.normal), r)
    ||| overhang.ensures((surface.a, surface.b, surface.normal), None) && overhang.ensures(
        (surface.b, surface.a, surface.normal),
        r,
    )
}

/// Where the player hangs off one end of the surface or the other, the place to shimmy to.
///
/// `overhang` takes an end of the surface, its other end and its normal, and gives the place
/// where the player no longer hangs off the first end, if the player does now.
pub fn find_shimmy_dest<F: Fn(Vector2, Vector2, Vector2) -> Option<Vector2>>(
    surface: &LandingSurface,
    overhang: &F,
) -> (r: Option<Vector2>)
    requires
        forall|a: Vector2, b: Vector2, n: Vector2| overhang.requires((a, b, n)),
    ensures
        shimmy_dest_found(*surface, overhang, r),
{
    if let Some(shimmy_dest) = overhang(surface.a, surface.b, surface.normal) {
        return Some(shimmy_dest);
    }
    if let Some(shimmy_dest) = overhang(surface.b, surface.a, surface.normal) {
        return Some(shimmy_dest);
    }
    None
}

/// `r` is a possible outcome of looking for the place to shimmy to after landing along an
/// edge: there is none where the player does not fit on the surface.
pub open spec fn edge_shimmy_found<C, F>(
    surface: LandingSurface,
    can_land: &C,
    overhang: &F,
    r: Option<Vector2>,
) -> bool where
    C: Fn(LandingSurface) -> bool,
    F: Fn(Vector2, Vector2, Vector2) -> Option<Vector2>,
 {
    ||| can_land.ensures((surface,), false) && r is None
    ||| can_land.ensures((surface,), true) && shimmy_dest_found(surface, overhang, r)
}

/// After landing along an edge, the place to shimmy to so as to stand fully on the surface.
///
/// On a surface that the player does not fit on there is no such place. Else it is where
/// [`find_shimmy_dest`] finds it.
pub fn shimmy_dest_on_edge<C, F>(surface: &LandingSurface, can_land: &C, overhang: &F) -> (r:
    Option<Vector2>) where
    C: Fn(LandingSurface) -> bool,
    F: Fn(Vector2, Vector2, Vector2) -> Option<Vector2>,

    requires
        forall|s: LandingSurface| can_land.requires((s,)),
        forall|a: Vector2, b: Vector2, n: Vector2| overhang.requires((a, b, n)),
    ensures
        edge_shimmy_found(*surface, can_land, overhang, r),
{
    if !can_land(*surface) {
        None
    } else {
        find_shimmy_dest(surface, overhang)
    }
}

} // verus!
