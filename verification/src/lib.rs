//! Landing logic for a character that jumps onto the edges and corners of
//! polygonal terrain.
//!
//! The library decides; the host measures. Positions, motions and normals are
//! the engine's vectors. What the engine computes of them from vectors alone
//! is called here, see [`math`]. Every question that takes a tolerance or the
//! running engine to answer, about lengths, angles and containment, is put to
//! the caller through a function argument, and every decision taken on the
//! answers is stated in a contract.
//!
//! A measurement is a function that the caller hands in. Nothing is assumed
//! of it but that it can be called. The contracts therefore speak of what a
//! measurement can answer: `f.ensures(args, r)` says that `r` is an answer
//! that `f` may give to `args`. Where a function returns something, its
//! contract names the answers that lead there; for a measurement that always
//! gives the same answer to the same question, that pins the result down.
//!
//! - [`math`]: what the engine computes of vectors, and the normal of an edge.
//! - [`polygon`]: walking round a closed polygon, and taking points out of it.
//! - [`landing_surface`]: one edge as a place to land, with its normal.
//! - [`smoothing`]: taking out of a polygon the points that it does not need.
//! - [`selection`]: which side to land on, along an edge and at a corner.
//! - [`tiles`]: putting the collision shape of a tile together with its neighbours'.
//! - [`player`]: the player between air, surface and shimmy.
//! - [`jump`]: who says whether the jump button is down.
//! - [`direction`]: left and right.

pub mod direction;
pub mod jump;
pub mod landing_surface;
pub mod math;
pub mod player;
pub mod polygon;
pub mod selection;
pub mod smoothing;
pub mod tiles;
