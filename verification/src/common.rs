//! Geometry and utility layer: positions, directions, the axis-aligned
//! bounding-box intersection test, and the random spawn helpers.

use vstd::prelude::*;

use rand::Rng;

verus! {

/// Width and height of the playing field, in grid cells.
pub const GRID_SIZE: i64 = 20;

/// Edge length of one grid cell, in pixels.
pub const BLOCK_SIZE: i64 = 20;

/// Coordinate scale: milli-pixels per pixel. It equals the number of
/// milliseconds in a second, which is what makes a speed in pixels per
/// second times an elapsed time in milliseconds come out directly as a
/// displacement in milli-pixels, with no rounding.
pub const SUBPIXELS: i64 = 1000;

/// Edge length of the square playing field, in pixels.
pub const GRID_SIZE_IN_PIXELS: i64 = GRID_SIZE * BLOCK_SIZE;

/// Edge length of the square playing field, in milli-pixels.
pub const GRID_SPAN: i64 = GRID_SIZE * BLOCK_SIZE * SUBPIXELS;

/// Magnitude bound on the coordinates and sizes the geometry accepts:
/// far beyond any state the game can reach, and small enough that the
/// intersection test cannot overflow a 64-bit computation.
pub const GEOMETRY_BOUND: i64 = 0x1_0000_0000;

/// One of the four cardinal headings.
#[derive(Debug, Copy, Clone, PartialEq, Eq, Hash, Structural)]
pub enum Direction {
    Up,
    Down,
    Left,
    Right,
}

/// A point on the playing field, in milli-pixels per axis.
#[derive(Debug, Copy, Clone, PartialEq, Eq, Structural)]
pub struct Position {
    pub x: i64,
    pub y: i64,
}

/// The unique opposite of a heading: Up and Down swap, Left and Right swap.
pub open spec fn spec_opposite(d: Direction) -> Direction {
    match d {
        Direction::Up => Direction::Down,
        Direction::Down => Direction::Up,
        Direction::Left => Direction::Right,
        Direction::Right => Direction::Left,
    }
}

pub fn get_opposite_direction(direction: &Direction) -> (r: &Direction)
    ensures
        *r == spec_opposite(*direction),
{
    match direction {
        Direction::Up => &Direction::Down,
        Direction::Down => &Direction::Up,
        Direction::Left => &Direction::Right,
        Direction::Right => &Direction::Left,
    }
}

pub fn is_opposite_directions(a: &Direction, b: &Direction) -> (r: bool)
    ensures
        r == (*a == spec_opposite(*b)),
{
    *a == *get_opposite_direction(b)
}

/// An entity that exposes a center position and the edge length of its
/// square bounding box.
pub trait Positioned {
    spec fn pos(&self) -> Position;

    spec fn size(&self) -> i64;

    fn get_position(&self) -> (p: &Position)
        ensures
            *p == self.pos(),
    ;

    fn get_size(&self) -> (s: i64)
        ensures
            s == self.size(),
    ;
}

/// The coordinates and size lie within `GEOMETRY_BOUND`, so the doubled
/// extents computed by `intersects` fit comfortably in an `i64`.
pub open spec fn fits_geometry(p: Position, s: i64) -> bool {
    &&& -GEOMETRY_BOUND <= p.x <= GEOMETRY_BOUND
    &&& -GEOMETRY_BOUND <= p.y <= GEOMETRY_BOUND
    &&& 0 <= s <= GEOMETRY_BOUND
}

/// Axis-aligned bounding-box overlap, boundaries inclusive: the boxes
/// are centered on their positions with the given edge lengths, and they
/// intersect unless one lies strictly beyond the other on some axis.
/// All extents are doubled so that the half sizes stay integral.
pub open spec fn spec_intersects(a_pos: Position, a_size: int, b_pos: Position, b_size: int) -> bool {
    let left_a = 2 * (a_pos.x as int) - a_size;
    let right_a = 2 * (a_pos.x as int) + a_size;
    let top_a = 2 * (a_pos.y as int) - a_size;
    let bottom_a = 2 * (a_pos.y as int) + a_size;
    let left_b = 2 * (b_pos.x as int) - b_size;
    let right_b = 2 * (b_pos.x as int) + b_size;
    let top_b = 2 * (b_pos.y as int) - b_size;
    let bottom_b = 2 * (b_pos.y as int) + b_size;
    !(left_a > right_b || right_a < left_b || top_a > bottom_b || bottom_a < top_b)
}

pub fn intersects<T: Positioned, U: Positioned>(a: &T, b: &U) -> (r: bool)
    requires
        fits_geometry(a.pos(), a.size()),
        fits_geometry(b.pos(), b.size()),
    ensures
        r == spec_intersects(a.pos(), a.size() as int, b.pos(), b.size() as int),
{
    let a_size = a.get_size();
    let b_size = b.get_size();
    let a_pos = a.get_position();
    let b_pos = b.get_position();

    let left_a = 2 * a_pos.x - a_size;
    let right_a = 2 * a_pos.x + a_size;
    let top_a = 2 * a_pos.y - a_size;
    let bottom_a = 2 * a_pos.y + a_size;

    let left_b = 2 * b_pos.x - b_size;
    let right_b = 2 * b_pos.x + b_size;
    let top_b = 2 * b_pos.y - b_size;
    let bottom_b = 2 * b_pos.y + b_size;

    !(left_a > right_b || right_a < left_b || top_a > bottom_b || bottom_a < top_b)
}

/// Relies on `rand::Rng::random_range` (on the generator returned by
/// `rand::rng`): a draw from a non-empty integer range lies within that
/// range, uniformly.
#[verifier::external_body]
fn random_below(n: i64) -> (r: i64)
    requires
        1 <= n,
    ensures
        0 <= r < n,
{
    rand::rng().random_range(0..n)
}

pub fn get_random_direction() -> (d: Direction) {
    let i: i64 = random_below(4);
    match i {
        0 => Direction::Up,
        1 => Direction::Down,
        2 => Direction::Left,
        _ => Direction::Right,
    }
}

/// A uniformly random position inside the field, at whole-pixel
/// resolution on each axis.
pub fn get_random_position() -> (p: Position)
    ensures
        0 <= p.x < GRID_SPAN,
        0 <= p.y < GRID_SPAN,
        p.x % SUBPIXELS == 0,
        p.y % SUBPIXELS == 0,
{
    let range: i64 = GRID_SIZE * BLOCK_SIZE;
    let x: i64 = random_below(range) * SUBPIXELS;
    let y: i64 = random_below(range) * SUBPIXELS;
    Position { x, y }
}

} // verus!
