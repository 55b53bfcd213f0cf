//! The four directions in which a snake can move, and how a move changes a
//! position on the board.

use vstd::prelude::*;

use crate::position::Position;
use crate::{BOARD_HEIGHT, BOARD_WIDTH};

verus! {

/// A direction of movement on the board.
#[derive(PartialEq, Eq, Structural, Clone, Copy, Debug)]
pub enum Direction {
    Up,
    Down,
    Left,
    Right,
}

/// The value of a `u8` read as a two's complement `i8`.
pub open spec fn as_signed(v: u8) -> int {
    if v < 128 {
        v as int
    } else {
        v - 256
    }
}

/// Horizontal offset of one step in direction `d`.
pub open spec fn offset_x(d: Direction) -> int {
    match d {
        Direction::Left => -1,
        Direction::Right => 1,
        _ => 0,
    }
}

/// Vertical offset of one step in direction `d` (rows grow downwards).
pub open spec fn offset_y(d: Direction) -> int {
    match d {
        Direction::Up => -1,
        Direction::Down => 1,
        _ => 0,
    }
}

/// A coordinate after a step: below zero it wraps to `bound`, at or past
/// `bound` it wraps to zero, otherwise it is kept.
pub open spec fn wrap_coord(v: int, bound: u8) -> u8 {
    if v < 0 {
        bound
    } else if v >= bound {
        0
    } else {
        v as u8
    }
}

/// The `i8` arithmetic of one step from `p` in direction `d` stays in range.
pub open spec fn step_fits(d: Direction, p: Position) -> bool {
    &&& -128 <= as_signed(p.x) + offset_x(d) <= 127
    &&& -128 <= as_signed(p.y) + offset_y(d) <= 127
}

/// The position reached by one step from `p` in direction `d`.
pub open spec fn step(d: Direction, p: Position) -> Position {
    Position {
        x: wrap_coord(as_signed(p.x) + offset_x(d), BOARD_WIDTH),
        y: wrap_coord(as_signed(p.y) + offset_y(d), BOARD_HEIGHT),
    }
}

/// The direction that points the other way.
pub open spec fn opposite(d: Direction) -> Direction {
    match d {
        Direction::Up => Direction::Down,
        Direction::Down => Direction::Up,
        Direction::Left => Direction::Right,
        Direction::Right => Direction::Left,
    }
}

fn signed_coord(v: u8) -> (r: i8)
    ensures
        r as int == as_signed(v),
{
    let r = v as i8;
    assert(r as int == if v < 128 { v as int } else { v - 256 }) by (bit_vector)
        requires
            r == v as i8,
    ;
    r
}

fn wrap(v: i8, bound: u8) -> (r: u8)
    requires
        bound < 128,
    ensures
        r == wrap_coord(v as int, bound),
{
    if v < 0 {
        bound
    } else if v >= bound as i8 {
        0
    } else {
        v as u8
    }
}

/// Whether one step from `p` in direction `d` stays within `i8` arithmetic.
pub fn step_in_range(d: Direction, p: &Position) -> (r: bool)
    ensures
        r == step_fits(d, *p),
{
    let (offset_x, offset_y): (i16, i16) = match d {
        Direction::Up => (0, -1i16),
        Direction::Down => (0, 1),
        Direction::Left => (-1i16, 0),
        Direction::Right => (1, 0),
    };
    let vx = signed_coord(p.x) as i16 + offset_x;
    let vy = signed_coord(p.y) as i16 + offset_y;
    -128 <= vx && vx <= 127 && -128 <= vy && vy <= 127
}

impl Direction {
    /// The position one step from `org` in this direction. A coordinate that
    /// would leave the board below zero becomes the board's size; one that
    /// would reach the board's size becomes zero.
    pub fn apply_to(self, org: &Position) -> (r: Position)
        requires
            step_fits(self, *org),
        ensures
            r == step(self, *org),
    {
        let (offset_x, offset_y): (i8, i8) = match self {
            Direction::Up => (0, -1i8),
            Direction::Down => (0, 1),
            Direction::Left => (-1i8, 0),
            Direction::Right => (1, 0),
        };
        let sx = signed_coord(org.x);
        let sy = signed_coord(org.y);
        Position { x: wrap(sx + offset_x, BOARD_WIDTH), y: wrap(sy + offset_y, BOARD_HEIGHT) }
    }

    /// Whether `other` points the other way than this direction.
    pub fn is_opposite(self, other: Direction) -> (r: bool)
        ensures
            r == (other == opposite(self)),
    {
        match self {
            Direction::Up => other == Direction::Down,
            Direction::Down => other == Direction::Up,
            Direction::Left => other == Direction::Right,
            Direction::Right => other == Direction::Left,
        }
    }
}

} // verus!
