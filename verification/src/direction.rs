use vstd::prelude::*;

verus! {

/// The four directions a player can face and swing in.
#[derive(Clone, Copy, Debug, PartialEq, Eq, Structural)]
pub enum Direction {
    Right,
    Up,
    Left,
    Down,
}

/// Why a vector has no direction.
#[derive(Clone, Copy, Debug, PartialEq, Eq, Structural)]
pub enum DirectionError {
    /// The vector is zero.
    ZeroVector,
}

/// The direction closest to the vector `(x, y)`: horizontal when the
/// horizontal part is at least as long as the vertical one, and then right
/// unless `x` is negative; otherwise up unless `y` is negative.
pub open spec fn direction_of(x: int, y: int) -> Result<Direction, DirectionError> {
    if x == 0 && y == 0 {
        Err(DirectionError::ZeroVector)
    } else if abs(x) >= abs(y) {
        if x >= 0 {
            Ok(Direction::Right)
        } else {
            Ok(Direction::Left)
        }
    } else {
        if y >= 0 {
            Ok(Direction::Up)
        } else {
            Ok(Direction::Down)
        }
    }
}

/// The length of `v` without its sign.
pub open spec fn abs(v: int) -> int {
    if v < 0 {
        -v
    } else {
        v
    }
}

/// The unit vector of a direction, as `(x, y)`.
pub open spec fn unit_of(d: Direction) -> (int, int) {
    match d {
        Direction::Right => (1, 0),
        Direction::Up => (0, 1),
        Direction::Left => (-1, 0),
        Direction::Down => (0, -1),
    }
}

/// `|v|` computed without overflow.
fn abs_i64(v: i32) -> (r: i64)
    ensures
        r == abs(v as int),
{
    if v < 0 {
        -(v as i64)
    } else {
        v as i64
    }
}

impl Direction {
    /// The direction the vector `(x, y)` points in most, or an error for
    /// the zero vector.
    pub fn try_from_axes(x: i32, y: i32) -> (r: Result<Direction, DirectionError>)
        ensures
            r == direction_of(x as int, y as int),
    {
        if x == 0 && y == 0 {
            return Err(DirectionError::ZeroVector);
        }
        if abs_i64(x) >= abs_i64(y) {
            if x >= 0 {
                Ok(Direction::Right)
            } else {
                Ok(Direction::Left)
            }
        } else {
            if y >= 0 {
                Ok(Direction::Up)
            } else {
                Ok(Direction::Down)
            }
        }
    }

    /// The unit vector of the direction, as `(x, y)`.
    pub fn unit(&self) -> (v: (i8, i8))
        ensures
            (v.0 as int, v.1 as int) == unit_of(*self),
    {
        match *self {
            Direction::Right => (1, 0),
            Direction::Up => (0, 1),
            Direction::Left => (-1, 0),
            Direction::Down => (0, -1),
        }
    }
}

/// A direction's unit vector points in that direction.
pub proof fn lemma_unit_round_trip(d: Direction)
    ensures
        direction_of(unit_of(d).0, unit_of(d).1) == Ok::<Direction, DirectionError>(d),
{
}

/// The direction of a vector does not depend on its length: stretching it by
/// any positive factor keeps its direction.
pub proof fn lemma_direction_ignores_length(x: int, y: int, k: int)
    requires
        k > 0,
    ensures
        direction_of(k * x, k * y) == direction_of(x, y),
{
    assert(abs(k * x) == k * abs(x)) by (nonlinear_arith)
        requires
            k > 0,
    {
    }
    assert(abs(k * y) == k * abs(y)) by (nonlinear_arith)
        requires
            k > 0,
    {
    }
    assert((abs(x) >= abs(y)) == (k * abs(x) >= k * abs(y))) by (nonlinear_arith)
        requires
            k > 0,
    {
    }
    assert((k * x == 0) == (x == 0)) by (nonlinear_arith)
        requires
            k > 0,
    {
    }
    assert((k * y == 0) == (y == 0)) by (nonlinear_arith)
        requires
            k > 0,
    {
    }
    assert((k * x >= 0) == (x >= 0)) by (nonlinear_arith)
        requires
            k > 0,
    {
    }
    assert((k * y >= 0) == (y >= 0)) by (nonlinear_arith)
        requires
            k > 0,
    {
    }
}

} // verus!
