//! Grid coordinates and the four headings of the instruction pointer.

use crate::text::{decimal, push_decimal};
use std::ops::Add;
use std::ops::AddAssign;
use vstd::prelude::*;
use vstd::string::StringExecFns;
use vstd::std_specs::ops::AddSpecImpl;

verus! {

/// One of the four fixed headings.
///
/// The names are the language's own: `West` moves towards larger `x` and
/// `East` towards smaller `x`, while `South` moves towards larger `y`. Programs
/// depend on exactly this table.
#[derive(Clone, Copy, Debug, PartialEq, Eq, Structural)]
pub enum Direction {
    North,
    South,
    West,
    East,
}

impl Direction {
    /// Horizontal component of the unit vector.
    pub open spec fn dx(self) -> int {
        match self {
            Direction::North => 0,
            Direction::South => 0,
            Direction::West => 1,
            Direction::East => -1,
        }
    }

    /// Vertical component of the unit vector.
    pub open spec fn dy(self) -> int {
        match self {
            Direction::North => -1,
            Direction::South => 1,
            Direction::West => 0,
            Direction::East => 0,
        }
    }

    /// The heading one step clockwise in the cycle
    /// North, West, South, East, North.
    pub open spec fn clockwise(self) -> Direction {
        match self {
            Direction::North => Direction::West,
            Direction::West => Direction::South,
            Direction::South => Direction::East,
            Direction::East => Direction::North,
        }
    }

    /// The heading one step counter-clockwise in the same cycle.
    pub open spec fn counter_clockwise(self) -> Direction {
        match self {
            Direction::North => Direction::East,
            Direction::East => Direction::South,
            Direction::South => Direction::West,
            Direction::West => Direction::North,
        }
    }

    /// The English name of the heading.
    pub open spec fn name(self) -> Seq<char> {
        match self {
            Direction::North => "North"@,
            Direction::South => "South"@,
            Direction::West => "West"@,
            Direction::East => "East"@,
        }
    }

    /// Horizontal component of the unit vector.
    pub fn xoff(self) -> (r: i8)
        ensures
            r == self.dx(),
    {
        match self {
            Direction::North => 0,
            Direction::South => 0,
            Direction::West => 1,
            Direction::East => -1,
        }
    }

    /// Vertical component of the unit vector.
    pub fn yoff(self) -> (r: i8)
        ensures
            r == self.dy(),
    {
        match self {
            Direction::North => -1,
            Direction::South => 1,
            Direction::West => 0,
            Direction::East => 0,
        }
    }

    /// The heading one step clockwise.
    pub fn turn_right(self) -> (r: Direction)
        ensures
            r == self.clockwise(),
    {
        match self {
            Direction::North => Direction::West,
            Direction::West => Direction::South,
            Direction::South => Direction::East,
            Direction::East => Direction::North,
        }
    }

    /// The heading one step counter-clockwise.
    pub fn turn_left(self) -> (r: Direction)
        ensures
            r == self.counter_clockwise(),
    {
        match self {
            Direction::North => Direction::East,
            Direction::East => Direction::South,
            Direction::South => Direction::West,
            Direction::West => Direction::North,
        }
    }

    /// The English name of the heading.
    pub fn to_string(&self) -> (s: String)
        ensures
            s@ == self.name(),
    {
        match self {
            Direction::North => "North".to_owned(),
            Direction::South => "South".to_owned(),
            Direction::West => "West".to_owned(),
            Direction::East => "East".to_owned(),
        }
    }
}

/// A cell address: column `x`, row `y`. Any pair is a position; whether it
/// lies on a grid is decided only when the grid is consulted.
#[derive(Clone, Copy, Debug, PartialEq, Eq, Structural)]
pub struct Position {
    pub x: i32,
    pub y: i32,
}

impl Position {
    /// The position as text: both coordinates in decimal.
    pub open spec fn text(self) -> Seq<char> {
        "x: "@ + decimal(self.x as int) + ", y: "@ + decimal(self.y as int)
    }

    /// The position as text, for diagnostics.
    pub fn to_string(&self) -> (s: String)
        ensures
            s@ == self.text(),
    {
        let mut s = String::new();
        s.append("x: ");
        push_decimal(&mut s, self.x);
        s.append(", y: ");
        push_decimal(&mut s, self.y);
        s
    }

    /// Whether the cell one step in `direction` can still be addressed.
    pub open spec fn can_step(self, direction: Direction) -> bool {
        &&& i32::MIN <= self.x + direction.dx() <= i32::MAX
        &&& i32::MIN <= self.y + direction.dy() <= i32::MAX
    }

    /// The position `steps` steps away in `direction`, if it can be addressed.
    pub open spec fn ahead(self, direction: Direction, steps: nat) -> Option<Position> {
        let (x, y) = match direction {
            Direction::North => (self.x as int, self.y - steps),
            Direction::South => (self.x as int, self.y + steps),
            Direction::West => (self.x + steps, self.y as int),
            Direction::East => (self.x - steps, self.y as int),
        };
        if i32::MIN <= x <= i32::MAX && i32::MIN <= y <= i32::MAX {
            Some(Position { x: x as i32, y: y as i32 })
        } else {
            None
        }
    }

    /// The neighbouring position in `direction`, if it can be addressed.
    pub open spec fn neighbor(self, direction: Direction) -> Option<Position> {
        self.ahead(direction, 1)
    }

    /// Whether the neighbouring position in `direction` can be addressed.
    pub fn fits(self, direction: Direction) -> (r: bool)
        ensures
            r == self.can_step(direction),
    {
        match direction {
            Direction::North => self.y > i32::MIN,
            Direction::South => self.y < i32::MAX,
            Direction::West => self.x < i32::MAX,
            Direction::East => self.x > i32::MIN,
        }
    }

    /// The neighbouring position in `direction`, or `None` where a coordinate
    /// would leave the range of `i32`.
    pub fn checked_add(self, direction: Direction) -> (r: Option<Position>)
        ensures
            r == self.neighbor(direction),
            r is Some <==> self.can_step(direction),
    {
        if self.fits(direction) {
            Some(self + direction)
        } else {
            None
        }
    }
}

/// `position + direction` is the neighbouring position. It is defined where
/// that neighbour can be addressed; `checked_add` asks first.
impl Add<Direction> for Position {
    type Output = Position;

    fn add(self, other: Direction) -> Position {
        Position { x: self.x + other.xoff() as i32, y: self.y + other.yoff() as i32 }
    }
}

impl AddSpecImpl<Direction> for Position {
    open spec fn obeys_add_spec() -> bool {
        true
    }

    open spec fn add_req(self, other: Direction) -> bool {
        self.can_step(other)
    }

    open spec fn add_spec(self, other: Direction) -> Position {
        Position { x: (self.x + other.dx()) as i32, y: (self.y + other.dy()) as i32 }
    }
}

/// `position.add_assign(direction)` moves the position to its neighbour,
/// where that neighbour can be addressed.
impl AddAssign<Direction> for Position {
    fn add_assign(&mut self, other: Direction)
        requires
            old(self).can_step(other),
        ensures
            Some(*final(self)) == old(self).neighbor(other),
    {
        *self = Self { x: self.x + other.xoff() as i32, y: self.y + other.yoff() as i32 };
    }
}

/// `position.add_assign(offset)` adds the offset coordinate by coordinate,
/// where both sums lie in the range of `i32`.
impl AddAssign for Position {
    fn add_assign(&mut self, other: Self)
        requires
            i32::MIN <= old(self).x + other.x <= i32::MAX,
            i32::MIN <= old(self).y + other.y <= i32::MAX,
        ensures
            final(self).x == old(self).x + other.x,
            final(self).y == old(self).y + other.y,
    {
        *self = Self { x: self.x + other.x, y: self.y + other.y };
    }
}

} // verus!
