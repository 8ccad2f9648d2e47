use vstd::prelude::*;
use crate::math::vector::Vec2;

verus! {

/// 2D axes.
#[derive(Clone, Copy, PartialEq, Eq, Structural, Hash, Debug)]
pub enum Axis {
    X,
    Y,
}

impl Axis {
    /// The other axis.
    pub open spec fn other_spec(self) -> Self {
        match self {
            Axis::X => Axis::Y,
            Axis::Y => Axis::X,
        }
    }

    /// Returns the other axis.
    pub fn other(self) -> (r: Self)
        ensures
            r == self.other_spec(),
            r != self,
    {
        match self {
            Axis::X => Axis::Y,
            Axis::Y => Axis::X,
        }
    }

    /// Returns [`X`](Axis::X) and [`Y`](Axis::Y), in that order.
    pub fn iter() -> (r: [Self; 2])
        ensures
            r@ == seq![Axis::X, Axis::Y],
    {
        [Axis::X, Axis::Y]
    }
}

/// Taking the other axis twice gives back the axis.
pub proof fn lemma_other_twice(axis: Axis)
    ensures
        axis.other_spec().other_spec() == axis,
{
}

/// The four directions of the plane, with `y` growing downwards.
#[derive(Clone, Copy, PartialEq, Eq, Structural, Hash, Debug)]
pub enum Dir {
    Up,
    Down,
    Left,
    Right,
}

/// The unit vector of a direction, with `y` growing downwards.
pub open spec fn dir_unit(dir: Dir) -> (int, int) {
    match dir {
        Dir::Up => (0, -1),
        Dir::Down => (0, 1),
        Dir::Left => (-1, 0),
        Dir::Right => (1, 0),
    }
}

impl Dir {
    /// Returns the unit vector representing a direction.
    pub fn unit(self) -> (r: Vec2<i32>)
        ensures
            r.x == dir_unit(self).0,
            r.y == dir_unit(self).1,
    {
        match self {
            Dir::Up => Vec2 { x: 0, y: -1 },
            Dir::Down => Vec2 { x: 0, y: 1 },
            Dir::Left => Vec2 { x: -1, y: 0 },
            Dir::Right => Vec2 { x: 1, y: 0 },
        }
    }
}

/// The unit vector of a direction has exactly one non-zero coordinate,
/// and that coordinate is 1 or -1.
pub proof fn lemma_unit_length(d: Dir)
    ensures
        (dir_unit(d).0 == 0) != (dir_unit(d).1 == 0),
        dir_unit(d).0 * dir_unit(d).0 + dir_unit(d).1 * dir_unit(d).1 == 1,
{
}

/// A direction of rotation.
#[derive(Clone, Copy, PartialEq, Eq, Structural, Hash, Debug)]
pub enum RadialDir {
    Clockwise,
    CounterClockwise,
}

/// A corner of a rectangle.
#[derive(Clone, Copy, PartialEq, Eq, Structural, Hash, Debug)]
pub enum Corner {
    TopLeft,
    TopRight,
    BottomLeft,
    BottomRight,
}

/// A side of a two-sided surface.
#[derive(Clone, Copy, PartialEq, Eq, Structural, Hash, Debug)]
pub enum Face {
    Front,
    Back,
}

} // verus!
