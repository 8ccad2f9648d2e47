//! Generic rectangles.

use vstd::prelude::*;
use crate::math::orientation::{Axis, Dir};
use crate::math::vector::Vec2;

verus! {

/// A rectangle.
#[derive(Default, Clone, Copy, PartialEq, Eq, Hash, Debug)]
pub struct Rect<T, U = T> {
    /// The top-left corner of the rectangle.
    pub pos: Vec2<T>,
    /// The size of the rectangle.
    pub size: Vec2<U>,
}

impl<T: Copy, U: Copy> Rect<T, U> {
    /// Returns a rectangle with some position.
    pub fn with_pos(self, pos: Vec2<T>) -> (r: Self)
        ensures
            r.pos == pos,
            r.size == self.size,
    {
        let mut rect = self;
        rect.pos = pos;
        rect
    }

    /// Returns a rectangle with some size.
    pub fn with_size(self, size: Vec2<U>) -> (r: Self)
        ensures
            r.pos == self.pos,
            r.size == size,
    {
        let mut rect = self;
        rect.size = size;
        rect
    }
}

/// True when `v` fits in an `i32`.
pub open spec fn fits_i32(v: int) -> bool {
    i32::MIN <= v <= i32::MAX
}

/// An integer rectangle as its position and size: `(x, y, w, h)`.
pub type RectModel = (int, int, int, int);

/// The model of a rectangle of `i32` coordinates.
pub open spec fn rect_model(r: Rect<i32>) -> RectModel {
    (r.pos.x as int, r.pos.y as int, r.size.x as int, r.size.y as int)
}

/// True when every number of the model fits in an `i32`.
pub open spec fn model_fits(m: RectModel) -> bool {
    fits_i32(m.0) && fits_i32(m.1) && fits_i32(m.2) && fits_i32(m.3)
}

/// The rectangle grown by `by` on all four sides.
pub open spec fn grow_model(m: RectModel, by: int) -> RectModel {
    (m.0 - by, m.1 - by, m.2 + 2 * by, m.3 + 2 * by)
}

/// The rectangle grown by a different amount on each side.
pub open spec fn grow_sides_model(m: RectModel, top: int, right: int, bottom: int, left: int) -> RectModel {
    (m.0 - left, m.1 - top, m.2 + left + right, m.3 + top + bottom)
}

/// The rectangle grown by `by` on the side facing `dir`.
pub open spec fn grow_side_model(m: RectModel, dir: Dir, by: int) -> RectModel {
    match dir {
        Dir::Left => (m.0 - by, m.1, m.2 + by, m.3),
        Dir::Right => (m.0, m.1, m.2 + by, m.3),
        Dir::Up => (m.0, m.1 - by, m.2, m.3 + by),
        Dir::Down => (m.0, m.1, m.2, m.3 + by),
    }
}

/// The new position and size along one axis after enclosing `p`: the start
/// becomes the smaller of the start and the point, the end the larger of the
/// end and the point.
pub open spec fn expand_axis(pos: int, size: int, p: int) -> (int, int) {
    let lo = if p < pos { p } else { pos };
    let hi = if pos + size >= p { pos + size } else { p };
    (lo, hi - lo)
}

/// The rectangle after enclosing the point `p`, one axis after the other.
pub open spec fn expand_model(m: RectModel, p: (int, int)) -> RectModel {
    let (x, w) = expand_axis(m.0, m.2, p.0);
    let (y, h) = expand_axis(m.1, m.3, p.1);
    (x, y, w, h)
}

/// True when `p` lies in the rectangle, its far edges included.
pub open spec fn encloses(m: RectModel, p: (int, int)) -> bool {
    m.0 <= p.0 <= m.0 + m.2 && m.1 <= p.1 <= m.1 + m.3
}

impl Rect<i32> {
    /// Returns the bottom-right corner of a rect.
    pub fn end(&self) -> (r: Vec2<i32>)
        requires
            fits_i32(self.pos.x + self.size.x),
            fits_i32(self.pos.y + self.size.y),
        ensures
            r.x == self.pos.x + self.size.x,
            r.y == self.pos.y + self.size.y,
    {
        Vec2 { x: self.pos.x + self.size.x, y: self.pos.y + self.size.y }
    }

    /// Returns the `x` coordinate of the bottom-right corner of a rectangle.
    pub fn end_x(&self) -> (r: i32)
        requires
            fits_i32(self.pos.x + self.size.x),
        ensures
            r == self.pos.x + self.size.x,
    {
        self.pos.x + self.size.x
    }

    /// Returns the `y` coordinate of the bottom-right corner of a rectangle.
    pub fn end_y(&self) -> (r: i32)
        requires
            fits_i32(self.pos.y + self.size.y),
        ensures
            r == self.pos.y + self.size.y,
    {
        self.pos.y + self.size.y
    }

    /// Returns the area of a rectangle.
    pub fn area(&self) -> (r: i32)
        requires
            fits_i32(self.size.x * self.size.y),
        ensures
            r == self.size.x * self.size.y,
    {
        self.size.x * self.size.y
    }

    /// Returns true if a point is within a given rectangle: on each axis,
    /// between the rectangle's start and its end, both included.
    pub fn contains_point(self, point: Vec2<i32>) -> (r: bool)
        requires
            fits_i32(self.pos.x + self.size.x),
            fits_i32(self.pos.y + self.size.y),
        ensures
            r == encloses(rect_model(self), (point.x as int, point.y as int)),
    {
        let end = self.end();
        self.pos.x <= point.x && point.x <= end.x && self.pos.y <= point.y && point.y <= end.y
    }

    /// Returns a new rectangle enclosing a given point.
    ///
    /// Along each axis, the start becomes the smaller of the start and the
    /// point, and the end the larger of the end and the point; a rectangle of
    /// non-negative size then encloses both itself and the point.
    pub fn expand(self, pos: Vec2<i32>) -> (r: Self)
        requires
            fits_i32(self.pos.x + self.size.x),
            fits_i32(self.pos.y + self.size.y),
            model_fits(expand_model(rect_model(self), (pos.x as int, pos.y as int))),
        ensures
            rect_model(r) == expand_model(rect_model(self), (pos.x as int, pos.y as int)),
    {
        let mut rect = self;
        let axes = Axis::iter();
        let mut i: usize = 0;
        while i < 2
            invariant
                0 <= i <= 2,
                axes@ == seq![Axis::X, Axis::Y],
                fits_i32(self.pos.x + self.size.x),
                fits_i32(self.pos.y + self.size.y),
                model_fits(expand_model(rect_model(self), (pos.x as int, pos.y as int))),
                i >= 1 ==> (rect.pos.x as int, rect.size.x as int) == expand_axis(self.pos.x as int, self.size.x as int, pos.x as int),
                i < 1 ==> rect.pos.x == self.pos.x && rect.size.x == self.size.x,
                i >= 2 ==> (rect.pos.y as int, rect.size.y as int) == expand_axis(self.pos.y as int, self.size.y as int, pos.y as int),
                i < 2 ==> rect.pos.y == self.pos.y && rect.size.y == self.size.y,
            decreases 2 - i,
        {
            let axis = axes[i];
            let p = pos.get(axis);
            let start = rect.pos.get(axis);
            let size = rect.size.get(axis);
            let end = start + size;
            if p < start {
                rect.pos.set(axis, p);
                rect.size.set(axis, if end >= p { end - p } else { 0 });
            } else if p - start > size {
                rect.size.set(axis, p - start);
            }
            i = i + 1;
        }
        rect
    }

    /// Expands a rect on all sides.
    pub fn grow(self, by: i32) -> (r: Self)
        requires
            model_fits(grow_model(rect_model(self), by as int)),
            fits_i32(by + by),
        ensures
            rect_model(r) == grow_model(rect_model(self), by as int),
    {
        let mut rect = self;
        let vec = Vec2 { x: by, y: by };
        rect.pos.x = rect.pos.x - vec.x;
        rect.pos.y = rect.pos.y - vec.y;
        let twice = Vec2 { x: vec.x + vec.x, y: vec.y + vec.y };
        rect.size.x = rect.size.x + twice.x;
        rect.size.y = rect.size.y + twice.y;
        rect
    }

    /// Expands a rect by a different amount on each side.
    pub fn grow_sides(self, top: i32, right: i32, bottom: i32, left: i32) -> (r: Self)
        requires
            model_fits(grow_sides_model(rect_model(self), top as int, right as int, bottom as int, left as int)),
            fits_i32(left + right),
            fits_i32(top + bottom),
        ensures
            rect_model(r) == grow_sides_model(rect_model(self), top as int, right as int, bottom as int, left as int),
    {
        let mut rect = self;
        rect.pos.x = rect.pos.x - left;
        rect.pos.y = rect.pos.y - top;
        rect.size.x = rect.size.x + (left + right);
        rect.size.y = rect.size.y + (top + bottom);
        rect
    }

    /// Expands one side of a rect: the side facing `dir` moves out by `by`
    /// and the opposite side stays where it was.
    pub fn grow_side(self, dir: Dir, by: i32) -> (r: Self)
        requires
            model_fits(grow_side_model(rect_model(self), dir, by as int)),
        ensures
            rect_model(r) == grow_side_model(rect_model(self), dir, by as int),
    {
        let mut rect = self;
        match dir {
            Dir::Left => {
                rect.pos.x = rect.pos.x - by;
                rect.size.x = rect.size.x + by;
            },
            Dir::Right => rect.size.x = rect.size.x + by,
            Dir::Up => {
                rect.pos.y = rect.pos.y - by;
                rect.size.y = rect.size.y + by;
            },
            Dir::Down => rect.size.y = rect.size.y + by,
        }
        rect
    }
}

/// Growing by `a` and then by `b` is growing by `a + b`.
pub proof fn lemma_grow_twice(m: RectModel, a: int, b: int)
    ensures
        grow_model(grow_model(m, a), b) == grow_model(m, a + b),
{
}

/// Growing on all sides is growing each side by the same amount.
pub proof fn lemma_grow_is_grow_sides(m: RectModel, by: int)
    ensures
        grow_model(m, by) == grow_sides_model(m, by, by, by, by),
{
}

/// Growing each side by its own amount is growing the top, right, bottom
/// and left sides one after the other.
pub proof fn lemma_grow_sides_is_grow_side_each(m: RectModel, top: int, right: int, bottom: int, left: int)
    ensures
        grow_sides_model(m, top, right, bottom, left) == grow_side_model(
            grow_side_model(grow_side_model(grow_side_model(m, Dir::Up, top), Dir::Right, right), Dir::Down, bottom),
            Dir::Left,
            left,
        ),
{
}

/// A rectangle of non-negative size, expanded to a point, encloses that
/// point (so [`Rect::contains_point`] holds of it) and every point of the
/// rectangle it started from.
pub proof fn lemma_expand_encloses(m: RectModel, p: (int, int), q: (int, int))
    requires
        m.2 >= 0,
        m.3 >= 0,
    ensures
        encloses(expand_model(m, p), p),
        encloses(m, q) ==> encloses(expand_model(m, p), q),
{
}

/// Expanding is the smallest growth: any rectangle that encloses the point
/// and the whole of a rectangle of non-negative size also encloses the
/// expanded rectangle.
pub proof fn lemma_expand_smallest(m: RectModel, p: (int, int), other: RectModel)
    requires
        m.2 >= 0,
        m.3 >= 0,
        encloses(other, p),
        encloses(other, (m.0, m.1)),
        encloses(other, (m.0 + m.2, m.1 + m.3)),
    ensures
        ({
            let e = expand_model(m, p);
            other.0 <= e.0 && e.0 + e.2 <= other.0 + other.2 && other.1 <= e.1 && e.1 + e.3 <= other.1 + other.3
        }),
{
}

/// Expanding a rectangle of non-negative size to a point that it already
/// encloses leaves it as it is; so expanding twice to the same point is
/// expanding once.
pub proof fn lemma_expand_enclosed(m: RectModel, p: (int, int))
    requires
        m.2 >= 0,
        m.3 >= 0,
    ensures
        encloses(m, p) ==> expand_model(m, p) == m,
        expand_model(expand_model(m, p), p) == expand_model(m, p),
{
}

} // verus!
