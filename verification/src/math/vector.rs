//! Generic vectors.
//!
//! Defines two, three, and four-dimensional vector types [`Vec2`], [`Vec3`],
//! and [`Vec4`].

use vstd::prelude::*;
use crate::math::orientation::Axis;

verus! {

/// A two-dimensional vector.
#[derive(Default, Clone, Copy, PartialEq, Eq, PartialOrd, Ord, Hash, Debug)]
pub struct Vec2<T> {
    pub x: T,
    pub y: T,
}

/// A three-dimensional vector.
#[derive(Default, Clone, Copy, PartialEq, Eq, PartialOrd, Ord, Hash, Debug)]
pub struct Vec3<T> {
    pub x: T,
    pub y: T,
    pub z: T,
}

/// A four-dimensional vector.
#[derive(Default, Clone, Copy, PartialEq, Eq, PartialOrd, Ord, Hash, Debug)]
pub struct Vec4<T> {
    pub x: T,
    pub y: T,
    pub z: T,
    pub w: T,
}

impl<T> Vec2<T> {
    /// The component of a vector along an axis.
    pub open spec fn at(self, axis: Axis) -> T {
        match axis {
            Axis::X => self.x,
            Axis::Y => self.y,
        }
    }

    /// Returns a vector with its `x` component replaced.
    pub fn with_x(self, x: T) -> (r: Self)
        ensures
            r.x == x,
            r.y == self.y,
    {
        let mut v = self;
        v.x = x;
        v
    }

    /// Returns a vector with its `y` component replaced.
    pub fn with_y(self, y: T) -> (r: Self)
        ensures
            r.x == self.x,
            r.y == y,
    {
        let mut v = self;
        v.y = y;
        v
    }

    /// Extends a vector with a `z` component.
    pub fn with_z(self, z: T) -> (r: Vec3<T>)
        ensures
            r.x == self.x,
            r.y == self.y,
            r.z == z,
    {
        Vec3 { x: self.x, y: self.y, z }
    }

    /// Returns the vector's components as a tuple.
    pub fn into_tuple(self) -> (r: (T, T))
        ensures
            r.0 == self.x,
            r.1 == self.y,
    {
        (self.x, self.y)
    }

    /// Returns a vector built from a tuple of components.
    pub fn from_tuple(value: (T, T)) -> (r: Self)
        ensures
            r.x == value.0,
            r.y == value.1,
    {
        Vec2 { x: value.0, y: value.1 }
    }
}

impl<T: Copy> Vec2<T> {
    /// Returns a vector with all components set to `v`.
    pub fn diagonal(v: T) -> (r: Self)
        ensures
            r.x == v,
            r.y == v,
    {
        Vec2 { x: v, y: v }
    }

    /// Returns the component of a vector along an axis.
    pub fn get(&self, axis: Axis) -> (r: T)
        ensures
            r == self.at(axis),
    {
        match axis {
            Axis::X => self.x,
            Axis::Y => self.y,
        }
    }

    /// Sets the component of a vector along an axis.
    pub fn set(&mut self, axis: Axis, v: T)
        ensures
            final(self).at(axis) == v,
            final(self).at(axis.other_spec()) == old(self).at(axis.other_spec()),
    {
        match axis {
            Axis::X => self.x = v,
            Axis::Y => self.y = v,
        }
    }
}

impl<T: Copy> Vec3<T> {
    /// Returns a vector with all components set to `v`.
    pub fn diagonal(v: T) -> (r: Self)
        ensures
            r.x == v,
            r.y == v,
            r.z == v,
    {
        Vec3 { x: v, y: v, z: v }
    }

    /// Returns the vector's components as a tuple.
    pub fn into_tuple(self) -> (r: (T, T, T))
        ensures
            r == (self.x, self.y, self.z),
    {
        (self.x, self.y, self.z)
    }

    /// Returns a vector built from a tuple of components.
    pub fn from_tuple(value: (T, T, T)) -> (r: Self)
        ensures
            r.x == value.0,
            r.y == value.1,
            r.z == value.2,
    {
        Vec3 { x: value.0, y: value.1, z: value.2 }
    }
}

impl<T: Copy> Vec4<T> {
    /// Returns a vector with all components set to `v`.
    pub fn diagonal(v: T) -> (r: Self)
        ensures
            r.x == v,
            r.y == v,
            r.z == v,
            r.w == v,
    {
        Vec4 { x: v, y: v, z: v, w: v }
    }

    /// Returns the vector's components as a tuple.
    pub fn into_tuple(self) -> (r: (T, T, T, T))
        ensures
            r == (self.x, self.y, self.z, self.w),
    {
        (self.x, self.y, self.z, self.w)
    }

    /// Returns a vector built from a tuple of components.
    pub fn from_tuple(value: (T, T, T, T)) -> (r: Self)
        ensures
            r.x == value.0,
            r.y == value.1,
            r.z == value.2,
            r.w == value.3,
    {
        Vec4 { x: value.0, y: value.1, z: value.2, w: value.3 }
    }
}

} // verus!
